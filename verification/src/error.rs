use vstd::prelude::*;

verus! {

/// Why an operation was refused.  No operation that returns an error changes
/// any stored record.
#[derive(Clone, Copy, Debug, PartialEq, Eq, Structural)]
pub enum ErrorCode {
    /// The calling principal is not the stored authority of the record.
    Unauthorized,
    /// A record already exists at the target location, so a second one
    /// cannot be created there.
    AlreadyInitialized,
    /// No record exists at the target location.
    RecordNotFound,
    /// Adding the requested amount to the supply counter would overflow it.
    SupplyOverflow,
    /// The metadata strings would not fit in the fixed space reserved for a
    /// record.
    CapacityExceeded,
}

} // verus!
