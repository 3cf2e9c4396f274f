use vstd::prelude::*;
use crate::pubkey::Pubkey;

verus! {

/// One call into the external token ledger.
///
/// The ledger and the host runtime live outside this crate: an operation
/// that must reach the ledger returns the exact call to make, and the caller
/// forwards it.  A ledger failure then aborts the whole transaction on the
/// host's side, so no record mutation of a failed operation survives.
#[derive(Clone, Copy, Debug, PartialEq, Eq)]
pub enum LedgerInstruction {
    /// Create the ledger-side mint: `decimals` as configured, and both the
    /// mint and the freeze authority set to the creating principal.
    InitializeMint {
        mint: Pubkey,
        decimals: u8,
        mint_authority: Pubkey,
        freeze_authority: Option<Pubkey>,
    },
    /// Mint `amount` units into `destination`, signed by `authority`.
    MintTo { mint: Pubkey, destination: Pubkey, authority: Pubkey, amount: u64 },
}

} // verus!
