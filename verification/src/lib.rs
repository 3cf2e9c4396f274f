//! A verified administration layer for a fungible token.
//!
//! The crate keeps, per storage location, a bookkeeping record for a token
//! mint: display metadata, the principal currently allowed to administer
//! the token, and a locally tracked supply counter.  Four operations are
//! offered: creating a record, minting (which grows the counter by checked
//! addition), updating the metadata, and handing the authority to another
//! principal.
//!
//! Actual balance accounting is the business of an external token ledger
//! and its host runtime: an operation that must reach the ledger returns a
//! [`ledger::LedgerInstruction`] value describing the single call the
//! caller forwards.  Everything this crate itself does — the authorization
//! check, the capacity and overflow checks, the field bookkeeping — is
//! verified: the contracts in [`token_admin`] say exactly which inputs
//! succeed, which fail with which error, and how the stored records change;
//! [`laws`] states the properties that relate several operations.

pub mod error;
pub mod laws;
pub mod ledger;
pub mod pubkey;
pub mod record;
pub mod store;
pub mod token_admin;

pub use error::ErrorCode;
pub use ledger::LedgerInstruction;
pub use pubkey::Pubkey;
pub use record::SpaceToken;
pub use store::TokenStore;
pub use token_admin::{InitializeMint, MintTokens, TransferAuthority, UpdateMetadata};
pub use token_admin::{initialize_mint, mint_tokens, transfer_authority, update_metadata};
