use vstd::prelude::*;
use crate::error::ErrorCode;
use crate::ledger::LedgerInstruction;
use crate::pubkey::Pubkey;
use crate::record::{
    SpaceToken, authorized, clone_bytes, created, fits, fits_in_space, mint_fits, minted,
    model_fits, updated, with_authority,
};
use crate::store::TokenStore;

verus! {

/// The parties to a record creation.  The host has already verified that
/// `authority` and `payer` signed the transaction; `payer` funds the storage
/// and is not read by the logic here.
#[derive(Clone, Copy, Debug)]
pub struct InitializeMint {
    /// Location the new record is created at.
    pub space_token: Pubkey,
    /// Location of the ledger-side mint.
    pub mint: Pubkey,
    /// Signing principal that becomes the record's authority.
    pub authority: Pubkey,
    /// Signing principal paying for the storage.
    pub payer: Pubkey,
}

/// The parties to a mint operation.  `authority` has signed the
/// transaction.
#[derive(Clone, Copy, Debug)]
pub struct MintTokens {
    /// Location of the record.
    pub space_token: Pubkey,
    /// Location of the ledger-side mint.
    pub mint: Pubkey,
    /// Token account the minted units go to.
    pub token_account: Pubkey,
    /// Signing principal asking to mint.
    pub authority: Pubkey,
}

/// The parties to a metadata update.  `authority` has signed the
/// transaction.
#[derive(Clone, Copy, Debug)]
pub struct UpdateMetadata {
    /// Location of the record.
    pub space_token: Pubkey,
    /// Signing principal asking to update.
    pub authority: Pubkey,
}

/// The parties to an authority transfer.  `authority` has signed the
/// transaction.
#[derive(Clone, Copy, Debug)]
pub struct TransferAuthority {
    /// Location of the record.
    pub space_token: Pubkey,
    /// Signing principal asking to transfer.
    pub authority: Pubkey,
}

/// The ledger call a successful record creation asks for: create the mint
/// with the configured decimals, the creating principal being both mint and
/// freeze authority.
pub open spec fn init_mint_instruction(accounts: InitializeMint, decimals: u8)
    -> LedgerInstruction {
    LedgerInstruction::InitializeMint {
        mint: accounts.mint,
        decimals,
        mint_authority: accounts.authority,
        freeze_authority: Some(accounts.authority),
    }
}

/// The ledger call a successful mint asks for.
pub open spec fn mint_to_instruction(accounts: MintTokens, amount: u64) -> LedgerInstruction {
    LedgerInstruction::MintTo {
        mint: accounts.mint,
        destination: accounts.token_account,
        authority: accounts.authority,
        amount,
    }
}

/// Creates the record for a new token: metadata copied, supply zero, the
/// signing principal as authority.  Fails if a record already exists at the
/// target location, or if the metadata would not fit in the reserved
/// storage space.  On success the returned instruction is the one ledger
/// call to forward.
pub fn initialize_mint(
    store: &mut TokenStore,
    accounts: InitializeMint,
    name: Vec<u8>,
    symbol: Vec<u8>,
    uri: Vec<u8>,
    decimals: u8,
) -> (r: Result<LedgerInstruction, ErrorCode>)
    requires
        old(store).wf(),
    ensures
        final(store).wf(),
        old(store)@.dom().contains(accounts.space_token@) ==> r == Err::<
            LedgerInstruction,
            ErrorCode,
        >(ErrorCode::AlreadyInitialized) && final(store)@ == old(store)@,
        !old(store)@.dom().contains(accounts.space_token@) && !fits(name@, symbol@, uri@)
            ==> r == Err::<LedgerInstruction, ErrorCode>(ErrorCode::CapacityExceeded)
            && final(store)@ == old(store)@,
        !old(store)@.dom().contains(accounts.space_token@) && fits(name@, symbol@, uri@) ==> r
            == Ok::<LedgerInstruction, ErrorCode>(init_mint_instruction(accounts, decimals))
            && final(store)@ == old(store)@.insert(
            accounts.space_token@,
            created(name@, symbol@, uri@, decimals, accounts.authority@),
        ),
{
    if store.contains(&accounts.space_token) {
        return Err(ErrorCode::AlreadyInitialized);
    }
    if !fits_in_space(&name, &symbol, &uri) {
        return Err(ErrorCode::CapacityExceeded);
    }
    let record = SpaceToken {
        name,
        symbol,
        uri,
        decimals,
        authority: accounts.authority,
        supply: 0,
    };
    store.insert_new(accounts.space_token, record);
    Ok(LedgerInstruction::InitializeMint {
        mint: accounts.mint,
        decimals,
        mint_authority: accounts.authority,
        freeze_authority: Some(accounts.authority),
    })
}

/// Mints `amount` units: adds `amount` to the record's supply counter by
/// checked addition and asks for the matching ledger call.  Fails if no
/// record exists at the location, if the signing principal is not the
/// stored authority, or if the addition would overflow; a failed mint
/// leaves the record unchanged.
///
/// The authority check here mirrors the one the ledger itself makes on the
/// forwarded call — the ledger would refuse a mint not signed by the
/// mint's authority — so the supply counter cannot be moved by a principal
/// whose ledger call would be rejected.
pub fn mint_tokens(store: &mut TokenStore, accounts: MintTokens, amount: u64) -> (r: Result<
    LedgerInstruction,
    ErrorCode,
>)
    requires
        old(store).wf(),
    ensures
        final(store).wf(),
        !old(store)@.dom().contains(accounts.space_token@) ==> r == Err::<
            LedgerInstruction,
            ErrorCode,
        >(ErrorCode::RecordNotFound) && final(store)@ == old(store)@,
        old(store)@.dom().contains(accounts.space_token@) && !authorized(
            old(store)@[accounts.space_token@],
            accounts.authority@,
        ) ==> r == Err::<LedgerInstruction, ErrorCode>(ErrorCode::Unauthorized) && final(store)@
            == old(store)@,
        old(store)@.dom().contains(accounts.space_token@) && authorized(
            old(store)@[accounts.space_token@],
            accounts.authority@,
        ) && !mint_fits(old(store)@[accounts.space_token@], amount) ==> r == Err::<
            LedgerInstruction,
            ErrorCode,
        >(ErrorCode::SupplyOverflow) && final(store)@ == old(store)@,
        old(store)@.dom().contains(accounts.space_token@) && authorized(
            old(store)@[accounts.space_token@],
            accounts.authority@,
        ) && mint_fits(old(store)@[accounts.space_token@], amount) ==> r == Ok::<
            LedgerInstruction,
            ErrorCode,
        >(mint_to_instruction(accounts, amount)) && final(store)@ == old(store)@.insert(
            accounts.space_token@,
            minted(old(store)@[accounts.space_token@], amount),
        ),
{
    let new_record = match store.get(&accounts.space_token) {
        None => {
            return Err(ErrorCode::RecordNotFound);
        },
        Some(record) => {
            if !(record.authority == accounts.authority) {
                return Err(ErrorCode::Unauthorized);
            }
            if amount > u64::MAX - record.supply {
                return Err(ErrorCode::SupplyOverflow);
            }
            SpaceToken {
                name: clone_bytes(&record.name),
                symbol: clone_bytes(&record.symbol),
                uri: clone_bytes(&record.uri),
                decimals: record.decimals,
                authority: record.authority,
                supply: record.supply + amount,
            }
        },
    };
    store.update_record(&accounts.space_token, new_record);
    Ok(LedgerInstruction::MintTo {
        mint: accounts.mint,
        destination: accounts.token_account,
        authority: accounts.authority,
        amount,
    })
}

/// Overwrites each metadata field that is supplied and leaves each absent
/// one unchanged.  Fails if no record exists at the location, if the
/// signing principal is not the stored authority, or if the new metadata
/// would not fit in the reserved storage space; a failed update leaves the
/// record unchanged.
pub fn update_metadata(
    store: &mut TokenStore,
    accounts: UpdateMetadata,
    name: Option<Vec<u8>>,
    symbol: Option<Vec<u8>>,
    uri: Option<Vec<u8>>,
) -> (r: Result<(), ErrorCode>)
    requires
        old(store).wf(),
    ensures
        final(store).wf(),
        !old(store)@.dom().contains(accounts.space_token@) ==> r == Err::<(), ErrorCode>(
            ErrorCode::RecordNotFound,
        ) && final(store)@ == old(store)@,
        old(store)@.dom().contains(accounts.space_token@) && !authorized(
            old(store)@[accounts.space_token@],
            accounts.authority@,
        ) ==> r == Err::<(), ErrorCode>(ErrorCode::Unauthorized) && final(store)@ == old(store)@,
        old(store)@.dom().contains(accounts.space_token@) && authorized(
            old(store)@[accounts.space_token@],
            accounts.authority@,
        ) && !model_fits(
            updated(
                old(store)@[accounts.space_token@],
                name.deep_view(),
                symbol.deep_view(),
                uri.deep_view(),
            ),
        ) ==> r == Err::<(), ErrorCode>(ErrorCode::CapacityExceeded) && final(store)@ == old(
            store,
        )@,
        old(store)@.dom().contains(accounts.space_token@) && authorized(
            old(store)@[accounts.space_token@],
            accounts.authority@,
        ) && model_fits(
            updated(
                old(store)@[accounts.space_token@],
                name.deep_view(),
                symbol.deep_view(),
                uri.deep_view(),
            ),
        ) ==> r == Ok::<(), ErrorCode>(()) && final(store)@ == old(store)@.insert(
            accounts.space_token@,
            updated(
                old(store)@[accounts.space_token@],
                name.deep_view(),
                symbol.deep_view(),
                uri.deep_view(),
            ),
        ),
{
    let new_record = match store.get(&accounts.space_token) {
        None => {
            return Err(ErrorCode::RecordNotFound);
        },
        Some(record) => {
            if !(record.authority == accounts.authority) {
                return Err(ErrorCode::Unauthorized);
            }
            let new_name = match name {
                Some(n) => n,
                None => clone_bytes(&record.name),
            };
            let new_symbol = match symbol {
                Some(s) => s,
                None => clone_bytes(&record.symbol),
            };
            let new_uri = match uri {
                Some(u) => u,
                None => clone_bytes(&record.uri),
            };
            if !fits_in_space(&new_name, &new_symbol, &new_uri) {
                return Err(ErrorCode::CapacityExceeded);
            }
            SpaceToken {
                name: new_name,
                symbol: new_symbol,
                uri: new_uri,
                decimals: record.decimals,
                authority: record.authority,
                supply: record.supply,
            }
        },
    };
    proof {
        assert(new_record@ =~= updated(
            old(store)@[accounts.space_token@],
            name.deep_view(),
            symbol.deep_view(),
            uri.deep_view(),
        ));
    }
    store.update_record(&accounts.space_token, new_record);
    Ok(())
}

/// Replaces the record's authority with `new_authority`, unconditionally
/// and without validating the new value.  Fails if no record exists at the
/// location or if the signing principal is not the stored authority; a
/// failed transfer leaves the record unchanged.
pub fn transfer_authority(
    store: &mut TokenStore,
    accounts: TransferAuthority,
    new_authority: Pubkey,
) -> (r: Result<(), ErrorCode>)
    requires
        old(store).wf(),
    ensures
        final(store).wf(),
        !old(store)@.dom().contains(accounts.space_token@) ==> r == Err::<(), ErrorCode>(
            ErrorCode::RecordNotFound,
        ) && final(store)@ == old(store)@,
        old(store)@.dom().contains(accounts.space_token@) && !authorized(
            old(store)@[accounts.space_token@],
            accounts.authority@,
        ) ==> r == Err::<(), ErrorCode>(ErrorCode::Unauthorized) && final(store)@ == old(store)@,
        old(store)@.dom().contains(accounts.space_token@) && authorized(
            old(store)@[accounts.space_token@],
            accounts.authority@,
        ) ==> r == Ok::<(), ErrorCode>(()) && final(store)@ == old(store)@.insert(
            accounts.space_token@,
            with_authority(old(store)@[accounts.space_token@], new_authority@),
        ),
{
    let new_record = match store.get(&accounts.space_token) {
        None => {
            return Err(ErrorCode::RecordNotFound);
        },
        Some(record) => {
            if !(record.authority == accounts.authority) {
                return Err(ErrorCode::Unauthorized);
            }
            SpaceToken {
                name: clone_bytes(&record.name),
                symbol: clone_bytes(&record.symbol),
                uri: clone_bytes(&record.uri),
                decimals: record.decimals,
                authority: new_authority,
                supply: record.supply,
            }
        },
    };
    store.update_record(&accounts.space_token, new_record);
    Ok(())
}

} // verus!
