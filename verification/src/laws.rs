use vstd::prelude::*;
use crate::record::{TokenModel, authorized, created, mint_fits, minted, updated, with_authority};

verus! {

/// A freshly created record starts with a supply of zero, carries the
/// creator-specified principal as its authority, and holds exactly the
/// metadata it was created with.
pub proof fn lemma_created_record(
    name: Seq<u8>,
    symbol: Seq<u8>,
    uri: Seq<u8>,
    decimals: u8,
    authority: Seq<u8>,
)
    ensures
        created(name, symbol, uri, decimals, authority).supply == 0,
        created(name, symbol, uri, decimals, authority).authority == authority,
        created(name, symbol, uri, decimals, authority).name == name,
        created(name, symbol, uri, decimals, authority).symbol == symbol,
        created(name, symbol, uri, decimals, authority).uri == uri,
        created(name, symbol, uri, decimals, authority).decimals == decimals,
        authorized(created(name, symbol, uri, decimals, authority), authority),
{
}

/// A mint that fits grows the supply counter by exactly the minted amount
/// and touches nothing else.
pub proof fn lemma_mint_increases_supply(m: TokenModel, amount: u64)
    requires
        mint_fits(m, amount),
    ensures
        minted(m, amount).supply == m.supply + amount,
        minted(m, amount).name == m.name,
        minted(m, amount).symbol == m.symbol,
        minted(m, amount).uri == m.uri,
        minted(m, amount).decimals == m.decimals,
        minted(m, amount).authority == m.authority,
{
}

/// Minting never shrinks the supply counter: repeated mints only grow it,
/// and once the amounts asked for exceed the counter's room, the mint that
/// crosses the line no longer fits — by the contract of
/// [`crate::token_admin::mint_tokens`] it then fails and leaves the record
/// unchanged.
pub proof fn lemma_repeated_mint_overflow(m: TokenModel, first: u64, second: u64)
    requires
        mint_fits(m, first),
        m.supply + first + second > u64::MAX,
    ensures
        !mint_fits(minted(m, first), second),
        minted(m, first).supply >= m.supply,
{
}

/// The supply counter only ever increases: a metadata update and an
/// authority transfer leave it as it is, and a mint that fits grows it.
pub proof fn lemma_supply_only_increases(
    m: TokenModel,
    amount: u64,
    name: Option<Seq<u8>>,
    symbol: Option<Seq<u8>>,
    uri: Option<Seq<u8>>,
    new_authority: Seq<u8>,
)
    ensures
        updated(m, name, symbol, uri).supply == m.supply,
        with_authority(m, new_authority).supply == m.supply,
        mint_fits(m, amount) ==> minted(m, amount).supply >= m.supply,
{
}

/// A metadata update with every field absent is the identity on the
/// record.
pub proof fn lemma_update_absent_is_identity(m: TokenModel)
    ensures
        updated(m, None, None, None) == m,
{
    assert(updated(m, None, None, None) =~= m);
}

/// A metadata update that supplies only `symbol` changes `symbol` to the
/// supplied value and nothing else.
pub proof fn lemma_update_symbol_only(m: TokenModel, symbol: Seq<u8>)
    ensures
        updated(m, None, Some(symbol), None).symbol == symbol,
        updated(m, None, Some(symbol), None).name == m.name,
        updated(m, None, Some(symbol), None).uri == m.uri,
        updated(m, None, Some(symbol), None).decimals == m.decimals,
        updated(m, None, Some(symbol), None).authority == m.authority,
        updated(m, None, Some(symbol), None).supply == m.supply,
{
}

/// Transferring the authority to a different principal replaces the
/// authority exactly: afterwards the new principal is authorized and the
/// old one is not, so by the contracts of [`crate::token_admin`] every
/// later mutation attempt by the old principal fails as unauthorized.
pub proof fn lemma_transfer_excludes_old_authority(
    m: TokenModel,
    caller: Seq<u8>,
    new_authority: Seq<u8>,
)
    requires
        authorized(m, caller),
        caller != new_authority,
    ensures
        with_authority(m, new_authority).authority == new_authority,
        authorized(with_authority(m, new_authority), new_authority),
        !authorized(with_authority(m, new_authority), caller),
        with_authority(m, new_authority).name == m.name,
        with_authority(m, new_authority).symbol == m.symbol,
        with_authority(m, new_authority).uri == m.uri,
        with_authority(m, new_authority).decimals == m.decimals,
        with_authority(m, new_authority).supply == m.supply,
{
}

} // verus!
