use vstd::prelude::*;
use crate::pubkey::Pubkey;

verus! {

/// Bytes of host storage reserved for one record: an 8-byte discriminator
/// plus 32 + 4 + 200 bytes of payload space.
pub const RECORD_SPACE: usize = 8 + 32 + 4 + 200;

/// Bytes of a serialized record not taken by the metadata strings: the
/// 8-byte discriminator, a 4-byte length prefix for each of the three
/// strings, one byte for `decimals`, 32 bytes for `authority` and 8 for
/// `supply`.
pub const RECORD_OVERHEAD: usize = 8 + 4 + 4 + 4 + 1 + 32 + 8;

/// The bookkeeping record for one token mint.
///
/// The metadata strings are held as their UTF-8 bytes: the serialized form
/// the reserved storage space is measured in.  `supply` mirrors the ledger's
/// minted amount but is not authoritative over it.
#[derive(Debug)]
pub struct SpaceToken {
    pub name: Vec<u8>,
    pub symbol: Vec<u8>,
    pub uri: Vec<u8>,
    pub decimals: u8,
    pub authority: Pubkey,
    pub supply: u64,
}

/// The mathematical value of a record.
#[verifier::ext_equal]
pub ghost struct TokenModel {
    pub name: Seq<u8>,
    pub symbol: Seq<u8>,
    pub uri: Seq<u8>,
    pub decimals: u8,
    pub authority: Seq<u8>,
    pub supply: u64,
}

impl View for SpaceToken {
    type V = TokenModel;

    open spec fn view(&self) -> TokenModel {
        TokenModel {
            name: self.name@,
            symbol: self.symbol@,
            uri: self.uri@,
            decimals: self.decimals,
            authority: self.authority@,
            supply: self.supply,
        }
    }
}

/// How many bytes a record with these metadata strings serializes to.
pub open spec fn record_size(name: Seq<u8>, symbol: Seq<u8>, uri: Seq<u8>) -> int {
    RECORD_OVERHEAD + name.len() + symbol.len() + uri.len()
}

/// Whether a record with these metadata strings fits in the reserved
/// storage space.
pub open spec fn fits(name: Seq<u8>, symbol: Seq<u8>, uri: Seq<u8>) -> bool {
    record_size(name, symbol, uri) <= RECORD_SPACE
}

/// Whether a record's metadata fits in the reserved storage space.
pub open spec fn model_fits(m: TokenModel) -> bool {
    fits(m.name, m.symbol, m.uri)
}

/// Whether `caller` is the principal allowed to administer the record.
pub open spec fn authorized(m: TokenModel, caller: Seq<u8>) -> bool {
    m.authority == caller
}

/// The record a creation with these arguments produces: metadata copied,
/// supply zero, the creator-specified principal as authority.
pub open spec fn created(
    name: Seq<u8>,
    symbol: Seq<u8>,
    uri: Seq<u8>,
    decimals: u8,
    authority: Seq<u8>,
) -> TokenModel {
    TokenModel { name, symbol, uri, decimals, authority, supply: 0 }
}

/// Whether `amount` more units still fit in the record's supply counter.
pub open spec fn mint_fits(m: TokenModel, amount: u64) -> bool {
    m.supply + amount <= u64::MAX
}

/// The record after minting `amount` units: only the supply counter moves.
pub open spec fn minted(m: TokenModel, amount: u64) -> TokenModel {
    TokenModel { supply: (m.supply + amount) as u64, ..m }
}

/// The record after a metadata update: each field that is supplied is
/// overwritten, each absent one is left unchanged.
pub open spec fn updated(
    m: TokenModel,
    name: Option<Seq<u8>>,
    symbol: Option<Seq<u8>>,
    uri: Option<Seq<u8>>,
) -> TokenModel {
    TokenModel {
        name: if name is Some { name->0 } else { m.name },
        symbol: if symbol is Some { symbol->0 } else { m.symbol },
        uri: if uri is Some { uri->0 } else { m.uri },
        ..m
    }
}

/// The record after handing the authority to `new_authority`; nothing else
/// changes, and the new value is not validated.
pub open spec fn with_authority(m: TokenModel, new_authority: Seq<u8>) -> TokenModel {
    TokenModel { authority: new_authority, ..m }
}

/// Decides [`fits`] on concrete metadata strings.
pub fn fits_in_space(name: &Vec<u8>, symbol: &Vec<u8>, uri: &Vec<u8>) -> (r: bool)
    ensures
        r == fits(name@, symbol@, uri@),
{
    name.len() <= RECORD_SPACE && symbol.len() <= RECORD_SPACE && uri.len() <= RECORD_SPACE
        && RECORD_OVERHEAD + name.len() + symbol.len() + uri.len() <= RECORD_SPACE
}

/// Copies a byte string.
pub fn clone_bytes(v: &Vec<u8>) -> (r: Vec<u8>)
    ensures
        r@ == v@,
{
    let mut r: Vec<u8> = Vec::new();
    let mut i: usize = 0;
    while i < v.len()
        invariant
            i <= v@.len(),
            r@ == v@.subrange(0, i as int),
        decreases v@.len() - i,
    {
        r.push(v[i]);
        proof {
            assert(r@ =~= v@.subrange(0, i as int + 1));
        }
        i = i + 1;
    }
    proof {
        assert(r@ =~= v@);
    }
    r
}

} // verus!
