//! The authenticity attestation of a collateral item: the creators listed in
//! its token-metadata record.

use vstd::prelude::*;
use crate::pubkey::Pubkey;

verus! {

/// What the token-metadata parser reads from the bytes of a metadata record:
/// nothing when the bytes are no metadata record, otherwise the record's list
/// of creators, which may be absent. The parser depends on the bytes alone.
pub uninterp spec fn parsed_creators(data: Seq<u8>) -> Option<Option<Seq<Pubkey>>>;

/// The creators that a metadata record attests: the listed ones, and none
/// when the record cannot be read or lists no creators.
pub open spec fn attested_creators(data: Seq<u8>) -> Seq<Pubkey> {
    match parsed_creators(data) {
        Some(Some(creators)) => creators,
        _ => Seq::empty(),
    }
}

/// What a parse hands out, with the list of creators taken by its view.
pub open spec fn creators_view(parsed: Option<Option<Vec<Pubkey>>>) -> Option<Option<Seq<Pubkey>>> {
    match parsed {
        Some(Some(creators)) => Some(Some(creators@)),
        Some(None) => Some(None),
        None => None,
    }
}

/// Calls `mpl_token_metadata::accounts::Metadata::safe_deserialize` on the
/// bytes of a metadata record and hands out the addresses of the creators it
/// lists, in the record's order. Nothing is proved of the parser: the contract
/// only gives its result a name.
#[verifier::external_body]
fn read_creators(data: &[u8]) -> (r: Option<Option<Vec<Pubkey>>>)
    ensures
        creators_view(r) == parsed_creators(data@),
{
    let metadata = mpl_token_metadata::accounts::Metadata::safe_deserialize(data).ok()?;
    Some(metadata.creators.map(|creators| {
        creators.iter().map(|creator| Pubkey { bytes: creator.address.to_bytes() }).collect()
    }))
}

/// Reads the creators that a metadata record attests.
pub fn creators_of(data: &[u8]) -> (r: Vec<Pubkey>)
    ensures
        r@ == attested_creators(data@),
{
    match read_creators(data) {
        Some(Some(creators)) => creators,
        _ => Vec::new(),
    }
}

} // verus!
