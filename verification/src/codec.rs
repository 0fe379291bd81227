//! Wire format of the instruction payload.
//!
//! A payload is the fixed-width little-endian image of the five request
//! fields, in declared order and with no header:
//! `market_index (8) | order_type (1) | direction (1) | base_asset_amount (8) | price (8)`.

use vstd::prelude::*;
use vstd::bytes::lemma_auto_spec_u64_to_from_le_bytes;
use vstd::bytes::spec_u64_from_le_bytes;
use vstd::bytes::spec_u64_to_le_bytes;
use vstd::bytes::u64_from_le_bytes;
use vstd::bytes::u64_to_le_bytes;
use vstd::slice::slice_index_get;
use vstd::slice::slice_subrange;

use crate::BulkOrderParams;

verus! {

/// Exact byte length of an encoded request.
pub const ENCODED_LEN: usize = 26;

/// Why a raw instruction payload was rejected.
#[derive(Clone, Copy, Debug, PartialEq, Eq, Structural)]
pub enum DecodeError {
    /// The payload is not exactly `ENCODED_LEN` bytes long.
    Malformed,
}

/// The byte image of a request: each field in declared order, integers
/// little-endian.
pub open spec fn spec_encode_request(q: BulkOrderParams) -> Seq<u8> {
    spec_u64_to_le_bytes(q.market_index) + seq![q.order_type] + seq![q.direction]
        + spec_u64_to_le_bytes(q.base_asset_amount) + spec_u64_to_le_bytes(q.price)
}

/// The request read back from a full-length byte image.
pub open spec fn spec_decode_request(b: Seq<u8>) -> BulkOrderParams
    recommends
        b.len() == ENCODED_LEN,
{
    BulkOrderParams {
        market_index: spec_u64_from_le_bytes(b.subrange(0, 8)),
        order_type: b[8],
        direction: b[9],
        base_asset_amount: spec_u64_from_le_bytes(b.subrange(10, 18)),
        price: spec_u64_from_le_bytes(b.subrange(18, 26)),
    }
}

/// Parses a raw instruction payload into a typed order request.
///
/// Succeeds exactly on payloads of the fixed encoded length; any shorter or
/// longer payload is rejected as malformed, and no partial request escapes.
pub fn decode(payload: &[u8]) -> (r: Result<BulkOrderParams, DecodeError>)
    ensures
        payload@.len() == ENCODED_LEN ==> r == Ok::<BulkOrderParams, DecodeError>(
            spec_decode_request(payload@),
        ),
        payload@.len() != ENCODED_LEN ==> r == Err::<BulkOrderParams, DecodeError>(
            DecodeError::Malformed,
        ),
{
    if payload.len() != ENCODED_LEN {
        return Err(DecodeError::Malformed);
    }
    let market_index = u64_from_le_bytes(slice_subrange(payload, 0, 8));
    let order_type = *slice_index_get(payload, 8);
    let direction = *slice_index_get(payload, 9);
    let base_asset_amount = u64_from_le_bytes(slice_subrange(payload, 10, 18));
    let price = u64_from_le_bytes(slice_subrange(payload, 18, 26));
    Ok(BulkOrderParams { market_index, order_type, direction, base_asset_amount, price })
}

/// Writes a request in the fixed-width wire format that `decode` reads.
pub fn encode(q: &BulkOrderParams) -> (r: Vec<u8>)
    ensures
        r@ == spec_encode_request(*q),
        r@.len() == ENCODED_LEN,
{
    let mut out = u64_to_le_bytes(q.market_index);
    out.push(q.order_type);
    out.push(q.direction);
    let mut amount_bytes = u64_to_le_bytes(q.base_asset_amount);
    out.append(&mut amount_bytes);
    let mut price_bytes = u64_to_le_bytes(q.price);
    out.append(&mut price_bytes);
    proof {
        lemma_auto_spec_u64_to_from_le_bytes();
        assert(out@ =~= spec_encode_request(*q));
    }
    out
}

/// Law: decoding inverts encoding — every request survives the wire format
/// with no loss.
pub proof fn lemma_request_round_trip(q: BulkOrderParams)
    ensures
        spec_encode_request(q).len() == ENCODED_LEN,
        spec_decode_request(spec_encode_request(q)) == q,
{
    lemma_auto_spec_u64_to_from_le_bytes();
    let b = spec_encode_request(q);
    assert(b.subrange(0, 8) =~= spec_u64_to_le_bytes(q.market_index));
    assert(b.subrange(10, 18) =~= spec_u64_to_le_bytes(q.base_asset_amount));
    assert(b.subrange(18, 26) =~= spec_u64_to_le_bytes(q.price));
}

/// Law: encoding inverts decoding — a full-length payload is reproduced
/// byte for byte by re-encoding the request read from it.
pub proof fn lemma_payload_round_trip(b: Seq<u8>)
    requires
        b.len() == ENCODED_LEN,
    ensures
        spec_encode_request(spec_decode_request(b)) == b,
{
    lemma_auto_spec_u64_to_from_le_bytes();
    let q = spec_decode_request(b);
    assert(spec_u64_to_le_bytes(q.market_index) == b.subrange(0, 8));
    assert(spec_u64_to_le_bytes(q.base_asset_amount) == b.subrange(10, 18));
    assert(spec_u64_to_le_bytes(q.price) == b.subrange(18, 26));
    assert(spec_encode_request(q) =~= b);
}

} // verus!
