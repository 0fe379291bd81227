//! The order descriptor handed to the downstream protocol, and the builder
//! that expands a decoded request into one.
//!
//! The builder applies a fixed policy: every order this instruction places is
//! an immediate-or-cancel perp order with no trigger, auction, oracle-offset
//! or expiry parameters; the five request fields pass through unchanged.

use vstd::prelude::*;
use vstd::bytes::spec_u32_to_le_bytes;
use vstd::bytes::spec_u64_to_le_bytes;
use vstd::bytes::u32_to_le_bytes;
use vstd::bytes::u64_to_le_bytes;

use crate::BulkOrderParams;

verus! {

/// The market a descriptor targets.
#[derive(Clone, Copy, Debug, PartialEq, Eq, Structural)]
pub enum MarketType {
    Perp,
    Spot,
}

/// A fully expanded order record, immutable once built and passed
/// byte-identical to the invocation.
#[derive(Clone, Copy, Debug, PartialEq, Eq)]
pub struct OrderDescriptor {
    pub order_type: u8,
    pub market_type: MarketType,
    pub direction: u8,
    pub user_order_id: u8,
    pub base_asset_amount: u64,
    pub price: u64,
    pub market_index: u64,
    pub reduce_only: bool,
    pub post_only: bool,
    pub immediate_or_cancel: bool,
    pub max_ts: Option<i64>,
    pub trigger_price: Option<u64>,
    pub trigger_condition: Option<u8>,
    pub oracle_price_offset: Option<i32>,
    pub auction_duration: Option<u8>,
    pub auction_start_price: Option<i64>,
    pub auction_end_price: Option<i64>,
}

/// The descriptor that the fixed policy assigns to a request.
pub open spec fn spec_build(q: BulkOrderParams) -> OrderDescriptor {
    OrderDescriptor {
        order_type: q.order_type,
        market_type: MarketType::Perp,
        direction: q.direction,
        user_order_id: 0,
        base_asset_amount: q.base_asset_amount,
        price: q.price,
        market_index: q.market_index,
        reduce_only: false,
        post_only: false,
        immediate_or_cancel: true,
        max_ts: None,
        trigger_price: None,
        trigger_condition: None,
        oracle_price_offset: None,
        auction_duration: None,
        auction_start_price: None,
        auction_end_price: None,
    }
}

/// Expands a decoded request into a complete order descriptor.
///
/// Total: every request yields a descriptor, with the request's five fields
/// unchanged and every other field set by the fixed policy.
pub fn build(request: &BulkOrderParams) -> (r: OrderDescriptor)
    ensures
        r == spec_build(*request),
{
    OrderDescriptor {
        order_type: request.order_type,
        market_type: MarketType::Perp,
        direction: request.direction,
        user_order_id: 0,
        base_asset_amount: request.base_asset_amount,
        price: request.price,
        market_index: request.market_index,
        reduce_only: false,
        post_only: false,
        immediate_or_cancel: true,
        max_ts: None,
        trigger_price: None,
        trigger_condition: None,
        oracle_price_offset: None,
        auction_duration: None,
        auction_start_price: None,
        auction_end_price: None,
    }
}

/// Tag byte of a market type.
pub open spec fn spec_market_type_tag(m: MarketType) -> u8 {
    match m {
        MarketType::Perp => 0u8,
        MarketType::Spot => 1u8,
    }
}

/// Byte image of a bool: one tag byte.
pub open spec fn spec_enc_bool(b: bool) -> Seq<u8> {
    if b {
        seq![1u8]
    } else {
        seq![0u8]
    }
}

/// Byte image of an optional byte: a presence tag, then the value if present.
pub open spec fn spec_enc_opt_u8(o: Option<u8>) -> Seq<u8> {
    match o {
        Option::None => seq![0u8],
        Option::Some(v) => seq![1u8, v],
    }
}

/// Byte image of an optional word: a presence tag, then the value
/// little-endian if present.
pub open spec fn spec_enc_opt_u64(o: Option<u64>) -> Seq<u8> {
    match o {
        Option::None => seq![0u8],
        Option::Some(v) => seq![1u8] + spec_u64_to_le_bytes(v),
    }
}

/// Byte image of an optional signed word: a presence tag, then the value's
/// two's-complement bits little-endian if present.
pub open spec fn spec_enc_opt_i64(o: Option<i64>) -> Seq<u8> {
    match o {
        Option::None => seq![0u8],
        Option::Some(v) => seq![1u8] + spec_u64_to_le_bytes(v as u64),
    }
}

/// Byte image of an optional signed half-word: a presence tag, then the
/// value's two's-complement bits little-endian if present.
pub open spec fn spec_enc_opt_i32(o: Option<i32>) -> Seq<u8> {
    match o {
        Option::None => seq![0u8],
        Option::Some(v) => seq![1u8] + spec_u32_to_le_bytes(v as u32),
    }
}

/// The byte image of a descriptor: every field in declared order, integers
/// little-endian, bools one byte, optional fields behind a presence tag.
pub open spec fn spec_encode_descriptor(d: OrderDescriptor) -> Seq<u8> {
    seq![d.order_type] + seq![spec_market_type_tag(d.market_type)] + seq![d.direction]
        + seq![d.user_order_id] + spec_u64_to_le_bytes(d.base_asset_amount)
        + spec_u64_to_le_bytes(d.price) + spec_u64_to_le_bytes(d.market_index)
        + spec_enc_bool(d.reduce_only) + spec_enc_bool(d.post_only)
        + spec_enc_bool(d.immediate_or_cancel) + spec_enc_opt_i64(d.max_ts)
        + spec_enc_opt_u64(d.trigger_price) + spec_enc_opt_u8(d.trigger_condition)
        + spec_enc_opt_i32(d.oracle_price_offset) + spec_enc_opt_u8(d.auction_duration)
        + spec_enc_opt_i64(d.auction_start_price) + spec_enc_opt_i64(d.auction_end_price)
}

/// Appends the byte image of an optional byte.
fn push_opt_u8(out: &mut Vec<u8>, o: Option<u8>)
    ensures
        final(out)@ == old(out)@ + spec_enc_opt_u8(o),
{
    match o {
        Option::None => out.push(0u8),
        Option::Some(v) => {
            out.push(1u8);
            out.push(v);
        },
    }
    proof {
        assert(out@ =~= old(out)@ + spec_enc_opt_u8(o));
    }
}

/// Appends the byte image of an optional word.
fn push_opt_u64(out: &mut Vec<u8>, o: Option<u64>)
    ensures
        final(out)@ == old(out)@ + spec_enc_opt_u64(o),
{
    match o {
        Option::None => out.push(0u8),
        Option::Some(v) => {
            out.push(1u8);
            let mut bytes = u64_to_le_bytes(v);
            out.append(&mut bytes);
        },
    }
    proof {
        assert(out@ =~= old(out)@ + spec_enc_opt_u64(o));
    }
}

/// Appends the byte image of an optional signed word.
fn push_opt_i64(out: &mut Vec<u8>, o: Option<i64>)
    ensures
        final(out)@ == old(out)@ + spec_enc_opt_i64(o),
{
    match o {
        Option::None => out.push(0u8),
        Option::Some(v) => {
            out.push(1u8);
            let mut bytes = u64_to_le_bytes(#[verifier::truncate] (v as u64));
            out.append(&mut bytes);
        },
    }
    proof {
        assert(out@ =~= old(out)@ + spec_enc_opt_i64(o));
    }
}

/// Appends the byte image of an optional signed half-word.
fn push_opt_i32(out: &mut Vec<u8>, o: Option<i32>)
    ensures
        final(out)@ == old(out)@ + spec_enc_opt_i32(o),
{
    match o {
        Option::None => out.push(0u8),
        Option::Some(v) => {
            out.push(1u8);
            let mut bytes = u32_to_le_bytes(#[verifier::truncate] (v as u32));
            out.append(&mut bytes);
        },
    }
    proof {
        assert(out@ =~= old(out)@ + spec_enc_opt_i32(o));
    }
}

/// Writes a descriptor in the wire form in which it is handed to the
/// downstream call, byte-identical to its spec image.
pub fn encode_descriptor(d: &OrderDescriptor) -> (r: Vec<u8>)
    ensures
        r@ == spec_encode_descriptor(*d),
{
    let mut out: Vec<u8> = Vec::new();
    out.push(d.order_type);
    out.push(
        match d.market_type {
            MarketType::Perp => 0u8,
            MarketType::Spot => 1u8,
        },
    );
    out.push(d.direction);
    out.push(d.user_order_id);
    let mut amount_bytes = u64_to_le_bytes(d.base_asset_amount);
    out.append(&mut amount_bytes);
    let mut price_bytes = u64_to_le_bytes(d.price);
    out.append(&mut price_bytes);
    let mut index_bytes = u64_to_le_bytes(d.market_index);
    out.append(&mut index_bytes);
    out.push(if d.reduce_only { 1u8 } else { 0u8 });
    out.push(if d.post_only { 1u8 } else { 0u8 });
    out.push(if d.immediate_or_cancel { 1u8 } else { 0u8 });
    push_opt_i64(&mut out, d.max_ts);
    push_opt_u64(&mut out, d.trigger_price);
    push_opt_u8(&mut out, d.trigger_condition);
    push_opt_i32(&mut out, d.oracle_price_offset);
    push_opt_u8(&mut out, d.auction_duration);
    push_opt_i64(&mut out, d.auction_start_price);
    push_opt_i64(&mut out, d.auction_end_price);
    proof {
        assert(out@ =~= spec_encode_descriptor(*d));
    }
    out
}

/// Law: the builder applies the fixed policy whatever the request holds —
/// the order is always immediate-or-cancel, never reduce-only, never
/// post-only, and always targets a perp market.
pub proof fn lemma_build_fixed_policy(q: BulkOrderParams)
    ensures
        spec_build(q).immediate_or_cancel == true,
        spec_build(q).reduce_only == false,
        spec_build(q).post_only == false,
        spec_build(q).market_type == MarketType::Perp,
        spec_build(q).order_type == q.order_type,
        spec_build(q).direction == q.direction,
        spec_build(q).market_index == q.market_index,
        spec_build(q).base_asset_amount == q.base_asset_amount,
        spec_build(q).price == q.price,
{
}

} // verus!
