//! Laws of the wire model: whatever a codec writes, the matching read
//! recovers, for every field kind, every value, and every surrounding
//! buffer; and the group cursor visits exactly `count` elements.
//!
//! The codecs' contracts state their effects with `splice` (encode) and
//! `subrange` (decode) over the same byte model, so these lemmas connect
//! every encoder/decoder pair of the library.

use vstd::prelude::*;
use vstd::bytes::spec_u16_from_le_bytes;
use vstd::bytes::spec_u16_to_le_bytes;
use vstd::bytes::spec_u32_from_le_bytes;
use vstd::bytes::spec_u32_to_le_bytes;
use vstd::bytes::spec_u64_from_le_bytes;
use vstd::bytes::spec_u64_to_le_bytes;
use vstd::bytes::lemma_auto_spec_u16_to_from_le_bytes;
use vstd::bytes::lemma_auto_spec_u32_to_from_le_bytes;
use vstd::bytes::lemma_auto_spec_u64_to_from_le_bytes;
use crate::contingency_type::contingency_type_from_byte;
use crate::contingency_type::contingency_type_to_byte;
use crate::contingency_type::ContingencyType;
use crate::enums::bool_enum_from_byte;
use crate::enums::bool_enum_to_byte;
use crate::enums::filter_type_from_byte;
use crate::enums::filter_type_to_byte;
use crate::enums::floor_from_byte;
use crate::enums::floor_to_byte;
use crate::enums::list_order_status_from_byte;
use crate::enums::list_order_status_to_byte;
use crate::enums::list_status_type_from_byte;
use crate::enums::list_status_type_to_byte;
use crate::enums::match_type_from_byte;
use crate::enums::match_type_to_byte;
use crate::enums::order_capacity_from_byte;
use crate::enums::order_capacity_to_byte;
use crate::enums::order_side_from_byte;
use crate::enums::order_side_to_byte;
use crate::enums::order_status_from_byte;
use crate::enums::order_status_to_byte;
use crate::enums::order_type_from_byte;
use crate::enums::order_type_to_byte;
use crate::enums::self_trade_prevention_mode_from_byte;
use crate::enums::self_trade_prevention_mode_to_byte;
use crate::enums::time_in_force_from_byte;
use crate::enums::time_in_force_to_byte;
use crate::enums::BoolEnum;
use crate::enums::FilterType;
use crate::enums::Floor;
use crate::enums::ListOrderStatus;
use crate::enums::ListStatusType;
use crate::enums::MatchType;
use crate::enums::OrderCapacity;
use crate::enums::OrderSide;
use crate::enums::OrderStatus;
use crate::enums::OrderType;
use crate::enums::SelfTradePreventionMode;
use crate::enums::TimeInForce;
use crate::execution_type::execution_type_from_byte;
use crate::execution_type::execution_type_to_byte;
use crate::execution_type::ExecutionType;
use crate::message_header_codec::header_image;
use crate::wire::group_step;
use crate::wire::null_i32;
use crate::wire::null_i64;
use crate::wire::null_u64;
use crate::wire::opt_f32_bits;
use crate::wire::opt_i32;
use crate::wire::opt_i64;
use crate::wire::opt_u64;
use crate::wire::spec_i32_from_le_bytes;
use crate::wire::spec_i32_to_le_bytes;
use crate::wire::spec_i64_from_le_bytes;
use crate::wire::spec_i64_to_le_bytes;
use crate::wire::spec_i8_from_le_bytes;
use crate::wire::spec_i8_to_le_bytes;
use crate::wire::splice;

verus! {

broadcast use vstd::seq_lib::group_seq_lib_default;

/// Round trip of an unsigned 16-bit field: writing the little-endian
/// image of `v` at `at` and reading it back yields `v`, in any buffer.
pub proof fn lemma_u16_field_round_trip(s: Seq<u8>, at: int, v: u16)
    requires
        0 <= at,
        at + 2 <= s.len(),
    ensures
        spec_u16_from_le_bytes(splice(s, at, spec_u16_to_le_bytes(v)).subrange(at, at + 2)) == v,
{
    lemma_auto_spec_u16_to_from_le_bytes();
    crate::wire::lemma_splice_read(s, at, spec_u16_to_le_bytes(v));
}

/// Round trip of an unsigned 32-bit field.
pub proof fn lemma_u32_field_round_trip(s: Seq<u8>, at: int, v: u32)
    requires
        0 <= at,
        at + 4 <= s.len(),
    ensures
        spec_u32_from_le_bytes(splice(s, at, spec_u32_to_le_bytes(v)).subrange(at, at + 4)) == v,
{
    lemma_auto_spec_u32_to_from_le_bytes();
    crate::wire::lemma_splice_read(s, at, spec_u32_to_le_bytes(v));
}

/// Round trip of an unsigned 64-bit field.
pub proof fn lemma_u64_field_round_trip(s: Seq<u8>, at: int, v: u64)
    requires
        0 <= at,
        at + 8 <= s.len(),
    ensures
        spec_u64_from_le_bytes(splice(s, at, spec_u64_to_le_bytes(v)).subrange(at, at + 8)) == v,
{
    lemma_auto_spec_u64_to_from_le_bytes();
    crate::wire::lemma_splice_read(s, at, spec_u64_to_le_bytes(v));
}

/// Round trip of a signed single-byte field, including the boundary
/// magnitudes and the reserved null pattern.
pub proof fn lemma_i8_field_round_trip(s: Seq<u8>, at: int, v: i8)
    requires
        0 <= at,
        at + 1 <= s.len(),
    ensures
        spec_i8_from_le_bytes(splice(s, at, spec_i8_to_le_bytes(v)).subrange(at, at + 1)) == v,
{
    crate::wire::lemma_splice_read(s, at, spec_i8_to_le_bytes(v));
    crate::wire::lemma_i8_cast_round_trip();
}

/// Round trip of a signed 32-bit field.
pub proof fn lemma_i32_field_round_trip(s: Seq<u8>, at: int, v: i32)
    requires
        0 <= at,
        at + 4 <= s.len(),
    ensures
        spec_i32_from_le_bytes(splice(s, at, spec_i32_to_le_bytes(v)).subrange(at, at + 4)) == v,
{
    lemma_u32_field_round_trip(s, at, v as u32);
    crate::wire::lemma_i32_cast_round_trip();
}

/// Round trip of a signed 64-bit field.
pub proof fn lemma_i64_field_round_trip(s: Seq<u8>, at: int, v: i64)
    requires
        0 <= at,
        at + 8 <= s.len(),
    ensures
        spec_i64_from_le_bytes(splice(s, at, spec_i64_to_le_bytes(v)).subrange(at, at + 8)) == v,
{
    lemma_u64_field_round_trip(s, at, v as u64);
    crate::wire::lemma_i64_cast_round_trip();
}

/// Round trip of an optional signed 64-bit field: every value comes back
/// as itself, and the reserved null sentinel decodes to "absent", never
/// to a value one off from it.
pub proof fn lemma_opt_i64_field_round_trip(s: Seq<u8>, at: int, v: i64)
    requires
        0 <= at,
        at + 8 <= s.len(),
    ensures
        opt_i64(
            spec_i64_from_le_bytes(splice(s, at, spec_i64_to_le_bytes(v)).subrange(at, at + 8)),
        ) == opt_i64(v),
        opt_i64(null_i64()) is None,
        v != null_i64() ==> opt_i64(v) == Some(v),
{
    lemma_i64_field_round_trip(s, at, v);
}

/// Round trip of an optional signed 32-bit field and its null sentinel.
pub proof fn lemma_opt_i32_field_round_trip(s: Seq<u8>, at: int, v: i32)
    requires
        0 <= at,
        at + 4 <= s.len(),
    ensures
        opt_i32(
            spec_i32_from_le_bytes(splice(s, at, spec_i32_to_le_bytes(v)).subrange(at, at + 4)),
        ) == opt_i32(v),
        opt_i32(null_i32()) is None,
        v != null_i32() ==> opt_i32(v) == Some(v),
{
    lemma_i32_field_round_trip(s, at, v);
}

/// Round trip of an optional unsigned 64-bit field and its all-ones
/// null sentinel.
pub proof fn lemma_opt_u64_field_round_trip(s: Seq<u8>, at: int, v: u64)
    requires
        0 <= at,
        at + 8 <= s.len(),
    ensures
        opt_u64(
            spec_u64_from_le_bytes(splice(s, at, spec_u64_to_le_bytes(v)).subrange(at, at + 8)),
        ) == opt_u64(v),
        opt_u64(null_u64()) is None,
        v != null_u64() ==> opt_u64(v) == Some(v),
{
    lemma_u64_field_round_trip(s, at, v);
}

/// Round trip of a fixed 16-byte array field.
pub proof fn lemma_bytes16_field_round_trip(s: Seq<u8>, at: int, v: Seq<u8>)
    requires
        0 <= at,
        v.len() == 16,
        at + 16 <= s.len(),
    ensures
        splice(s, at, v).subrange(at, at + 16) == v,
{
    crate::wire::lemma_splice_read(s, at, v);
}

/// Round trip of a variable-length field: the length prefix reads back
/// as the payload's length and the payload reads back unchanged.
pub proof fn lemma_var_data_round_trip(s: Seq<u8>, at: int, v: Seq<u8>)
    requires
        0 <= at,
        v.len() <= 255,
        at + 1 + v.len() <= s.len(),
    ensures
        splice(s, at, seq![v.len() as u8] + v)[at] == v.len() as u8,
        splice(s, at, seq![v.len() as u8] + v).subrange(at + 1, at + 1 + v.len()) == v,
{
    let img = seq![v.len() as u8] + v;
    crate::wire::lemma_splice_read(s, at, img);
    assert(splice(s, at, img).subrange(at, at + img.len())[0] == img[0]);
    assert(splice(s, at, img).subrange(at + 1, at + 1 + v.len()) =~= v);
}

/// Round trip of the message envelope: the four fields written by the
/// header encoder read back as themselves through the header decoder's
/// field model.
pub proof fn lemma_header_round_trip(
    s: Seq<u8>,
    at: int,
    block_length: u16,
    template_id: u16,
    schema_id: u16,
    version: u16,
)
    requires
        0 <= at,
        at + 8 <= s.len(),
    ensures
        ({
            let b = splice(s, at, header_image(block_length, template_id, schema_id, version));
            &&& spec_u16_from_le_bytes(b.subrange(at, at + 2)) == block_length
            &&& spec_u16_from_le_bytes(b.subrange(at + 2, at + 4)) == template_id
            &&& spec_u16_from_le_bytes(b.subrange(at + 4, at + 6)) == schema_id
            &&& spec_u16_from_le_bytes(b.subrange(at + 6, at + 8)) == version
        }),
{
    lemma_auto_spec_u16_to_from_le_bytes();
    let img = header_image(block_length, template_id, schema_id, version);
    let b = splice(s, at, img);
    crate::wire::lemma_splice_read(s, at, img);
    assert(b.subrange(at, at + 2) =~= spec_u16_to_le_bytes(block_length));
    assert(b.subrange(at + 2, at + 4) =~= spec_u16_to_le_bytes(template_id));
    assert(b.subrange(at + 4, at + 6) =~= spec_u16_to_le_bytes(schema_id));
    assert(b.subrange(at + 6, at + 8) =~= spec_u16_to_le_bytes(version));
}

/// Round trip of a group dimension header with a 16-bit count: the
/// per-element block length and the count read back as written.
pub proof fn lemma_dim_u16_round_trip(s: Seq<u8>, at: int, block_length: u16, count: u16)
    requires
        0 <= at,
        at + 4 <= s.len(),
    ensures
        ({
            let b = splice(s, at, spec_u16_to_le_bytes(block_length) + spec_u16_to_le_bytes(count));
            &&& spec_u16_from_le_bytes(b.subrange(at, at + 2)) == block_length
            &&& spec_u16_from_le_bytes(b.subrange(at + 2, at + 4)) == count
        }),
{
    lemma_auto_spec_u16_to_from_le_bytes();
    let img = spec_u16_to_le_bytes(block_length) + spec_u16_to_le_bytes(count);
    let b = splice(s, at, img);
    crate::wire::lemma_splice_read(s, at, img);
    assert(b.subrange(at, at + 2) =~= spec_u16_to_le_bytes(block_length));
    assert(b.subrange(at + 2, at + 4) =~= spec_u16_to_le_bytes(count));
}

/// Round trip of a group dimension header with a 32-bit count.
pub proof fn lemma_dim_u32_round_trip(s: Seq<u8>, at: int, block_length: u16, count: u32)
    requires
        0 <= at,
        at + 6 <= s.len(),
    ensures
        ({
            let b = splice(s, at, spec_u16_to_le_bytes(block_length) + spec_u32_to_le_bytes(count));
            &&& spec_u16_from_le_bytes(b.subrange(at, at + 2)) == block_length
            &&& spec_u32_from_le_bytes(b.subrange(at + 2, at + 6)) == count
        }),
{
    lemma_auto_spec_u16_to_from_le_bytes();
    lemma_auto_spec_u32_to_from_le_bytes();
    let img = spec_u16_to_le_bytes(block_length) + spec_u32_to_le_bytes(count);
    let b = splice(s, at, img);
    crate::wire::lemma_splice_read(s, at, img);
    assert(b.subrange(at, at + 2) =~= spec_u16_to_le_bytes(block_length));
    assert(b.subrange(at + 2, at + 6) =~= spec_u32_to_le_bytes(count));
}

/// A write outside a field's range leaves that field's bytes unchanged:
/// the fixed fields of one block never disturb one another, since their
/// ranges are disjoint.
pub proof fn lemma_field_untouched(s: Seq<u8>, at: int, r: Seq<u8>, lo: int, hi: int)
    requires
        0 <= at,
        at + r.len() <= s.len(),
        0 <= lo <= hi <= s.len(),
        hi <= at || at + r.len() <= lo,
    ensures
        splice(s, at, r).subrange(lo, hi) == s.subrange(lo, hi),
{
    crate::wire::lemma_splice_read_disjoint(s, at, r, lo, hi);
}

/// Group cardinality: with the cursor before the first element
/// (index `-1`), each of the first `count` steps yields the next index
/// in order, the step after the last element yields "done", and a group
/// with `count == 0` yields "done" at once.
pub proof fn lemma_group_cardinality(count: int, k: int)
    requires
        0 <= k,
    ensures
        k < count ==> group_step(k - 1, count) == Some(k),
        k >= count ==> group_step(k - 1, count) is None,
        group_step(-1, 0) is None,
{
}

/// Every enumerated value decodes back to itself from its own wire
/// byte, the reserved null value included.
pub proof fn lemma_bool_enum_round_trip(v: BoolEnum)
    ensures
        bool_enum_from_byte(bool_enum_to_byte(v)) == v,
{
}

pub proof fn lemma_filter_type_round_trip(v: FilterType)
    ensures
        filter_type_from_byte(filter_type_to_byte(v)) == v,
{
}

pub proof fn lemma_contingency_type_round_trip(v: ContingencyType)
    ensures
        contingency_type_from_byte(contingency_type_to_byte(v)) == v,
{
}

pub proof fn lemma_execution_type_round_trip(v: ExecutionType)
    ensures
        execution_type_from_byte(execution_type_to_byte(v)) == v,
{
}

pub proof fn lemma_list_status_type_round_trip(v: ListStatusType)
    ensures
        list_status_type_from_byte(list_status_type_to_byte(v)) == v,
{
}

pub proof fn lemma_list_order_status_round_trip(v: ListOrderStatus)
    ensures
        list_order_status_from_byte(list_order_status_to_byte(v)) == v,
{
}

pub proof fn lemma_order_type_round_trip(v: OrderType)
    ensures
        order_type_from_byte(order_type_to_byte(v)) == v,
{
}

pub proof fn lemma_order_side_round_trip(v: OrderSide)
    ensures
        order_side_from_byte(order_side_to_byte(v)) == v,
{
}

pub proof fn lemma_time_in_force_round_trip(v: TimeInForce)
    ensures
        time_in_force_from_byte(time_in_force_to_byte(v)) == v,
{
}

pub proof fn lemma_order_status_round_trip(v: OrderStatus)
    ensures
        order_status_from_byte(order_status_to_byte(v)) == v,
{
}

pub proof fn lemma_match_type_round_trip(v: MatchType)
    ensures
        match_type_from_byte(match_type_to_byte(v)) == v,
{
}

pub proof fn lemma_self_trade_prevention_mode_round_trip(v: SelfTradePreventionMode)
    ensures
        self_trade_prevention_mode_from_byte(self_trade_prevention_mode_to_byte(v)) == v,
{
}

pub proof fn lemma_order_capacity_round_trip(v: OrderCapacity)
    ensures
        order_capacity_from_byte(order_capacity_to_byte(v)) == v,
{
}

pub proof fn lemma_floor_round_trip(v: Floor)
    ensures
        floor_from_byte(floor_to_byte(v)) == v,
{
}

/// Full round trip of the min-notional filter's fixed block: encoding
/// its four fields in declaration order into any large-enough buffer
/// and decoding each field back yields exactly the encoded values.
pub proof fn lemma_min_notional_filter_round_trip(
    s: Seq<u8>,
    off: int,
    price_exponent: i8,
    min_notional: i64,
    apply_to_market: BoolEnum,
    avg_price_mins: i32,
)
    requires
        0 <= off,
        off + 14 <= s.len(),
    ensures
        ({
            let b1 = splice(s, off, spec_i8_to_le_bytes(price_exponent));
            let b2 = splice(b1, off + 1, spec_i64_to_le_bytes(min_notional));
            let b3 = b2.update(off + 9, bool_enum_to_byte(apply_to_market));
            let b4 = splice(b3, off + 10, spec_i32_to_le_bytes(avg_price_mins));
            &&& spec_i8_from_le_bytes(b4.subrange(off, off + 1)) == price_exponent
            &&& spec_i64_from_le_bytes(b4.subrange(off + 1, off + 9)) == min_notional
            &&& bool_enum_from_byte(b4[off + 9]) == apply_to_market
            &&& spec_i32_from_le_bytes(b4.subrange(off + 10, off + 14)) == avg_price_mins
        }),
{
    lemma_auto_spec_u32_to_from_le_bytes();
    lemma_auto_spec_u64_to_from_le_bytes();
    let b1 = splice(s, off, spec_i8_to_le_bytes(price_exponent));
    let b2 = splice(b1, off + 1, spec_i64_to_le_bytes(min_notional));
    let b3 = b2.update(off + 9, bool_enum_to_byte(apply_to_market));
    let b4 = splice(b3, off + 10, spec_i32_to_le_bytes(avg_price_mins));
    lemma_i8_field_round_trip(s, off, price_exponent);
    assert(b4.subrange(off, off + 1) =~= b1.subrange(off, off + 1));
    lemma_i64_field_round_trip(b1, off + 1, min_notional);
    assert(b4.subrange(off + 1, off + 9) =~= b2.subrange(off + 1, off + 9));
    lemma_i32_field_round_trip(b3, off + 10, avg_price_mins);
    lemma_bool_enum_round_trip(apply_to_market);
}

/// Round trip of a whole min-notional filter message: the envelope
/// written at the front and the four fields written behind it all read
/// back as themselves, because the envelope and the block occupy
/// disjoint byte ranges.
pub proof fn lemma_min_notional_filter_message_round_trip(
    s: Seq<u8>,
    price_exponent: i8,
    min_notional: i64,
    apply_to_market: BoolEnum,
    avg_price_mins: i32,
)
    requires
        s.len() >= 22,
    ensures
        ({
            let b0 = splice(s, 0, header_image(14u16, 5u16, 2u16, 1u16));
            let b1 = splice(b0, 8, spec_i8_to_le_bytes(price_exponent));
            let b2 = splice(b1, 9, spec_i64_to_le_bytes(min_notional));
            let b3 = b2.update(17, bool_enum_to_byte(apply_to_market));
            let b4 = splice(b3, 18, spec_i32_to_le_bytes(avg_price_mins));
            &&& spec_u16_from_le_bytes(b4.subrange(0, 2)) == 14
            &&& spec_u16_from_le_bytes(b4.subrange(2, 4)) == 5
            &&& spec_u16_from_le_bytes(b4.subrange(4, 6)) == 2
            &&& spec_u16_from_le_bytes(b4.subrange(6, 8)) == 1
            &&& spec_i8_from_le_bytes(b4.subrange(8, 9)) == price_exponent
            &&& spec_i64_from_le_bytes(b4.subrange(9, 17)) == min_notional
            &&& bool_enum_from_byte(b4[17]) == apply_to_market
            &&& spec_i32_from_le_bytes(b4.subrange(18, 22)) == avg_price_mins
        }),
{
    lemma_auto_spec_u16_to_from_le_bytes();
    lemma_auto_spec_u32_to_from_le_bytes();
    lemma_auto_spec_u64_to_from_le_bytes();
    let b0 = splice(s, 0, header_image(14u16, 5u16, 2u16, 1u16));
    let b1 = splice(b0, 8, spec_i8_to_le_bytes(price_exponent));
    let b2 = splice(b1, 9, spec_i64_to_le_bytes(min_notional));
    let b3 = b2.update(17, bool_enum_to_byte(apply_to_market));
    let b4 = splice(b3, 18, spec_i32_to_le_bytes(avg_price_mins));
    lemma_header_round_trip(s, 0, 14u16, 5u16, 2u16, 1u16);
    assert(b4.subrange(0, 8) =~= b0.subrange(0, 8));
    assert(b4.subrange(0, 2) =~= b0.subrange(0, 2));
    assert(b4.subrange(2, 4) =~= b0.subrange(2, 4));
    assert(b4.subrange(4, 6) =~= b0.subrange(4, 6));
    assert(b4.subrange(6, 8) =~= b0.subrange(6, 8));
    lemma_min_notional_filter_round_trip(
        b0,
        8,
        price_exponent,
        min_notional,
        apply_to_market,
        avg_price_mins,
    );
}

/// Full round trip of the NotionalFilter fixed block: encoding
/// every field in declaration order and decoding each back yields
/// exactly the encoded values.
#[verifier::rlimit(60)]
#[verifier::spinoff_prover]
pub proof fn lemma_notional_filter_block_round_trip(
    s: Seq<u8>,
    off: int,
    price_exponent: i8,
    min_notional: i64,
    apply_min_to_market: BoolEnum,
    max_notional: i64,
    apply_max_to_market: BoolEnum,
    avg_price_mins: i32,
)
    requires
        0 <= off,
        off + 23 <= s.len(),
    ensures
        ({
            let b1 = splice(s, off, spec_i8_to_le_bytes(price_exponent));
            let b2 = splice(b1, off + 1, spec_i64_to_le_bytes(min_notional));
            let b3 = b2.update(off + 9, bool_enum_to_byte(apply_min_to_market));
            let b4 = splice(b3, off + 10, spec_i64_to_le_bytes(max_notional));
            let b5 = b4.update(off + 18, bool_enum_to_byte(apply_max_to_market));
            let b6 = splice(b5, off + 19, spec_i32_to_le_bytes(avg_price_mins));
            &&& spec_i8_from_le_bytes(b6.subrange(off, off + 1)) == price_exponent
            &&& spec_i64_from_le_bytes(b6.subrange(off + 1, off + 9)) == min_notional
            &&& bool_enum_from_byte(b6[off + 9]) == apply_min_to_market
            &&& spec_i64_from_le_bytes(b6.subrange(off + 10, off + 18)) == max_notional
            &&& bool_enum_from_byte(b6[off + 18]) == apply_max_to_market
            &&& spec_i32_from_le_bytes(b6.subrange(off + 19, off + 23)) == avg_price_mins
        }),
{
    lemma_auto_spec_u16_to_from_le_bytes();
    lemma_auto_spec_u32_to_from_le_bytes();
    lemma_auto_spec_u64_to_from_le_bytes();
    crate::wire::lemma_i8_cast_round_trip();
    crate::wire::lemma_i32_cast_round_trip();
    crate::wire::lemma_i64_cast_round_trip();
    let b1 = splice(s, off, spec_i8_to_le_bytes(price_exponent));
    let b2 = splice(b1, off + 1, spec_i64_to_le_bytes(min_notional));
    let b3 = b2.update(off + 9, bool_enum_to_byte(apply_min_to_market));
    let b4 = splice(b3, off + 10, spec_i64_to_le_bytes(max_notional));
    let b5 = b4.update(off + 18, bool_enum_to_byte(apply_max_to_market));
    let b6 = splice(b5, off + 19, spec_i32_to_le_bytes(avg_price_mins));
    let acc1 = spec_i8_to_le_bytes(price_exponent);
    assert(b1 == splice(s, off, acc1));
    let acc2 = acc1 + spec_i64_to_le_bytes(min_notional);
    assert(acc1.len() == 1);
    crate::wire::lemma_splice_adjacent(s, off, acc1, spec_i64_to_le_bytes(min_notional));
    assert(b2 == splice(s, off, acc2));
    crate::wire::lemma_append_parts(acc1, spec_i64_to_le_bytes(min_notional));
    assert(acc2.subrange(1, 9) == spec_i64_to_le_bytes(min_notional));
    crate::wire::lemma_update_is_splice(b2, off + 9, bool_enum_to_byte(apply_min_to_market));
    let acc3 = acc2 + seq![bool_enum_to_byte(apply_min_to_market)];
    assert(acc2.len() == 9);
    crate::wire::lemma_splice_adjacent(s, off, acc2, seq![bool_enum_to_byte(apply_min_to_market)]);
    assert(b3 == splice(s, off, acc3));
    crate::wire::lemma_append_parts(acc2, seq![bool_enum_to_byte(apply_min_to_market)]);
    assert(acc3.subrange(9, 10) == seq![bool_enum_to_byte(apply_min_to_market)]);
    let acc4 = acc3 + spec_i64_to_le_bytes(max_notional);
    assert(acc3.len() == 10);
    crate::wire::lemma_splice_adjacent(s, off, acc3, spec_i64_to_le_bytes(max_notional));
    assert(b4 == splice(s, off, acc4));
    crate::wire::lemma_append_parts(acc3, spec_i64_to_le_bytes(max_notional));
    assert(acc4.subrange(10, 18) == spec_i64_to_le_bytes(max_notional));
    crate::wire::lemma_update_is_splice(b4, off + 18, bool_enum_to_byte(apply_max_to_market));
    let acc5 = acc4 + seq![bool_enum_to_byte(apply_max_to_market)];
    assert(acc4.len() == 18);
    crate::wire::lemma_splice_adjacent(s, off, acc4, seq![bool_enum_to_byte(apply_max_to_market)]);
    assert(b5 == splice(s, off, acc5));
    crate::wire::lemma_append_parts(acc4, seq![bool_enum_to_byte(apply_max_to_market)]);
    assert(acc5.subrange(18, 19) == seq![bool_enum_to_byte(apply_max_to_market)]);
    let acc6 = acc5 + spec_i32_to_le_bytes(avg_price_mins);
    assert(acc5.len() == 19);
    crate::wire::lemma_splice_adjacent(s, off, acc5, spec_i32_to_le_bytes(avg_price_mins));
    assert(b6 == splice(s, off, acc6));
    crate::wire::lemma_append_parts(acc5, spec_i32_to_le_bytes(avg_price_mins));
    assert(acc6.subrange(19, 23) == spec_i32_to_le_bytes(avg_price_mins));
    crate::wire::lemma_splice_read_part(s, off, acc6, 0, 1);
    crate::wire::lemma_splice_read_part(s, off, acc6, 1, 9);
    crate::wire::lemma_splice_read_part(s, off, acc6, 9, 10);
    assert(b6[off + 9] == b6.subrange(off + 9, off + 10)[0]);
    lemma_bool_enum_round_trip(apply_min_to_market);
    crate::wire::lemma_splice_read_part(s, off, acc6, 10, 18);
    crate::wire::lemma_splice_read_part(s, off, acc6, 18, 19);
    assert(b6[off + 18] == b6.subrange(off + 18, off + 19)[0]);
    lemma_bool_enum_round_trip(apply_max_to_market);
    crate::wire::lemma_splice_read_part(s, off, acc6, 19, 23);
    assert(acc2.subrange(0, 1) == acc1.subrange(0, 1));
    assert(acc1.subrange(0, 1) =~= acc1);
}

/// Full round trip of the KlinesResponse fixed block: encoding
/// every field in declaration order and decoding each back yields
/// exactly the encoded values.
#[verifier::rlimit(60)]
#[verifier::spinoff_prover]
pub proof fn lemma_klines_response_block_round_trip(
    s: Seq<u8>,
    off: int,
    price_exponent: i8,
    qty_exponent: i8,
)
    requires
        0 <= off,
        off + 2 <= s.len(),
    ensures
        ({
            let b1 = splice(s, off, spec_i8_to_le_bytes(price_exponent));
            let b2 = splice(b1, off + 1, spec_i8_to_le_bytes(qty_exponent));
            &&& spec_i8_from_le_bytes(b2.subrange(off, off + 1)) == price_exponent
            &&& spec_i8_from_le_bytes(b2.subrange(off + 1, off + 2)) == qty_exponent
        }),
{
    lemma_auto_spec_u16_to_from_le_bytes();
    lemma_auto_spec_u32_to_from_le_bytes();
    lemma_auto_spec_u64_to_from_le_bytes();
    crate::wire::lemma_i8_cast_round_trip();
    crate::wire::lemma_i32_cast_round_trip();
    crate::wire::lemma_i64_cast_round_trip();
    let b1 = splice(s, off, spec_i8_to_le_bytes(price_exponent));
    let b2 = splice(b1, off + 1, spec_i8_to_le_bytes(qty_exponent));
    let acc1 = spec_i8_to_le_bytes(price_exponent);
    assert(b1 == splice(s, off, acc1));
    let acc2 = acc1 + spec_i8_to_le_bytes(qty_exponent);
    assert(acc1.len() == 1);
    crate::wire::lemma_splice_adjacent(s, off, acc1, spec_i8_to_le_bytes(qty_exponent));
    assert(b2 == splice(s, off, acc2));
    crate::wire::lemma_append_parts(acc1, spec_i8_to_le_bytes(qty_exponent));
    assert(acc2.subrange(1, 2) == spec_i8_to_le_bytes(qty_exponent));
    crate::wire::lemma_splice_read_part(s, off, acc2, 0, 1);
    crate::wire::lemma_splice_read_part(s, off, acc2, 1, 2);
    assert(acc2.subrange(0, 1) == acc1.subrange(0, 1));
    assert(acc1.subrange(0, 1) =~= acc1);
}

/// Full round trip of one 'klines' group element: encoding
/// every field of the element block and decoding each back yields
/// exactly the encoded values.
#[verifier::rlimit(60)]
#[verifier::spinoff_prover]
pub proof fn lemma_klines_element_round_trip(
    s: Seq<u8>,
    off: int,
    open_time: i64,
    open_price: i64,
    high_price: i64,
    low_price: i64,
    close_price: i64,
    volume: Seq<u8>,
    close_time: i64,
    quote_volume: Seq<u8>,
    num_trades: i64,
    taker_buy_base_volume: Seq<u8>,
    taker_buy_quote_volume: Seq<u8>,
)
    requires
        0 <= off,
        off + 120 <= s.len(),
        volume.len() == 16,
        quote_volume.len() == 16,
        taker_buy_base_volume.len() == 16,
        taker_buy_quote_volume.len() == 16,
    ensures
        ({
            let b1 = splice(s, off, spec_i64_to_le_bytes(open_time));
            let b2 = splice(b1, off + 8, spec_i64_to_le_bytes(open_price));
            let b3 = splice(b2, off + 16, spec_i64_to_le_bytes(high_price));
            let b4 = splice(b3, off + 24, spec_i64_to_le_bytes(low_price));
            let b5 = splice(b4, off + 32, spec_i64_to_le_bytes(close_price));
            let b6 = splice(b5, off + 40, volume);
            let b7 = splice(b6, off + 56, spec_i64_to_le_bytes(close_time));
            let b8 = splice(b7, off + 64, quote_volume);
            let b9 = splice(b8, off + 80, spec_i64_to_le_bytes(num_trades));
            let b10 = splice(b9, off + 88, taker_buy_base_volume);
            let b11 = splice(b10, off + 104, taker_buy_quote_volume);
            &&& spec_i64_from_le_bytes(b11.subrange(off, off + 8)) == open_time
            &&& spec_i64_from_le_bytes(b11.subrange(off + 8, off + 16)) == open_price
            &&& spec_i64_from_le_bytes(b11.subrange(off + 16, off + 24)) == high_price
            &&& spec_i64_from_le_bytes(b11.subrange(off + 24, off + 32)) == low_price
            &&& spec_i64_from_le_bytes(b11.subrange(off + 32, off + 40)) == close_price
            &&& b11.subrange(off + 40, off + 56) == volume
            &&& spec_i64_from_le_bytes(b11.subrange(off + 56, off + 64)) == close_time
            &&& b11.subrange(off + 64, off + 80) == quote_volume
            &&& spec_i64_from_le_bytes(b11.subrange(off + 80, off + 88)) == num_trades
            &&& b11.subrange(off + 88, off + 104) == taker_buy_base_volume
            &&& b11.subrange(off + 104, off + 120) == taker_buy_quote_volume
        }),
{
    lemma_auto_spec_u16_to_from_le_bytes();
    lemma_auto_spec_u32_to_from_le_bytes();
    lemma_auto_spec_u64_to_from_le_bytes();
    crate::wire::lemma_i8_cast_round_trip();
    crate::wire::lemma_i32_cast_round_trip();
    crate::wire::lemma_i64_cast_round_trip();
    let b1 = splice(s, off, spec_i64_to_le_bytes(open_time));
    let b2 = splice(b1, off + 8, spec_i64_to_le_bytes(open_price));
    let b3 = splice(b2, off + 16, spec_i64_to_le_bytes(high_price));
    let b4 = splice(b3, off + 24, spec_i64_to_le_bytes(low_price));
    let b5 = splice(b4, off + 32, spec_i64_to_le_bytes(close_price));
    let b6 = splice(b5, off + 40, volume);
    let b7 = splice(b6, off + 56, spec_i64_to_le_bytes(close_time));
    let b8 = splice(b7, off + 64, quote_volume);
    let b9 = splice(b8, off + 80, spec_i64_to_le_bytes(num_trades));
    let b10 = splice(b9, off + 88, taker_buy_base_volume);
    let b11 = splice(b10, off + 104, taker_buy_quote_volume);
    let acc1 = spec_i64_to_le_bytes(open_time);
    assert(b1 == splice(s, off, acc1));
    let acc2 = acc1 + spec_i64_to_le_bytes(open_price);
    assert(acc1.len() == 8);
    crate::wire::lemma_splice_adjacent(s, off, acc1, spec_i64_to_le_bytes(open_price));
    assert(b2 == splice(s, off, acc2));
    crate::wire::lemma_append_parts(acc1, spec_i64_to_le_bytes(open_price));
    assert(acc2.subrange(8, 16) == spec_i64_to_le_bytes(open_price));
    let acc3 = acc2 + spec_i64_to_le_bytes(high_price);
    assert(acc2.len() == 16);
    crate::wire::lemma_splice_adjacent(s, off, acc2, spec_i64_to_le_bytes(high_price));
    assert(b3 == splice(s, off, acc3));
    crate::wire::lemma_append_parts(acc2, spec_i64_to_le_bytes(high_price));
    assert(acc3.subrange(16, 24) == spec_i64_to_le_bytes(high_price));
    let acc4 = acc3 + spec_i64_to_le_bytes(low_price);
    assert(acc3.len() == 24);
    crate::wire::lemma_splice_adjacent(s, off, acc3, spec_i64_to_le_bytes(low_price));
    assert(b4 == splice(s, off, acc4));
    crate::wire::lemma_append_parts(acc3, spec_i64_to_le_bytes(low_price));
    assert(acc4.subrange(24, 32) == spec_i64_to_le_bytes(low_price));
    let acc5 = acc4 + spec_i64_to_le_bytes(close_price);
    assert(acc4.len() == 32);
    crate::wire::lemma_splice_adjacent(s, off, acc4, spec_i64_to_le_bytes(close_price));
    assert(b5 == splice(s, off, acc5));
    crate::wire::lemma_append_parts(acc4, spec_i64_to_le_bytes(close_price));
    assert(acc5.subrange(32, 40) == spec_i64_to_le_bytes(close_price));
    let acc6 = acc5 + volume;
    assert(acc5.len() == 40);
    crate::wire::lemma_splice_adjacent(s, off, acc5, volume);
    assert(b6 == splice(s, off, acc6));
    crate::wire::lemma_append_parts(acc5, volume);
    assert(acc6.subrange(40, 56) == volume);
    let acc7 = acc6 + spec_i64_to_le_bytes(close_time);
    assert(acc6.len() == 56);
    crate::wire::lemma_splice_adjacent(s, off, acc6, spec_i64_to_le_bytes(close_time));
    assert(b7 == splice(s, off, acc7));
    crate::wire::lemma_append_parts(acc6, spec_i64_to_le_bytes(close_time));
    assert(acc7.subrange(56, 64) == spec_i64_to_le_bytes(close_time));
    let acc8 = acc7 + quote_volume;
    assert(acc7.len() == 64);
    crate::wire::lemma_splice_adjacent(s, off, acc7, quote_volume);
    assert(b8 == splice(s, off, acc8));
    crate::wire::lemma_append_parts(acc7, quote_volume);
    assert(acc8.subrange(64, 80) == quote_volume);
    let acc9 = acc8 + spec_i64_to_le_bytes(num_trades);
    assert(acc8.len() == 80);
    crate::wire::lemma_splice_adjacent(s, off, acc8, spec_i64_to_le_bytes(num_trades));
    assert(b9 == splice(s, off, acc9));
    crate::wire::lemma_append_parts(acc8, spec_i64_to_le_bytes(num_trades));
    assert(acc9.subrange(80, 88) == spec_i64_to_le_bytes(num_trades));
    let acc10 = acc9 + taker_buy_base_volume;
    assert(acc9.len() == 88);
    crate::wire::lemma_splice_adjacent(s, off, acc9, taker_buy_base_volume);
    assert(b10 == splice(s, off, acc10));
    crate::wire::lemma_append_parts(acc9, taker_buy_base_volume);
    assert(acc10.subrange(88, 104) == taker_buy_base_volume);
    let acc11 = acc10 + taker_buy_quote_volume;
    assert(acc10.len() == 104);
    crate::wire::lemma_splice_adjacent(s, off, acc10, taker_buy_quote_volume);
    assert(b11 == splice(s, off, acc11));
    crate::wire::lemma_append_parts(acc10, taker_buy_quote_volume);
    assert(acc11.subrange(104, 120) == taker_buy_quote_volume);
    crate::wire::lemma_splice_read_part(s, off, acc11, 0, 8);
    crate::wire::lemma_splice_read_part(s, off, acc11, 8, 16);
    crate::wire::lemma_splice_read_part(s, off, acc11, 16, 24);
    crate::wire::lemma_splice_read_part(s, off, acc11, 24, 32);
    crate::wire::lemma_splice_read_part(s, off, acc11, 32, 40);
    crate::wire::lemma_splice_read_part(s, off, acc11, 40, 56);
    crate::wire::lemma_splice_read_part(s, off, acc11, 56, 64);
    crate::wire::lemma_splice_read_part(s, off, acc11, 64, 80);
    crate::wire::lemma_splice_read_part(s, off, acc11, 80, 88);
    crate::wire::lemma_splice_read_part(s, off, acc11, 88, 104);
    crate::wire::lemma_splice_read_part(s, off, acc11, 104, 120);
    assert(acc2.subrange(0, 8) == acc1.subrange(0, 8));
    assert(acc1.subrange(0, 8) =~= acc1);
}

/// Full round trip of the ListStatusEvent fixed block: encoding
/// every field in declaration order and decoding each back yields
/// exactly the encoded values.
#[verifier::rlimit(60)]
#[verifier::spinoff_prover]
pub proof fn lemma_list_status_event_block_round_trip(
    s: Seq<u8>,
    off: int,
    event_time: i64,
    transact_time: i64,
    order_list_id: i64,
    contingency_type: ContingencyType,
    list_status_type: ListStatusType,
    list_order_status: ListOrderStatus,
)
    requires
        0 <= off,
        off + 27 <= s.len(),
    ensures
        ({
            let b1 = splice(s, off, spec_i64_to_le_bytes(event_time));
            let b2 = splice(b1, off + 8, spec_i64_to_le_bytes(transact_time));
            let b3 = splice(b2, off + 16, spec_i64_to_le_bytes(order_list_id));
            let b4 = b3.update(off + 24, contingency_type_to_byte(contingency_type));
            let b5 = b4.update(off + 25, list_status_type_to_byte(list_status_type));
            let b6 = b5.update(off + 26, list_order_status_to_byte(list_order_status));
            &&& spec_i64_from_le_bytes(b6.subrange(off, off + 8)) == event_time
            &&& spec_i64_from_le_bytes(b6.subrange(off + 8, off + 16)) == transact_time
            &&& spec_i64_from_le_bytes(b6.subrange(off + 16, off + 24)) == order_list_id
            &&& contingency_type_from_byte(b6[off + 24]) == contingency_type
            &&& list_status_type_from_byte(b6[off + 25]) == list_status_type
            &&& list_order_status_from_byte(b6[off + 26]) == list_order_status
        }),
{
    lemma_auto_spec_u16_to_from_le_bytes();
    lemma_auto_spec_u32_to_from_le_bytes();
    lemma_auto_spec_u64_to_from_le_bytes();
    crate::wire::lemma_i8_cast_round_trip();
    crate::wire::lemma_i32_cast_round_trip();
    crate::wire::lemma_i64_cast_round_trip();
    let b1 = splice(s, off, spec_i64_to_le_bytes(event_time));
    let b2 = splice(b1, off + 8, spec_i64_to_le_bytes(transact_time));
    let b3 = splice(b2, off + 16, spec_i64_to_le_bytes(order_list_id));
    let b4 = b3.update(off + 24, contingency_type_to_byte(contingency_type));
    let b5 = b4.update(off + 25, list_status_type_to_byte(list_status_type));
    let b6 = b5.update(off + 26, list_order_status_to_byte(list_order_status));
    let acc1 = spec_i64_to_le_bytes(event_time);
    assert(b1 == splice(s, off, acc1));
    let acc2 = acc1 + spec_i64_to_le_bytes(transact_time);
    assert(acc1.len() == 8);
    crate::wire::lemma_splice_adjacent(s, off, acc1, spec_i64_to_le_bytes(transact_time));
    assert(b2 == splice(s, off, acc2));
    crate::wire::lemma_append_parts(acc1, spec_i64_to_le_bytes(transact_time));
    assert(acc2.subrange(8, 16) == spec_i64_to_le_bytes(transact_time));
    let acc3 = acc2 + spec_i64_to_le_bytes(order_list_id);
    assert(acc2.len() == 16);
    crate::wire::lemma_splice_adjacent(s, off, acc2, spec_i64_to_le_bytes(order_list_id));
    assert(b3 == splice(s, off, acc3));
    crate::wire::lemma_append_parts(acc2, spec_i64_to_le_bytes(order_list_id));
    assert(acc3.subrange(16, 24) == spec_i64_to_le_bytes(order_list_id));
    crate::wire::lemma_update_is_splice(b3, off + 24, contingency_type_to_byte(contingency_type));
    let acc4 = acc3 + seq![contingency_type_to_byte(contingency_type)];
    assert(acc3.len() == 24);
    crate::wire::lemma_splice_adjacent(s, off, acc3, seq![contingency_type_to_byte(contingency_type)]);
    assert(b4 == splice(s, off, acc4));
    crate::wire::lemma_append_parts(acc3, seq![contingency_type_to_byte(contingency_type)]);
    assert(acc4.subrange(24, 25) == seq![contingency_type_to_byte(contingency_type)]);
    crate::wire::lemma_update_is_splice(b4, off + 25, list_status_type_to_byte(list_status_type));
    let acc5 = acc4 + seq![list_status_type_to_byte(list_status_type)];
    assert(acc4.len() == 25);
    crate::wire::lemma_splice_adjacent(s, off, acc4, seq![list_status_type_to_byte(list_status_type)]);
    assert(b5 == splice(s, off, acc5));
    crate::wire::lemma_append_parts(acc4, seq![list_status_type_to_byte(list_status_type)]);
    assert(acc5.subrange(25, 26) == seq![list_status_type_to_byte(list_status_type)]);
    crate::wire::lemma_update_is_splice(b5, off + 26, list_order_status_to_byte(list_order_status));
    let acc6 = acc5 + seq![list_order_status_to_byte(list_order_status)];
    assert(acc5.len() == 26);
    crate::wire::lemma_splice_adjacent(s, off, acc5, seq![list_order_status_to_byte(list_order_status)]);
    assert(b6 == splice(s, off, acc6));
    crate::wire::lemma_append_parts(acc5, seq![list_order_status_to_byte(list_order_status)]);
    assert(acc6.subrange(26, 27) == seq![list_order_status_to_byte(list_order_status)]);
    crate::wire::lemma_splice_read_part(s, off, acc6, 0, 8);
    crate::wire::lemma_splice_read_part(s, off, acc6, 8, 16);
    crate::wire::lemma_splice_read_part(s, off, acc6, 16, 24);
    crate::wire::lemma_splice_read_part(s, off, acc6, 24, 25);
    assert(b6[off + 24] == b6.subrange(off + 24, off + 25)[0]);
    lemma_contingency_type_round_trip(contingency_type);
    crate::wire::lemma_splice_read_part(s, off, acc6, 25, 26);
    assert(b6[off + 25] == b6.subrange(off + 25, off + 26)[0]);
    lemma_list_status_type_round_trip(list_status_type);
    crate::wire::lemma_splice_read_part(s, off, acc6, 26, 27);
    assert(b6[off + 26] == b6.subrange(off + 26, off + 27)[0]);
    lemma_list_order_status_round_trip(list_order_status);
    assert(acc2.subrange(0, 8) == acc1.subrange(0, 8));
    assert(acc1.subrange(0, 8) =~= acc1);
}

/// Full round trip of one 'orders' group element: encoding
/// every field of the element block and decoding each back yields
/// exactly the encoded values.
#[verifier::rlimit(60)]
#[verifier::spinoff_prover]
pub proof fn lemma_orders_element_round_trip(
    s: Seq<u8>,
    off: int,
    order_id: i64,
)
    requires
        0 <= off,
        off + 8 <= s.len(),
    ensures
        ({
            let b1 = splice(s, off, spec_i64_to_le_bytes(order_id));
            &&& spec_i64_from_le_bytes(b1.subrange(off, off + 8)) == order_id
        }),
{
    lemma_auto_spec_u16_to_from_le_bytes();
    lemma_auto_spec_u32_to_from_le_bytes();
    lemma_auto_spec_u64_to_from_le_bytes();
    crate::wire::lemma_i8_cast_round_trip();
    crate::wire::lemma_i32_cast_round_trip();
    crate::wire::lemma_i64_cast_round_trip();
    let b1 = splice(s, off, spec_i64_to_le_bytes(order_id));
    let acc1 = spec_i64_to_le_bytes(order_id);
    assert(b1 == splice(s, off, acc1));
    assert(acc1.subrange(0, 8) =~= acc1);
    crate::wire::lemma_splice_read_part(s, off, acc1, 0, 8);
}

/// Full round trip of the Ticker24hSymbolMiniResponse fixed block: encoding
/// every field in declaration order and decoding each back yields
/// exactly the encoded values.
#[verifier::rlimit(60)]
#[verifier::spinoff_prover]
pub proof fn lemma_ticker24h_symbol_mini_response_block_round_trip(
    s: Seq<u8>,
    off: int,
    price_exponent: i8,
    qty_exponent: i8,
    open_price: i64,
    high_price: i64,
    low_price: i64,
    last_price: i64,
    volume: Seq<u8>,
    quote_volume: Seq<u8>,
    open_time: i64,
    close_time: i64,
    first_id: i64,
    last_id: i64,
    num_trades: i64,
)
    requires
        0 <= off,
        off + 106 <= s.len(),
        volume.len() == 16,
        quote_volume.len() == 16,
    ensures
        ({
            let b1 = splice(s, off, spec_i8_to_le_bytes(price_exponent));
            let b2 = splice(b1, off + 1, spec_i8_to_le_bytes(qty_exponent));
            let b3 = splice(b2, off + 2, spec_i64_to_le_bytes(open_price));
            let b4 = splice(b3, off + 10, spec_i64_to_le_bytes(high_price));
            let b5 = splice(b4, off + 18, spec_i64_to_le_bytes(low_price));
            let b6 = splice(b5, off + 26, spec_i64_to_le_bytes(last_price));
            let b7 = splice(b6, off + 34, volume);
            let b8 = splice(b7, off + 50, quote_volume);
            let b9 = splice(b8, off + 66, spec_i64_to_le_bytes(open_time));
            let b10 = splice(b9, off + 74, spec_i64_to_le_bytes(close_time));
            let b11 = splice(b10, off + 82, spec_i64_to_le_bytes(first_id));
            let b12 = splice(b11, off + 90, spec_i64_to_le_bytes(last_id));
            let b13 = splice(b12, off + 98, spec_i64_to_le_bytes(num_trades));
            &&& spec_i8_from_le_bytes(b13.subrange(off, off + 1)) == price_exponent
            &&& spec_i8_from_le_bytes(b13.subrange(off + 1, off + 2)) == qty_exponent
            &&& opt_i64(spec_i64_from_le_bytes(b13.subrange(off + 2, off + 10))) == opt_i64(open_price)
            &&& opt_i64(spec_i64_from_le_bytes(b13.subrange(off + 10, off + 18))) == opt_i64(high_price)
            &&& opt_i64(spec_i64_from_le_bytes(b13.subrange(off + 18, off + 26))) == opt_i64(low_price)
            &&& opt_i64(spec_i64_from_le_bytes(b13.subrange(off + 26, off + 34))) == opt_i64(last_price)
            &&& b13.subrange(off + 34, off + 50) == volume
            &&& b13.subrange(off + 50, off + 66) == quote_volume
            &&& spec_i64_from_le_bytes(b13.subrange(off + 66, off + 74)) == open_time
            &&& spec_i64_from_le_bytes(b13.subrange(off + 74, off + 82)) == close_time
            &&& opt_i64(spec_i64_from_le_bytes(b13.subrange(off + 82, off + 90))) == opt_i64(first_id)
            &&& opt_i64(spec_i64_from_le_bytes(b13.subrange(off + 90, off + 98))) == opt_i64(last_id)
            &&& spec_i64_from_le_bytes(b13.subrange(off + 98, off + 106)) == num_trades
        }),
{
    lemma_auto_spec_u16_to_from_le_bytes();
    lemma_auto_spec_u32_to_from_le_bytes();
    lemma_auto_spec_u64_to_from_le_bytes();
    crate::wire::lemma_i8_cast_round_trip();
    crate::wire::lemma_i32_cast_round_trip();
    crate::wire::lemma_i64_cast_round_trip();
    let b1 = splice(s, off, spec_i8_to_le_bytes(price_exponent));
    let b2 = splice(b1, off + 1, spec_i8_to_le_bytes(qty_exponent));
    let b3 = splice(b2, off + 2, spec_i64_to_le_bytes(open_price));
    let b4 = splice(b3, off + 10, spec_i64_to_le_bytes(high_price));
    let b5 = splice(b4, off + 18, spec_i64_to_le_bytes(low_price));
    let b6 = splice(b5, off + 26, spec_i64_to_le_bytes(last_price));
    let b7 = splice(b6, off + 34, volume);
    let b8 = splice(b7, off + 50, quote_volume);
    let b9 = splice(b8, off + 66, spec_i64_to_le_bytes(open_time));
    let b10 = splice(b9, off + 74, spec_i64_to_le_bytes(close_time));
    let b11 = splice(b10, off + 82, spec_i64_to_le_bytes(first_id));
    let b12 = splice(b11, off + 90, spec_i64_to_le_bytes(last_id));
    let b13 = splice(b12, off + 98, spec_i64_to_le_bytes(num_trades));
    let acc1 = spec_i8_to_le_bytes(price_exponent);
    assert(b1 == splice(s, off, acc1));
    let acc2 = acc1 + spec_i8_to_le_bytes(qty_exponent);
    assert(acc1.len() == 1);
    crate::wire::lemma_splice_adjacent(s, off, acc1, spec_i8_to_le_bytes(qty_exponent));
    assert(b2 == splice(s, off, acc2));
    crate::wire::lemma_append_parts(acc1, spec_i8_to_le_bytes(qty_exponent));
    assert(acc2.subrange(1, 2) == spec_i8_to_le_bytes(qty_exponent));
    let acc3 = acc2 + spec_i64_to_le_bytes(open_price);
    assert(acc2.len() == 2);
    crate::wire::lemma_splice_adjacent(s, off, acc2, spec_i64_to_le_bytes(open_price));
    assert(b3 == splice(s, off, acc3));
    crate::wire::lemma_append_parts(acc2, spec_i64_to_le_bytes(open_price));
    assert(acc3.subrange(2, 10) == spec_i64_to_le_bytes(open_price));
    let acc4 = acc3 + spec_i64_to_le_bytes(high_price);
    assert(acc3.len() == 10);
    crate::wire::lemma_splice_adjacent(s, off, acc3, spec_i64_to_le_bytes(high_price));
    assert(b4 == splice(s, off, acc4));
    crate::wire::lemma_append_parts(acc3, spec_i64_to_le_bytes(high_price));
    assert(acc4.subrange(10, 18) == spec_i64_to_le_bytes(high_price));
    let acc5 = acc4 + spec_i64_to_le_bytes(low_price);
    assert(acc4.len() == 18);
    crate::wire::lemma_splice_adjacent(s, off, acc4, spec_i64_to_le_bytes(low_price));
    assert(b5 == splice(s, off, acc5));
    crate::wire::lemma_append_parts(acc4, spec_i64_to_le_bytes(low_price));
    assert(acc5.subrange(18, 26) == spec_i64_to_le_bytes(low_price));
    let acc6 = acc5 + spec_i64_to_le_bytes(last_price);
    assert(acc5.len() == 26);
    crate::wire::lemma_splice_adjacent(s, off, acc5, spec_i64_to_le_bytes(last_price));
    assert(b6 == splice(s, off, acc6));
    crate::wire::lemma_append_parts(acc5, spec_i64_to_le_bytes(last_price));
    assert(acc6.subrange(26, 34) == spec_i64_to_le_bytes(last_price));
    let acc7 = acc6 + volume;
    assert(acc6.len() == 34);
    crate::wire::lemma_splice_adjacent(s, off, acc6, volume);
    assert(b7 == splice(s, off, acc7));
    crate::wire::lemma_append_parts(acc6, volume);
    assert(acc7.subrange(34, 50) == volume);
    let acc8 = acc7 + quote_volume;
    assert(acc7.len() == 50);
    crate::wire::lemma_splice_adjacent(s, off, acc7, quote_volume);
    assert(b8 == splice(s, off, acc8));
    crate::wire::lemma_append_parts(acc7, quote_volume);
    assert(acc8.subrange(50, 66) == quote_volume);
    let acc9 = acc8 + spec_i64_to_le_bytes(open_time);
    assert(acc8.len() == 66);
    crate::wire::lemma_splice_adjacent(s, off, acc8, spec_i64_to_le_bytes(open_time));
    assert(b9 == splice(s, off, acc9));
    crate::wire::lemma_append_parts(acc8, spec_i64_to_le_bytes(open_time));
    assert(acc9.subrange(66, 74) == spec_i64_to_le_bytes(open_time));
    let acc10 = acc9 + spec_i64_to_le_bytes(close_time);
    assert(acc9.len() == 74);
    crate::wire::lemma_splice_adjacent(s, off, acc9, spec_i64_to_le_bytes(close_time));
    assert(b10 == splice(s, off, acc10));
    crate::wire::lemma_append_parts(acc9, spec_i64_to_le_bytes(close_time));
    assert(acc10.subrange(74, 82) == spec_i64_to_le_bytes(close_time));
    let acc11 = acc10 + spec_i64_to_le_bytes(first_id);
    assert(acc10.len() == 82);
    crate::wire::lemma_splice_adjacent(s, off, acc10, spec_i64_to_le_bytes(first_id));
    assert(b11 == splice(s, off, acc11));
    crate::wire::lemma_append_parts(acc10, spec_i64_to_le_bytes(first_id));
    assert(acc11.subrange(82, 90) == spec_i64_to_le_bytes(first_id));
    let acc12 = acc11 + spec_i64_to_le_bytes(last_id);
    assert(acc11.len() == 90);
    crate::wire::lemma_splice_adjacent(s, off, acc11, spec_i64_to_le_bytes(last_id));
    assert(b12 == splice(s, off, acc12));
    crate::wire::lemma_append_parts(acc11, spec_i64_to_le_bytes(last_id));
    assert(acc12.subrange(90, 98) == spec_i64_to_le_bytes(last_id));
    let acc13 = acc12 + spec_i64_to_le_bytes(num_trades);
    assert(acc12.len() == 98);
    crate::wire::lemma_splice_adjacent(s, off, acc12, spec_i64_to_le_bytes(num_trades));
    assert(b13 == splice(s, off, acc13));
    crate::wire::lemma_append_parts(acc12, spec_i64_to_le_bytes(num_trades));
    assert(acc13.subrange(98, 106) == spec_i64_to_le_bytes(num_trades));
    crate::wire::lemma_splice_read_part(s, off, acc13, 0, 1);
    crate::wire::lemma_splice_read_part(s, off, acc13, 1, 2);
    crate::wire::lemma_splice_read_part(s, off, acc13, 2, 10);
    crate::wire::lemma_splice_read_part(s, off, acc13, 10, 18);
    crate::wire::lemma_splice_read_part(s, off, acc13, 18, 26);
    crate::wire::lemma_splice_read_part(s, off, acc13, 26, 34);
    crate::wire::lemma_splice_read_part(s, off, acc13, 34, 50);
    crate::wire::lemma_splice_read_part(s, off, acc13, 50, 66);
    crate::wire::lemma_splice_read_part(s, off, acc13, 66, 74);
    crate::wire::lemma_splice_read_part(s, off, acc13, 74, 82);
    crate::wire::lemma_splice_read_part(s, off, acc13, 82, 90);
    crate::wire::lemma_splice_read_part(s, off, acc13, 90, 98);
    crate::wire::lemma_splice_read_part(s, off, acc13, 98, 106);
    assert(acc2.subrange(0, 1) == acc1.subrange(0, 1));
    assert(acc1.subrange(0, 1) =~= acc1);
}

/// Full round trip of one 'tickers' group element: encoding
/// every field of the element block and decoding each back yields
/// exactly the encoded values.
#[verifier::rlimit(60)]
#[verifier::spinoff_prover]
pub proof fn lemma_tickers_element_round_trip(
    s: Seq<u8>,
    off: int,
    price_exponent: i8,
    qty_exponent: i8,
    price_change: i64,
    price_change_percent: u32,
    weighted_avg_price: i64,
    open_price: i64,
    high_price: i64,
    low_price: i64,
    last_price: i64,
    volume: Seq<u8>,
    quote_volume: Seq<u8>,
    open_time: i64,
    close_time: i64,
    first_id: i64,
    last_id: i64,
    num_trades: i64,
)
    requires
        0 <= off,
        off + 126 <= s.len(),
        volume.len() == 16,
        quote_volume.len() == 16,
    ensures
        ({
            let b1 = splice(s, off, spec_i8_to_le_bytes(price_exponent));
            let b2 = splice(b1, off + 1, spec_i8_to_le_bytes(qty_exponent));
            let b3 = splice(b2, off + 2, spec_i64_to_le_bytes(price_change));
            let b4 = splice(b3, off + 10, spec_u32_to_le_bytes(price_change_percent));
            let b5 = splice(b4, off + 14, spec_i64_to_le_bytes(weighted_avg_price));
            let b6 = splice(b5, off + 22, spec_i64_to_le_bytes(open_price));
            let b7 = splice(b6, off + 30, spec_i64_to_le_bytes(high_price));
            let b8 = splice(b7, off + 38, spec_i64_to_le_bytes(low_price));
            let b9 = splice(b8, off + 46, spec_i64_to_le_bytes(last_price));
            let b10 = splice(b9, off + 54, volume);
            let b11 = splice(b10, off + 70, quote_volume);
            let b12 = splice(b11, off + 86, spec_i64_to_le_bytes(open_time));
            let b13 = splice(b12, off + 94, spec_i64_to_le_bytes(close_time));
            let b14 = splice(b13, off + 102, spec_i64_to_le_bytes(first_id));
            let b15 = splice(b14, off + 110, spec_i64_to_le_bytes(last_id));
            let b16 = splice(b15, off + 118, spec_i64_to_le_bytes(num_trades));
            &&& spec_i8_from_le_bytes(b16.subrange(off, off + 1)) == price_exponent
            &&& spec_i8_from_le_bytes(b16.subrange(off + 1, off + 2)) == qty_exponent
            &&& opt_i64(spec_i64_from_le_bytes(b16.subrange(off + 2, off + 10))) == opt_i64(price_change)
            &&& opt_f32_bits(spec_u32_from_le_bytes(b16.subrange(off + 10, off + 14))) == opt_f32_bits(price_change_percent)
            &&& opt_i64(spec_i64_from_le_bytes(b16.subrange(off + 14, off + 22))) == opt_i64(weighted_avg_price)
            &&& opt_i64(spec_i64_from_le_bytes(b16.subrange(off + 22, off + 30))) == opt_i64(open_price)
            &&& opt_i64(spec_i64_from_le_bytes(b16.subrange(off + 30, off + 38))) == opt_i64(high_price)
            &&& opt_i64(spec_i64_from_le_bytes(b16.subrange(off + 38, off + 46))) == opt_i64(low_price)
            &&& opt_i64(spec_i64_from_le_bytes(b16.subrange(off + 46, off + 54))) == opt_i64(last_price)
            &&& b16.subrange(off + 54, off + 70) == volume
            &&& b16.subrange(off + 70, off + 86) == quote_volume
            &&& spec_i64_from_le_bytes(b16.subrange(off + 86, off + 94)) == open_time
            &&& spec_i64_from_le_bytes(b16.subrange(off + 94, off + 102)) == close_time
            &&& opt_i64(spec_i64_from_le_bytes(b16.subrange(off + 102, off + 110))) == opt_i64(first_id)
            &&& opt_i64(spec_i64_from_le_bytes(b16.subrange(off + 110, off + 118))) == opt_i64(last_id)
            &&& spec_i64_from_le_bytes(b16.subrange(off + 118, off + 126)) == num_trades
        }),
{
    lemma_auto_spec_u16_to_from_le_bytes();
    lemma_auto_spec_u32_to_from_le_bytes();
    lemma_auto_spec_u64_to_from_le_bytes();
    crate::wire::lemma_i8_cast_round_trip();
    crate::wire::lemma_i32_cast_round_trip();
    crate::wire::lemma_i64_cast_round_trip();
    let b1 = splice(s, off, spec_i8_to_le_bytes(price_exponent));
    let b2 = splice(b1, off + 1, spec_i8_to_le_bytes(qty_exponent));
    let b3 = splice(b2, off + 2, spec_i64_to_le_bytes(price_change));
    let b4 = splice(b3, off + 10, spec_u32_to_le_bytes(price_change_percent));
    let b5 = splice(b4, off + 14, spec_i64_to_le_bytes(weighted_avg_price));
    let b6 = splice(b5, off + 22, spec_i64_to_le_bytes(open_price));
    let b7 = splice(b6, off + 30, spec_i64_to_le_bytes(high_price));
    let b8 = splice(b7, off + 38, spec_i64_to_le_bytes(low_price));
    let b9 = splice(b8, off + 46, spec_i64_to_le_bytes(last_price));
    let b10 = splice(b9, off + 54, volume);
    let b11 = splice(b10, off + 70, quote_volume);
    let b12 = splice(b11, off + 86, spec_i64_to_le_bytes(open_time));
    let b13 = splice(b12, off + 94, spec_i64_to_le_bytes(close_time));
    let b14 = splice(b13, off + 102, spec_i64_to_le_bytes(first_id));
    let b15 = splice(b14, off + 110, spec_i64_to_le_bytes(last_id));
    let b16 = splice(b15, off + 118, spec_i64_to_le_bytes(num_trades));
    let acc1 = spec_i8_to_le_bytes(price_exponent);
    assert(b1 == splice(s, off, acc1));
    let acc2 = acc1 + spec_i8_to_le_bytes(qty_exponent);
    assert(acc1.len() == 1);
    crate::wire::lemma_splice_adjacent(s, off, acc1, spec_i8_to_le_bytes(qty_exponent));
    assert(b2 == splice(s, off, acc2));
    crate::wire::lemma_append_parts(acc1, spec_i8_to_le_bytes(qty_exponent));
    assert(acc2.subrange(1, 2) == spec_i8_to_le_bytes(qty_exponent));
    let acc3 = acc2 + spec_i64_to_le_bytes(price_change);
    assert(acc2.len() == 2);
    crate::wire::lemma_splice_adjacent(s, off, acc2, spec_i64_to_le_bytes(price_change));
    assert(b3 == splice(s, off, acc3));
    crate::wire::lemma_append_parts(acc2, spec_i64_to_le_bytes(price_change));
    assert(acc3.subrange(2, 10) == spec_i64_to_le_bytes(price_change));
    let acc4 = acc3 + spec_u32_to_le_bytes(price_change_percent);
    assert(acc3.len() == 10);
    crate::wire::lemma_splice_adjacent(s, off, acc3, spec_u32_to_le_bytes(price_change_percent));
    assert(b4 == splice(s, off, acc4));
    crate::wire::lemma_append_parts(acc3, spec_u32_to_le_bytes(price_change_percent));
    assert(acc4.subrange(10, 14) == spec_u32_to_le_bytes(price_change_percent));
    let acc5 = acc4 + spec_i64_to_le_bytes(weighted_avg_price);
    assert(acc4.len() == 14);
    crate::wire::lemma_splice_adjacent(s, off, acc4, spec_i64_to_le_bytes(weighted_avg_price));
    assert(b5 == splice(s, off, acc5));
    crate::wire::lemma_append_parts(acc4, spec_i64_to_le_bytes(weighted_avg_price));
    assert(acc5.subrange(14, 22) == spec_i64_to_le_bytes(weighted_avg_price));
    let acc6 = acc5 + spec_i64_to_le_bytes(open_price);
    assert(acc5.len() == 22);
    crate::wire::lemma_splice_adjacent(s, off, acc5, spec_i64_to_le_bytes(open_price));
    assert(b6 == splice(s, off, acc6));
    crate::wire::lemma_append_parts(acc5, spec_i64_to_le_bytes(open_price));
    assert(acc6.subrange(22, 30) == spec_i64_to_le_bytes(open_price));
    let acc7 = acc6 + spec_i64_to_le_bytes(high_price);
    assert(acc6.len() == 30);
    crate::wire::lemma_splice_adjacent(s, off, acc6, spec_i64_to_le_bytes(high_price));
    assert(b7 == splice(s, off, acc7));
    crate::wire::lemma_append_parts(acc6, spec_i64_to_le_bytes(high_price));
    assert(acc7.subrange(30, 38) == spec_i64_to_le_bytes(high_price));
    let acc8 = acc7 + spec_i64_to_le_bytes(low_price);
    assert(acc7.len() == 38);
    crate::wire::lemma_splice_adjacent(s, off, acc7, spec_i64_to_le_bytes(low_price));
    assert(b8 == splice(s, off, acc8));
    crate::wire::lemma_append_parts(acc7, spec_i64_to_le_bytes(low_price));
    assert(acc8.subrange(38, 46) == spec_i64_to_le_bytes(low_price));
    let acc9 = acc8 + spec_i64_to_le_bytes(last_price);
    assert(acc8.len() == 46);
    crate::wire::lemma_splice_adjacent(s, off, acc8, spec_i64_to_le_bytes(last_price));
    assert(b9 == splice(s, off, acc9));
    crate::wire::lemma_append_parts(acc8, spec_i64_to_le_bytes(last_price));
    assert(acc9.subrange(46, 54) == spec_i64_to_le_bytes(last_price));
    let acc10 = acc9 + volume;
    assert(acc9.len() == 54);
    crate::wire::lemma_splice_adjacent(s, off, acc9, volume);
    assert(b10 == splice(s, off, acc10));
    crate::wire::lemma_append_parts(acc9, volume);
    assert(acc10.subrange(54, 70) == volume);
    let acc11 = acc10 + quote_volume;
    assert(acc10.len() == 70);
    crate::wire::lemma_splice_adjacent(s, off, acc10, quote_volume);
    assert(b11 == splice(s, off, acc11));
    crate::wire::lemma_append_parts(acc10, quote_volume);
    assert(acc11.subrange(70, 86) == quote_volume);
    let acc12 = acc11 + spec_i64_to_le_bytes(open_time);
    assert(acc11.len() == 86);
    crate::wire::lemma_splice_adjacent(s, off, acc11, spec_i64_to_le_bytes(open_time));
    assert(b12 == splice(s, off, acc12));
    crate::wire::lemma_append_parts(acc11, spec_i64_to_le_bytes(open_time));
    assert(acc12.subrange(86, 94) == spec_i64_to_le_bytes(open_time));
    let acc13 = acc12 + spec_i64_to_le_bytes(close_time);
    assert(acc12.len() == 94);
    crate::wire::lemma_splice_adjacent(s, off, acc12, spec_i64_to_le_bytes(close_time));
    assert(b13 == splice(s, off, acc13));
    crate::wire::lemma_append_parts(acc12, spec_i64_to_le_bytes(close_time));
    assert(acc13.subrange(94, 102) == spec_i64_to_le_bytes(close_time));
    let acc14 = acc13 + spec_i64_to_le_bytes(first_id);
    assert(acc13.len() == 102);
    crate::wire::lemma_splice_adjacent(s, off, acc13, spec_i64_to_le_bytes(first_id));
    assert(b14 == splice(s, off, acc14));
    crate::wire::lemma_append_parts(acc13, spec_i64_to_le_bytes(first_id));
    assert(acc14.subrange(102, 110) == spec_i64_to_le_bytes(first_id));
    let acc15 = acc14 + spec_i64_to_le_bytes(last_id);
    assert(acc14.len() == 110);
    crate::wire::lemma_splice_adjacent(s, off, acc14, spec_i64_to_le_bytes(last_id));
    assert(b15 == splice(s, off, acc15));
    crate::wire::lemma_append_parts(acc14, spec_i64_to_le_bytes(last_id));
    assert(acc15.subrange(110, 118) == spec_i64_to_le_bytes(last_id));
    let acc16 = acc15 + spec_i64_to_le_bytes(num_trades);
    assert(acc15.len() == 118);
    crate::wire::lemma_splice_adjacent(s, off, acc15, spec_i64_to_le_bytes(num_trades));
    assert(b16 == splice(s, off, acc16));
    crate::wire::lemma_append_parts(acc15, spec_i64_to_le_bytes(num_trades));
    assert(acc16.subrange(118, 126) == spec_i64_to_le_bytes(num_trades));
    crate::wire::lemma_splice_read_part(s, off, acc16, 0, 1);
    crate::wire::lemma_splice_read_part(s, off, acc16, 1, 2);
    crate::wire::lemma_splice_read_part(s, off, acc16, 2, 10);
    crate::wire::lemma_splice_read_part(s, off, acc16, 10, 14);
    crate::wire::lemma_splice_read_part(s, off, acc16, 14, 22);
    crate::wire::lemma_splice_read_part(s, off, acc16, 22, 30);
    crate::wire::lemma_splice_read_part(s, off, acc16, 30, 38);
    crate::wire::lemma_splice_read_part(s, off, acc16, 38, 46);
    crate::wire::lemma_splice_read_part(s, off, acc16, 46, 54);
    crate::wire::lemma_splice_read_part(s, off, acc16, 54, 70);
    crate::wire::lemma_splice_read_part(s, off, acc16, 70, 86);
    crate::wire::lemma_splice_read_part(s, off, acc16, 86, 94);
    crate::wire::lemma_splice_read_part(s, off, acc16, 94, 102);
    crate::wire::lemma_splice_read_part(s, off, acc16, 102, 110);
    crate::wire::lemma_splice_read_part(s, off, acc16, 110, 118);
    crate::wire::lemma_splice_read_part(s, off, acc16, 118, 126);
    assert(acc2.subrange(0, 1) == acc1.subrange(0, 1));
    assert(acc1.subrange(0, 1) =~= acc1);
}

/// Round trip of the front half of the ExecutionReportEvent fixed
/// block (every field below block offset 128): encoding the fields in
/// declaration order and decoding each back yields the encoded values.
/// Together with `lemma_execution_report_event_back_round_trip`, whose
/// writes provably leave these bytes untouched, this covers the whole
/// block.
#[verifier::rlimit(100)]
#[verifier::spinoff_prover]
pub proof fn lemma_execution_report_event_front_round_trip(
    s: Seq<u8>,
    off: int,
    event_time: i64,
    transact_time: i64,
    price_exponent: i8,
    qty_exponent: i8,
    commission_exponent: i8,
    order_creation_time: i64,
    working_time: i64,
    order_id: i64,
    order_list_id: i64,
    orig_qty: i64,
    price: i64,
    orig_quote_order_qty: i64,
    iceberg_qty: i64,
    stop_price: i64,
    order_type: OrderType,
    side: OrderSide,
    time_in_force: TimeInForce,
    execution_type: ExecutionType,
    order_status: OrderStatus,
    trade_id: i64,
    execution_id: i64,
    executed_qty: i64,
    cummulative_quote_qty: i64,
    last_qty: i64,
)
    requires
        0 <= off,
        off + 268 <= s.len(),
    ensures
        ({
            
            let b1 = splice(s, off, spec_i64_to_le_bytes(event_time));
            let b2 = splice(b1, off + 8, spec_i64_to_le_bytes(transact_time));
            let b3 = splice(b2, off + 16, spec_i8_to_le_bytes(price_exponent));
            let b4 = splice(b3, off + 17, spec_i8_to_le_bytes(qty_exponent));
            let b5 = splice(b4, off + 18, spec_i8_to_le_bytes(commission_exponent));
            let b6 = splice(b5, off + 19, spec_i64_to_le_bytes(order_creation_time));
            let b7 = splice(b6, off + 27, spec_i64_to_le_bytes(working_time));
            let b8 = splice(b7, off + 35, spec_i64_to_le_bytes(order_id));
            let b9 = splice(b8, off + 43, spec_i64_to_le_bytes(order_list_id));
            let b10 = splice(b9, off + 51, spec_i64_to_le_bytes(orig_qty));
            let b11 = splice(b10, off + 59, spec_i64_to_le_bytes(price));
            let b12 = splice(b11, off + 67, spec_i64_to_le_bytes(orig_quote_order_qty));
            let b13 = splice(b12, off + 75, spec_i64_to_le_bytes(iceberg_qty));
            let b14 = splice(b13, off + 83, spec_i64_to_le_bytes(stop_price));
            let b15 = b14.update(off + 91, order_type_to_byte(order_type));
            let b16 = b15.update(off + 92, order_side_to_byte(side));
            let b17 = b16.update(off + 93, time_in_force_to_byte(time_in_force));
            let b18 = b17.update(off + 94, execution_type_to_byte(execution_type));
            let b19 = b18.update(off + 95, order_status_to_byte(order_status));
            let b20 = splice(b19, off + 96, spec_i64_to_le_bytes(trade_id));
            let b21 = splice(b20, off + 104, spec_i64_to_le_bytes(execution_id));
            let b22 = splice(b21, off + 112, spec_i64_to_le_bytes(executed_qty));
            let b23 = splice(b22, off + 120, spec_i64_to_le_bytes(cummulative_quote_qty));
            let b24 = splice(b23, off + 128, spec_i64_to_le_bytes(last_qty));
            &&& spec_i64_from_le_bytes(b24.subrange(off, off + 8)) == event_time
            &&& spec_i64_from_le_bytes(b24.subrange(off + 8, off + 16)) == transact_time
            &&& spec_i8_from_le_bytes(b24.subrange(off + 16, off + 17)) == price_exponent
            &&& spec_i8_from_le_bytes(b24.subrange(off + 17, off + 18)) == qty_exponent
            &&& spec_i8_from_le_bytes(b24.subrange(off + 18, off + 19)) == commission_exponent
            &&& spec_i64_from_le_bytes(b24.subrange(off + 19, off + 27)) == order_creation_time
            &&& opt_i64(spec_i64_from_le_bytes(b24.subrange(off + 27, off + 35))) == opt_i64(working_time)
            &&& spec_i64_from_le_bytes(b24.subrange(off + 35, off + 43)) == order_id
            &&& opt_i64(spec_i64_from_le_bytes(b24.subrange(off + 43, off + 51))) == opt_i64(order_list_id)
            &&& spec_i64_from_le_bytes(b24.subrange(off + 51, off + 59)) == orig_qty
            &&& spec_i64_from_le_bytes(b24.subrange(off + 59, off + 67)) == price
            &&& spec_i64_from_le_bytes(b24.subrange(off + 67, off + 75)) == orig_quote_order_qty
            &&& spec_i64_from_le_bytes(b24.subrange(off + 75, off + 83)) == iceberg_qty
            &&& spec_i64_from_le_bytes(b24.subrange(off + 83, off + 91)) == stop_price
            &&& order_type_from_byte(b24[off + 91]) == order_type
            &&& order_side_from_byte(b24[off + 92]) == side
            &&& time_in_force_from_byte(b24[off + 93]) == time_in_force
            &&& execution_type_from_byte(b24[off + 94]) == execution_type
            &&& order_status_from_byte(b24[off + 95]) == order_status
            &&& opt_i64(spec_i64_from_le_bytes(b24.subrange(off + 96, off + 104))) == opt_i64(trade_id)
            &&& spec_i64_from_le_bytes(b24.subrange(off + 104, off + 112)) == execution_id
            &&& spec_i64_from_le_bytes(b24.subrange(off + 112, off + 120)) == executed_qty
            &&& spec_i64_from_le_bytes(b24.subrange(off + 120, off + 128)) == cummulative_quote_qty
            &&& spec_i64_from_le_bytes(b24.subrange(off + 128, off + 136)) == last_qty
        }),
{
    lemma_auto_spec_u16_to_from_le_bytes();
    lemma_auto_spec_u32_to_from_le_bytes();
    lemma_auto_spec_u64_to_from_le_bytes();
    crate::wire::lemma_i8_cast_round_trip();
    crate::wire::lemma_i32_cast_round_trip();
    crate::wire::lemma_i64_cast_round_trip();
    let b1 = splice(s, off, spec_i64_to_le_bytes(event_time));
    let b2 = splice(b1, off + 8, spec_i64_to_le_bytes(transact_time));
    let b3 = splice(b2, off + 16, spec_i8_to_le_bytes(price_exponent));
    let b4 = splice(b3, off + 17, spec_i8_to_le_bytes(qty_exponent));
    let b5 = splice(b4, off + 18, spec_i8_to_le_bytes(commission_exponent));
    let b6 = splice(b5, off + 19, spec_i64_to_le_bytes(order_creation_time));
    let b7 = splice(b6, off + 27, spec_i64_to_le_bytes(working_time));
    let b8 = splice(b7, off + 35, spec_i64_to_le_bytes(order_id));
    let b9 = splice(b8, off + 43, spec_i64_to_le_bytes(order_list_id));
    let b10 = splice(b9, off + 51, spec_i64_to_le_bytes(orig_qty));
    let b11 = splice(b10, off + 59, spec_i64_to_le_bytes(price));
    let b12 = splice(b11, off + 67, spec_i64_to_le_bytes(orig_quote_order_qty));
    let b13 = splice(b12, off + 75, spec_i64_to_le_bytes(iceberg_qty));
    let b14 = splice(b13, off + 83, spec_i64_to_le_bytes(stop_price));
    let b15 = b14.update(off + 91, order_type_to_byte(order_type));
    let b16 = b15.update(off + 92, order_side_to_byte(side));
    let b17 = b16.update(off + 93, time_in_force_to_byte(time_in_force));
    let b18 = b17.update(off + 94, execution_type_to_byte(execution_type));
    let b19 = b18.update(off + 95, order_status_to_byte(order_status));
    let b20 = splice(b19, off + 96, spec_i64_to_le_bytes(trade_id));
    let b21 = splice(b20, off + 104, spec_i64_to_le_bytes(execution_id));
    let b22 = splice(b21, off + 112, spec_i64_to_le_bytes(executed_qty));
    let b23 = splice(b22, off + 120, spec_i64_to_le_bytes(cummulative_quote_qty));
    let b24 = splice(b23, off + 128, spec_i64_to_le_bytes(last_qty));
    let acc1 = spec_i64_to_le_bytes(event_time);
    assert(b1 == splice(s, off, acc1));
    let acc2 = acc1 + spec_i64_to_le_bytes(transact_time);
    assert(acc1.len() == 8);
    crate::wire::lemma_splice_adjacent(s, off, acc1, spec_i64_to_le_bytes(transact_time));
    assert(b2 == splice(s, off, acc2));
    crate::wire::lemma_append_parts(acc1, spec_i64_to_le_bytes(transact_time));
    assert(acc2.subrange(8, 16) == spec_i64_to_le_bytes(transact_time));
    let acc3 = acc2 + spec_i8_to_le_bytes(price_exponent);
    assert(acc2.len() == 16);
    crate::wire::lemma_splice_adjacent(s, off, acc2, spec_i8_to_le_bytes(price_exponent));
    assert(b3 == splice(s, off, acc3));
    crate::wire::lemma_append_parts(acc2, spec_i8_to_le_bytes(price_exponent));
    assert(acc3.subrange(16, 17) == spec_i8_to_le_bytes(price_exponent));
    let acc4 = acc3 + spec_i8_to_le_bytes(qty_exponent);
    assert(acc3.len() == 17);
    crate::wire::lemma_splice_adjacent(s, off, acc3, spec_i8_to_le_bytes(qty_exponent));
    assert(b4 == splice(s, off, acc4));
    crate::wire::lemma_append_parts(acc3, spec_i8_to_le_bytes(qty_exponent));
    assert(acc4.subrange(17, 18) == spec_i8_to_le_bytes(qty_exponent));
    let acc5 = acc4 + spec_i8_to_le_bytes(commission_exponent);
    assert(acc4.len() == 18);
    crate::wire::lemma_splice_adjacent(s, off, acc4, spec_i8_to_le_bytes(commission_exponent));
    assert(b5 == splice(s, off, acc5));
    crate::wire::lemma_append_parts(acc4, spec_i8_to_le_bytes(commission_exponent));
    assert(acc5.subrange(18, 19) == spec_i8_to_le_bytes(commission_exponent));
    let acc6 = acc5 + spec_i64_to_le_bytes(order_creation_time);
    assert(acc5.len() == 19);
    crate::wire::lemma_splice_adjacent(s, off, acc5, spec_i64_to_le_bytes(order_creation_time));
    assert(b6 == splice(s, off, acc6));
    crate::wire::lemma_append_parts(acc5, spec_i64_to_le_bytes(order_creation_time));
    assert(acc6.subrange(19, 27) == spec_i64_to_le_bytes(order_creation_time));
    let acc7 = acc6 + spec_i64_to_le_bytes(working_time);
    assert(acc6.len() == 27);
    crate::wire::lemma_splice_adjacent(s, off, acc6, spec_i64_to_le_bytes(working_time));
    assert(b7 == splice(s, off, acc7));
    crate::wire::lemma_append_parts(acc6, spec_i64_to_le_bytes(working_time));
    assert(acc7.subrange(27, 35) == spec_i64_to_le_bytes(working_time));
    let acc8 = acc7 + spec_i64_to_le_bytes(order_id);
    assert(acc7.len() == 35);
    crate::wire::lemma_splice_adjacent(s, off, acc7, spec_i64_to_le_bytes(order_id));
    assert(b8 == splice(s, off, acc8));
    crate::wire::lemma_append_parts(acc7, spec_i64_to_le_bytes(order_id));
    assert(acc8.subrange(35, 43) == spec_i64_to_le_bytes(order_id));
    let acc9 = acc8 + spec_i64_to_le_bytes(order_list_id);
    assert(acc8.len() == 43);
    crate::wire::lemma_splice_adjacent(s, off, acc8, spec_i64_to_le_bytes(order_list_id));
    assert(b9 == splice(s, off, acc9));
    crate::wire::lemma_append_parts(acc8, spec_i64_to_le_bytes(order_list_id));
    assert(acc9.subrange(43, 51) == spec_i64_to_le_bytes(order_list_id));
    let acc10 = acc9 + spec_i64_to_le_bytes(orig_qty);
    assert(acc9.len() == 51);
    crate::wire::lemma_splice_adjacent(s, off, acc9, spec_i64_to_le_bytes(orig_qty));
    assert(b10 == splice(s, off, acc10));
    crate::wire::lemma_append_parts(acc9, spec_i64_to_le_bytes(orig_qty));
    assert(acc10.subrange(51, 59) == spec_i64_to_le_bytes(orig_qty));
    let acc11 = acc10 + spec_i64_to_le_bytes(price);
    assert(acc10.len() == 59);
    crate::wire::lemma_splice_adjacent(s, off, acc10, spec_i64_to_le_bytes(price));
    assert(b11 == splice(s, off, acc11));
    crate::wire::lemma_append_parts(acc10, spec_i64_to_le_bytes(price));
    assert(acc11.subrange(59, 67) == spec_i64_to_le_bytes(price));
    let acc12 = acc11 + spec_i64_to_le_bytes(orig_quote_order_qty);
    assert(acc11.len() == 67);
    crate::wire::lemma_splice_adjacent(s, off, acc11, spec_i64_to_le_bytes(orig_quote_order_qty));
    assert(b12 == splice(s, off, acc12));
    crate::wire::lemma_append_parts(acc11, spec_i64_to_le_bytes(orig_quote_order_qty));
    assert(acc12.subrange(67, 75) == spec_i64_to_le_bytes(orig_quote_order_qty));
    let acc13 = acc12 + spec_i64_to_le_bytes(iceberg_qty);
    assert(acc12.len() == 75);
    crate::wire::lemma_splice_adjacent(s, off, acc12, spec_i64_to_le_bytes(iceberg_qty));
    assert(b13 == splice(s, off, acc13));
    crate::wire::lemma_append_parts(acc12, spec_i64_to_le_bytes(iceberg_qty));
    assert(acc13.subrange(75, 83) == spec_i64_to_le_bytes(iceberg_qty));
    let acc14 = acc13 + spec_i64_to_le_bytes(stop_price);
    assert(acc13.len() == 83);
    crate::wire::lemma_splice_adjacent(s, off, acc13, spec_i64_to_le_bytes(stop_price));
    assert(b14 == splice(s, off, acc14));
    crate::wire::lemma_append_parts(acc13, spec_i64_to_le_bytes(stop_price));
    assert(acc14.subrange(83, 91) == spec_i64_to_le_bytes(stop_price));
    crate::wire::lemma_update_is_splice(b14, off + 91, order_type_to_byte(order_type));
    let acc15 = acc14 + seq![order_type_to_byte(order_type)];
    assert(acc14.len() == 91);
    crate::wire::lemma_splice_adjacent(s, off, acc14, seq![order_type_to_byte(order_type)]);
    assert(b15 == splice(s, off, acc15));
    crate::wire::lemma_append_parts(acc14, seq![order_type_to_byte(order_type)]);
    assert(acc15.subrange(91, 92) == seq![order_type_to_byte(order_type)]);
    crate::wire::lemma_update_is_splice(b15, off + 92, order_side_to_byte(side));
    let acc16 = acc15 + seq![order_side_to_byte(side)];
    assert(acc15.len() == 92);
    crate::wire::lemma_splice_adjacent(s, off, acc15, seq![order_side_to_byte(side)]);
    assert(b16 == splice(s, off, acc16));
    crate::wire::lemma_append_parts(acc15, seq![order_side_to_byte(side)]);
    assert(acc16.subrange(92, 93) == seq![order_side_to_byte(side)]);
    crate::wire::lemma_update_is_splice(b16, off + 93, time_in_force_to_byte(time_in_force));
    let acc17 = acc16 + seq![time_in_force_to_byte(time_in_force)];
    assert(acc16.len() == 93);
    crate::wire::lemma_splice_adjacent(s, off, acc16, seq![time_in_force_to_byte(time_in_force)]);
    assert(b17 == splice(s, off, acc17));
    crate::wire::lemma_append_parts(acc16, seq![time_in_force_to_byte(time_in_force)]);
    assert(acc17.subrange(93, 94) == seq![time_in_force_to_byte(time_in_force)]);
    crate::wire::lemma_update_is_splice(b17, off + 94, execution_type_to_byte(execution_type));
    let acc18 = acc17 + seq![execution_type_to_byte(execution_type)];
    assert(acc17.len() == 94);
    crate::wire::lemma_splice_adjacent(s, off, acc17, seq![execution_type_to_byte(execution_type)]);
    assert(b18 == splice(s, off, acc18));
    crate::wire::lemma_append_parts(acc17, seq![execution_type_to_byte(execution_type)]);
    assert(acc18.subrange(94, 95) == seq![execution_type_to_byte(execution_type)]);
    crate::wire::lemma_update_is_splice(b18, off + 95, order_status_to_byte(order_status));
    let acc19 = acc18 + seq![order_status_to_byte(order_status)];
    assert(acc18.len() == 95);
    crate::wire::lemma_splice_adjacent(s, off, acc18, seq![order_status_to_byte(order_status)]);
    assert(b19 == splice(s, off, acc19));
    crate::wire::lemma_append_parts(acc18, seq![order_status_to_byte(order_status)]);
    assert(acc19.subrange(95, 96) == seq![order_status_to_byte(order_status)]);
    let acc20 = acc19 + spec_i64_to_le_bytes(trade_id);
    assert(acc19.len() == 96);
    crate::wire::lemma_splice_adjacent(s, off, acc19, spec_i64_to_le_bytes(trade_id));
    assert(b20 == splice(s, off, acc20));
    crate::wire::lemma_append_parts(acc19, spec_i64_to_le_bytes(trade_id));
    assert(acc20.subrange(96, 104) == spec_i64_to_le_bytes(trade_id));
    let acc21 = acc20 + spec_i64_to_le_bytes(execution_id);
    assert(acc20.len() == 104);
    crate::wire::lemma_splice_adjacent(s, off, acc20, spec_i64_to_le_bytes(execution_id));
    assert(b21 == splice(s, off, acc21));
    crate::wire::lemma_append_parts(acc20, spec_i64_to_le_bytes(execution_id));
    assert(acc21.subrange(104, 112) == spec_i64_to_le_bytes(execution_id));
    let acc22 = acc21 + spec_i64_to_le_bytes(executed_qty);
    assert(acc21.len() == 112);
    crate::wire::lemma_splice_adjacent(s, off, acc21, spec_i64_to_le_bytes(executed_qty));
    assert(b22 == splice(s, off, acc22));
    crate::wire::lemma_append_parts(acc21, spec_i64_to_le_bytes(executed_qty));
    assert(acc22.subrange(112, 120) == spec_i64_to_le_bytes(executed_qty));
    let acc23 = acc22 + spec_i64_to_le_bytes(cummulative_quote_qty);
    assert(acc22.len() == 120);
    crate::wire::lemma_splice_adjacent(s, off, acc22, spec_i64_to_le_bytes(cummulative_quote_qty));
    assert(b23 == splice(s, off, acc23));
    crate::wire::lemma_append_parts(acc22, spec_i64_to_le_bytes(cummulative_quote_qty));
    assert(acc23.subrange(120, 128) == spec_i64_to_le_bytes(cummulative_quote_qty));
    let acc24 = acc23 + spec_i64_to_le_bytes(last_qty);
    assert(acc23.len() == 128);
    crate::wire::lemma_splice_adjacent(s, off, acc23, spec_i64_to_le_bytes(last_qty));
    assert(b24 == splice(s, off, acc24));
    crate::wire::lemma_append_parts(acc23, spec_i64_to_le_bytes(last_qty));
    assert(acc24.subrange(128, 136) == spec_i64_to_le_bytes(last_qty));
    crate::wire::lemma_splice_read_part(s, off, acc24, 0, 8);
    crate::wire::lemma_splice_read_part(s, off, acc24, 8, 16);
    crate::wire::lemma_splice_read_part(s, off, acc24, 16, 17);
    crate::wire::lemma_splice_read_part(s, off, acc24, 17, 18);
    crate::wire::lemma_splice_read_part(s, off, acc24, 18, 19);
    crate::wire::lemma_splice_read_part(s, off, acc24, 19, 27);
    crate::wire::lemma_splice_read_part(s, off, acc24, 27, 35);
    crate::wire::lemma_splice_read_part(s, off, acc24, 35, 43);
    crate::wire::lemma_splice_read_part(s, off, acc24, 43, 51);
    crate::wire::lemma_splice_read_part(s, off, acc24, 51, 59);
    crate::wire::lemma_splice_read_part(s, off, acc24, 59, 67);
    crate::wire::lemma_splice_read_part(s, off, acc24, 67, 75);
    crate::wire::lemma_splice_read_part(s, off, acc24, 75, 83);
    crate::wire::lemma_splice_read_part(s, off, acc24, 83, 91);
    crate::wire::lemma_splice_read_part(s, off, acc24, 91, 92);
    assert(b24[off + 91] == b24.subrange(off + 91, off + 92)[0]);
    lemma_order_type_round_trip(order_type);
    crate::wire::lemma_splice_read_part(s, off, acc24, 92, 93);
    assert(b24[off + 92] == b24.subrange(off + 92, off + 93)[0]);
    lemma_order_side_round_trip(side);
    crate::wire::lemma_splice_read_part(s, off, acc24, 93, 94);
    assert(b24[off + 93] == b24.subrange(off + 93, off + 94)[0]);
    lemma_time_in_force_round_trip(time_in_force);
    crate::wire::lemma_splice_read_part(s, off, acc24, 94, 95);
    assert(b24[off + 94] == b24.subrange(off + 94, off + 95)[0]);
    lemma_execution_type_round_trip(execution_type);
    crate::wire::lemma_splice_read_part(s, off, acc24, 95, 96);
    assert(b24[off + 95] == b24.subrange(off + 95, off + 96)[0]);
    lemma_order_status_round_trip(order_status);
    crate::wire::lemma_splice_read_part(s, off, acc24, 96, 104);
    crate::wire::lemma_splice_read_part(s, off, acc24, 104, 112);
    crate::wire::lemma_splice_read_part(s, off, acc24, 112, 120);
    crate::wire::lemma_splice_read_part(s, off, acc24, 120, 128);
    crate::wire::lemma_splice_read_part(s, off, acc24, 128, 136);
    assert(acc2.subrange(0, 8) == acc1.subrange(0, 8));
    assert(acc1.subrange(0, 8) =~= acc1);
}

/// Round trip of the back half of the ExecutionReportEvent fixed block
/// (every field at block offset 128 or above), plus the guarantee that
/// writing it leaves every byte below block offset 128 unchanged: the
/// two halves together give the round trip of the whole block.
#[verifier::rlimit(100)]
#[verifier::spinoff_prover]
pub proof fn lemma_execution_report_event_back_round_trip(
    s: Seq<u8>,
    off: int,
    last_price: i64,
    quote_qty: i64,
    commission: i64,
    is_working: BoolEnum,
    is_maker: BoolEnum,
    is_best_match: BoolEnum,
    match_type: MatchType,
    self_trade_prevention_mode: SelfTradePreventionMode,
    order_capacity: OrderCapacity,
    working_floor: Floor,
    used_sor: BoolEnum,
    alloc_id: i64,
    trailing_delta: u64,
    trailing_time: i64,
    trade_group_id: i64,
    prevented_qty: i64,
    last_prevented_qty: i64,
    prevented_match_id: i64,
    prevented_execution_qty: i64,
    prevented_execution_price: i64,
    prevented_execution_quote_qty: i64,
    strategy_type: i32,
    strategy_id: i64,
    counter_order_id: i64,
)
    requires
        0 <= off,
        off + 268 <= s.len(),
    ensures
        ({
            
            let b25 = splice(s, off + 136, spec_i64_to_le_bytes(last_price));
            let b26 = splice(b25, off + 144, spec_i64_to_le_bytes(quote_qty));
            let b27 = splice(b26, off + 152, spec_i64_to_le_bytes(commission));
            let b28 = b27.update(off + 160, bool_enum_to_byte(is_working));
            let b29 = b28.update(off + 161, bool_enum_to_byte(is_maker));
            let b30 = b29.update(off + 162, bool_enum_to_byte(is_best_match));
            let b31 = b30.update(off + 163, match_type_to_byte(match_type));
            let b32 = b31.update(off + 164, self_trade_prevention_mode_to_byte(self_trade_prevention_mode));
            let b33 = b32.update(off + 165, order_capacity_to_byte(order_capacity));
            let b34 = b33.update(off + 166, floor_to_byte(working_floor));
            let b35 = b34.update(off + 167, bool_enum_to_byte(used_sor));
            let b36 = splice(b35, off + 168, spec_i64_to_le_bytes(alloc_id));
            let b37 = splice(b36, off + 176, spec_u64_to_le_bytes(trailing_delta));
            let b38 = splice(b37, off + 184, spec_i64_to_le_bytes(trailing_time));
            let b39 = splice(b38, off + 192, spec_i64_to_le_bytes(trade_group_id));
            let b40 = splice(b39, off + 200, spec_i64_to_le_bytes(prevented_qty));
            let b41 = splice(b40, off + 208, spec_i64_to_le_bytes(last_prevented_qty));
            let b42 = splice(b41, off + 216, spec_i64_to_le_bytes(prevented_match_id));
            let b43 = splice(b42, off + 224, spec_i64_to_le_bytes(prevented_execution_qty));
            let b44 = splice(b43, off + 232, spec_i64_to_le_bytes(prevented_execution_price));
            let b45 = splice(b44, off + 240, spec_i64_to_le_bytes(prevented_execution_quote_qty));
            let b46 = splice(b45, off + 248, spec_i32_to_le_bytes(strategy_type));
            let b47 = splice(b46, off + 252, spec_i64_to_le_bytes(strategy_id));
            let b48 = splice(b47, off + 260, spec_i64_to_le_bytes(counter_order_id));
            &&& spec_i64_from_le_bytes(b48.subrange(off + 136, off + 144)) == last_price
            &&& spec_i64_from_le_bytes(b48.subrange(off + 144, off + 152)) == quote_qty
            &&& spec_i64_from_le_bytes(b48.subrange(off + 152, off + 160)) == commission
            &&& bool_enum_from_byte(b48[off + 160]) == is_working
            &&& bool_enum_from_byte(b48[off + 161]) == is_maker
            &&& bool_enum_from_byte(b48[off + 162]) == is_best_match
            &&& match_type_from_byte(b48[off + 163]) == match_type
            &&& self_trade_prevention_mode_from_byte(b48[off + 164]) == self_trade_prevention_mode
            &&& order_capacity_from_byte(b48[off + 165]) == order_capacity
            &&& floor_from_byte(b48[off + 166]) == working_floor
            &&& bool_enum_from_byte(b48[off + 167]) == used_sor
            &&& opt_i64(spec_i64_from_le_bytes(b48.subrange(off + 168, off + 176))) == opt_i64(alloc_id)
            &&& opt_u64(spec_u64_from_le_bytes(b48.subrange(off + 176, off + 184))) == opt_u64(trailing_delta)
            &&& opt_i64(spec_i64_from_le_bytes(b48.subrange(off + 184, off + 192))) == opt_i64(trailing_time)
            &&& opt_i64(spec_i64_from_le_bytes(b48.subrange(off + 192, off + 200))) == opt_i64(trade_group_id)
            &&& opt_i64(spec_i64_from_le_bytes(b48.subrange(off + 200, off + 208))) == opt_i64(prevented_qty)
            &&& opt_i64(spec_i64_from_le_bytes(b48.subrange(off + 208, off + 216))) == opt_i64(last_prevented_qty)
            &&& opt_i64(spec_i64_from_le_bytes(b48.subrange(off + 216, off + 224))) == opt_i64(prevented_match_id)
            &&& opt_i64(spec_i64_from_le_bytes(b48.subrange(off + 224, off + 232))) == opt_i64(prevented_execution_qty)
            &&& opt_i64(spec_i64_from_le_bytes(b48.subrange(off + 232, off + 240))) == opt_i64(prevented_execution_price)
            &&& opt_i64(spec_i64_from_le_bytes(b48.subrange(off + 240, off + 248))) == opt_i64(prevented_execution_quote_qty)
            &&& opt_i32(spec_i32_from_le_bytes(b48.subrange(off + 248, off + 252))) == opt_i32(strategy_type)
            &&& opt_i64(spec_i64_from_le_bytes(b48.subrange(off + 252, off + 260))) == opt_i64(strategy_id)
            &&& opt_i64(spec_i64_from_le_bytes(b48.subrange(off + 260, off + 268))) == opt_i64(counter_order_id)
        }),
        ({
            
            let b25 = splice(s, off + 136, spec_i64_to_le_bytes(last_price));
            let b26 = splice(b25, off + 144, spec_i64_to_le_bytes(quote_qty));
            let b27 = splice(b26, off + 152, spec_i64_to_le_bytes(commission));
            let b28 = b27.update(off + 160, bool_enum_to_byte(is_working));
            let b29 = b28.update(off + 161, bool_enum_to_byte(is_maker));
            let b30 = b29.update(off + 162, bool_enum_to_byte(is_best_match));
            let b31 = b30.update(off + 163, match_type_to_byte(match_type));
            let b32 = b31.update(off + 164, self_trade_prevention_mode_to_byte(self_trade_prevention_mode));
            let b33 = b32.update(off + 165, order_capacity_to_byte(order_capacity));
            let b34 = b33.update(off + 166, floor_to_byte(working_floor));
            let b35 = b34.update(off + 167, bool_enum_to_byte(used_sor));
            let b36 = splice(b35, off + 168, spec_i64_to_le_bytes(alloc_id));
            let b37 = splice(b36, off + 176, spec_u64_to_le_bytes(trailing_delta));
            let b38 = splice(b37, off + 184, spec_i64_to_le_bytes(trailing_time));
            let b39 = splice(b38, off + 192, spec_i64_to_le_bytes(trade_group_id));
            let b40 = splice(b39, off + 200, spec_i64_to_le_bytes(prevented_qty));
            let b41 = splice(b40, off + 208, spec_i64_to_le_bytes(last_prevented_qty));
            let b42 = splice(b41, off + 216, spec_i64_to_le_bytes(prevented_match_id));
            let b43 = splice(b42, off + 224, spec_i64_to_le_bytes(prevented_execution_qty));
            let b44 = splice(b43, off + 232, spec_i64_to_le_bytes(prevented_execution_price));
            let b45 = splice(b44, off + 240, spec_i64_to_le_bytes(prevented_execution_quote_qty));
            let b46 = splice(b45, off + 248, spec_i32_to_le_bytes(strategy_type));
            let b47 = splice(b46, off + 252, spec_i64_to_le_bytes(strategy_id));
            let b48 = splice(b47, off + 260, spec_i64_to_le_bytes(counter_order_id));
            forall|lo: int, hi: int| 0 <= lo <= hi <= off + 136 ==> #[trigger] b48.subrange(lo, hi) == s.subrange(lo, hi)
        }),
{
    lemma_auto_spec_u16_to_from_le_bytes();
    lemma_auto_spec_u32_to_from_le_bytes();
    lemma_auto_spec_u64_to_from_le_bytes();
    crate::wire::lemma_i8_cast_round_trip();
    crate::wire::lemma_i32_cast_round_trip();
    crate::wire::lemma_i64_cast_round_trip();
    let b25 = splice(s, off + 136, spec_i64_to_le_bytes(last_price));
    let b26 = splice(b25, off + 144, spec_i64_to_le_bytes(quote_qty));
    let b27 = splice(b26, off + 152, spec_i64_to_le_bytes(commission));
    let b28 = b27.update(off + 160, bool_enum_to_byte(is_working));
    let b29 = b28.update(off + 161, bool_enum_to_byte(is_maker));
    let b30 = b29.update(off + 162, bool_enum_to_byte(is_best_match));
    let b31 = b30.update(off + 163, match_type_to_byte(match_type));
    let b32 = b31.update(off + 164, self_trade_prevention_mode_to_byte(self_trade_prevention_mode));
    let b33 = b32.update(off + 165, order_capacity_to_byte(order_capacity));
    let b34 = b33.update(off + 166, floor_to_byte(working_floor));
    let b35 = b34.update(off + 167, bool_enum_to_byte(used_sor));
    let b36 = splice(b35, off + 168, spec_i64_to_le_bytes(alloc_id));
    let b37 = splice(b36, off + 176, spec_u64_to_le_bytes(trailing_delta));
    let b38 = splice(b37, off + 184, spec_i64_to_le_bytes(trailing_time));
    let b39 = splice(b38, off + 192, spec_i64_to_le_bytes(trade_group_id));
    let b40 = splice(b39, off + 200, spec_i64_to_le_bytes(prevented_qty));
    let b41 = splice(b40, off + 208, spec_i64_to_le_bytes(last_prevented_qty));
    let b42 = splice(b41, off + 216, spec_i64_to_le_bytes(prevented_match_id));
    let b43 = splice(b42, off + 224, spec_i64_to_le_bytes(prevented_execution_qty));
    let b44 = splice(b43, off + 232, spec_i64_to_le_bytes(prevented_execution_price));
    let b45 = splice(b44, off + 240, spec_i64_to_le_bytes(prevented_execution_quote_qty));
    let b46 = splice(b45, off + 248, spec_i32_to_le_bytes(strategy_type));
    let b47 = splice(b46, off + 252, spec_i64_to_le_bytes(strategy_id));
    let b48 = splice(b47, off + 260, spec_i64_to_le_bytes(counter_order_id));
    let acc1 = spec_i64_to_le_bytes(last_price);
    assert(b25 == splice(s, off + 136, acc1));
    let acc2 = acc1 + spec_i64_to_le_bytes(quote_qty);
    assert(acc1.len() == 8);
    crate::wire::lemma_splice_adjacent(s, off + 136, acc1, spec_i64_to_le_bytes(quote_qty));
    assert(b26 == splice(s, off + 136, acc2));
    crate::wire::lemma_append_parts(acc1, spec_i64_to_le_bytes(quote_qty));
    assert(acc2.subrange(8, 16) == spec_i64_to_le_bytes(quote_qty));
    let acc3 = acc2 + spec_i64_to_le_bytes(commission);
    assert(acc2.len() == 16);
    crate::wire::lemma_splice_adjacent(s, off + 136, acc2, spec_i64_to_le_bytes(commission));
    assert(b27 == splice(s, off + 136, acc3));
    crate::wire::lemma_append_parts(acc2, spec_i64_to_le_bytes(commission));
    assert(acc3.subrange(16, 24) == spec_i64_to_le_bytes(commission));
    crate::wire::lemma_update_is_splice(b27, off + 160, bool_enum_to_byte(is_working));
    let acc4 = acc3 + seq![bool_enum_to_byte(is_working)];
    assert(acc3.len() == 24);
    crate::wire::lemma_splice_adjacent(s, off + 136, acc3, seq![bool_enum_to_byte(is_working)]);
    assert(b28 == splice(s, off + 136, acc4));
    crate::wire::lemma_append_parts(acc3, seq![bool_enum_to_byte(is_working)]);
    assert(acc4.subrange(24, 25) == seq![bool_enum_to_byte(is_working)]);
    crate::wire::lemma_update_is_splice(b28, off + 161, bool_enum_to_byte(is_maker));
    let acc5 = acc4 + seq![bool_enum_to_byte(is_maker)];
    assert(acc4.len() == 25);
    crate::wire::lemma_splice_adjacent(s, off + 136, acc4, seq![bool_enum_to_byte(is_maker)]);
    assert(b29 == splice(s, off + 136, acc5));
    crate::wire::lemma_append_parts(acc4, seq![bool_enum_to_byte(is_maker)]);
    assert(acc5.subrange(25, 26) == seq![bool_enum_to_byte(is_maker)]);
    crate::wire::lemma_update_is_splice(b29, off + 162, bool_enum_to_byte(is_best_match));
    let acc6 = acc5 + seq![bool_enum_to_byte(is_best_match)];
    assert(acc5.len() == 26);
    crate::wire::lemma_splice_adjacent(s, off + 136, acc5, seq![bool_enum_to_byte(is_best_match)]);
    assert(b30 == splice(s, off + 136, acc6));
    crate::wire::lemma_append_parts(acc5, seq![bool_enum_to_byte(is_best_match)]);
    assert(acc6.subrange(26, 27) == seq![bool_enum_to_byte(is_best_match)]);
    crate::wire::lemma_update_is_splice(b30, off + 163, match_type_to_byte(match_type));
    let acc7 = acc6 + seq![match_type_to_byte(match_type)];
    assert(acc6.len() == 27);
    crate::wire::lemma_splice_adjacent(s, off + 136, acc6, seq![match_type_to_byte(match_type)]);
    assert(b31 == splice(s, off + 136, acc7));
    crate::wire::lemma_append_parts(acc6, seq![match_type_to_byte(match_type)]);
    assert(acc7.subrange(27, 28) == seq![match_type_to_byte(match_type)]);
    crate::wire::lemma_update_is_splice(b31, off + 164, self_trade_prevention_mode_to_byte(self_trade_prevention_mode));
    let acc8 = acc7 + seq![self_trade_prevention_mode_to_byte(self_trade_prevention_mode)];
    assert(acc7.len() == 28);
    crate::wire::lemma_splice_adjacent(s, off + 136, acc7, seq![self_trade_prevention_mode_to_byte(self_trade_prevention_mode)]);
    assert(b32 == splice(s, off + 136, acc8));
    crate::wire::lemma_append_parts(acc7, seq![self_trade_prevention_mode_to_byte(self_trade_prevention_mode)]);
    assert(acc8.subrange(28, 29) == seq![self_trade_prevention_mode_to_byte(self_trade_prevention_mode)]);
    crate::wire::lemma_update_is_splice(b32, off + 165, order_capacity_to_byte(order_capacity));
    let acc9 = acc8 + seq![order_capacity_to_byte(order_capacity)];
    assert(acc8.len() == 29);
    crate::wire::lemma_splice_adjacent(s, off + 136, acc8, seq![order_capacity_to_byte(order_capacity)]);
    assert(b33 == splice(s, off + 136, acc9));
    crate::wire::lemma_append_parts(acc8, seq![order_capacity_to_byte(order_capacity)]);
    assert(acc9.subrange(29, 30) == seq![order_capacity_to_byte(order_capacity)]);
    crate::wire::lemma_update_is_splice(b33, off + 166, floor_to_byte(working_floor));
    let acc10 = acc9 + seq![floor_to_byte(working_floor)];
    assert(acc9.len() == 30);
    crate::wire::lemma_splice_adjacent(s, off + 136, acc9, seq![floor_to_byte(working_floor)]);
    assert(b34 == splice(s, off + 136, acc10));
    crate::wire::lemma_append_parts(acc9, seq![floor_to_byte(working_floor)]);
    assert(acc10.subrange(30, 31) == seq![floor_to_byte(working_floor)]);
    crate::wire::lemma_update_is_splice(b34, off + 167, bool_enum_to_byte(used_sor));
    let acc11 = acc10 + seq![bool_enum_to_byte(used_sor)];
    assert(acc10.len() == 31);
    crate::wire::lemma_splice_adjacent(s, off + 136, acc10, seq![bool_enum_to_byte(used_sor)]);
    assert(b35 == splice(s, off + 136, acc11));
    crate::wire::lemma_append_parts(acc10, seq![bool_enum_to_byte(used_sor)]);
    assert(acc11.subrange(31, 32) == seq![bool_enum_to_byte(used_sor)]);
    let acc12 = acc11 + spec_i64_to_le_bytes(alloc_id);
    assert(acc11.len() == 32);
    crate::wire::lemma_splice_adjacent(s, off + 136, acc11, spec_i64_to_le_bytes(alloc_id));
    assert(b36 == splice(s, off + 136, acc12));
    crate::wire::lemma_append_parts(acc11, spec_i64_to_le_bytes(alloc_id));
    assert(acc12.subrange(32, 40) == spec_i64_to_le_bytes(alloc_id));
    let acc13 = acc12 + spec_u64_to_le_bytes(trailing_delta);
    assert(acc12.len() == 40);
    crate::wire::lemma_splice_adjacent(s, off + 136, acc12, spec_u64_to_le_bytes(trailing_delta));
    assert(b37 == splice(s, off + 136, acc13));
    crate::wire::lemma_append_parts(acc12, spec_u64_to_le_bytes(trailing_delta));
    assert(acc13.subrange(40, 48) == spec_u64_to_le_bytes(trailing_delta));
    let acc14 = acc13 + spec_i64_to_le_bytes(trailing_time);
    assert(acc13.len() == 48);
    crate::wire::lemma_splice_adjacent(s, off + 136, acc13, spec_i64_to_le_bytes(trailing_time));
    assert(b38 == splice(s, off + 136, acc14));
    crate::wire::lemma_append_parts(acc13, spec_i64_to_le_bytes(trailing_time));
    assert(acc14.subrange(48, 56) == spec_i64_to_le_bytes(trailing_time));
    let acc15 = acc14 + spec_i64_to_le_bytes(trade_group_id);
    assert(acc14.len() == 56);
    crate::wire::lemma_splice_adjacent(s, off + 136, acc14, spec_i64_to_le_bytes(trade_group_id));
    assert(b39 == splice(s, off + 136, acc15));
    crate::wire::lemma_append_parts(acc14, spec_i64_to_le_bytes(trade_group_id));
    assert(acc15.subrange(56, 64) == spec_i64_to_le_bytes(trade_group_id));
    let acc16 = acc15 + spec_i64_to_le_bytes(prevented_qty);
    assert(acc15.len() == 64);
    crate::wire::lemma_splice_adjacent(s, off + 136, acc15, spec_i64_to_le_bytes(prevented_qty));
    assert(b40 == splice(s, off + 136, acc16));
    crate::wire::lemma_append_parts(acc15, spec_i64_to_le_bytes(prevented_qty));
    assert(acc16.subrange(64, 72) == spec_i64_to_le_bytes(prevented_qty));
    let acc17 = acc16 + spec_i64_to_le_bytes(last_prevented_qty);
    assert(acc16.len() == 72);
    crate::wire::lemma_splice_adjacent(s, off + 136, acc16, spec_i64_to_le_bytes(last_prevented_qty));
    assert(b41 == splice(s, off + 136, acc17));
    crate::wire::lemma_append_parts(acc16, spec_i64_to_le_bytes(last_prevented_qty));
    assert(acc17.subrange(72, 80) == spec_i64_to_le_bytes(last_prevented_qty));
    let acc18 = acc17 + spec_i64_to_le_bytes(prevented_match_id);
    assert(acc17.len() == 80);
    crate::wire::lemma_splice_adjacent(s, off + 136, acc17, spec_i64_to_le_bytes(prevented_match_id));
    assert(b42 == splice(s, off + 136, acc18));
    crate::wire::lemma_append_parts(acc17, spec_i64_to_le_bytes(prevented_match_id));
    assert(acc18.subrange(80, 88) == spec_i64_to_le_bytes(prevented_match_id));
    let acc19 = acc18 + spec_i64_to_le_bytes(prevented_execution_qty);
    assert(acc18.len() == 88);
    crate::wire::lemma_splice_adjacent(s, off + 136, acc18, spec_i64_to_le_bytes(prevented_execution_qty));
    assert(b43 == splice(s, off + 136, acc19));
    crate::wire::lemma_append_parts(acc18, spec_i64_to_le_bytes(prevented_execution_qty));
    assert(acc19.subrange(88, 96) == spec_i64_to_le_bytes(prevented_execution_qty));
    let acc20 = acc19 + spec_i64_to_le_bytes(prevented_execution_price);
    assert(acc19.len() == 96);
    crate::wire::lemma_splice_adjacent(s, off + 136, acc19, spec_i64_to_le_bytes(prevented_execution_price));
    assert(b44 == splice(s, off + 136, acc20));
    crate::wire::lemma_append_parts(acc19, spec_i64_to_le_bytes(prevented_execution_price));
    assert(acc20.subrange(96, 104) == spec_i64_to_le_bytes(prevented_execution_price));
    let acc21 = acc20 + spec_i64_to_le_bytes(prevented_execution_quote_qty);
    assert(acc20.len() == 104);
    crate::wire::lemma_splice_adjacent(s, off + 136, acc20, spec_i64_to_le_bytes(prevented_execution_quote_qty));
    assert(b45 == splice(s, off + 136, acc21));
    crate::wire::lemma_append_parts(acc20, spec_i64_to_le_bytes(prevented_execution_quote_qty));
    assert(acc21.subrange(104, 112) == spec_i64_to_le_bytes(prevented_execution_quote_qty));
    let acc22 = acc21 + spec_i32_to_le_bytes(strategy_type);
    assert(acc21.len() == 112);
    crate::wire::lemma_splice_adjacent(s, off + 136, acc21, spec_i32_to_le_bytes(strategy_type));
    assert(b46 == splice(s, off + 136, acc22));
    crate::wire::lemma_append_parts(acc21, spec_i32_to_le_bytes(strategy_type));
    assert(acc22.subrange(112, 116) == spec_i32_to_le_bytes(strategy_type));
    let acc23 = acc22 + spec_i64_to_le_bytes(strategy_id);
    assert(acc22.len() == 116);
    crate::wire::lemma_splice_adjacent(s, off + 136, acc22, spec_i64_to_le_bytes(strategy_id));
    assert(b47 == splice(s, off + 136, acc23));
    crate::wire::lemma_append_parts(acc22, spec_i64_to_le_bytes(strategy_id));
    assert(acc23.subrange(116, 124) == spec_i64_to_le_bytes(strategy_id));
    let acc24 = acc23 + spec_i64_to_le_bytes(counter_order_id);
    assert(acc23.len() == 124);
    crate::wire::lemma_splice_adjacent(s, off + 136, acc23, spec_i64_to_le_bytes(counter_order_id));
    assert(b48 == splice(s, off + 136, acc24));
    crate::wire::lemma_append_parts(acc23, spec_i64_to_le_bytes(counter_order_id));
    assert(acc24.subrange(124, 132) == spec_i64_to_le_bytes(counter_order_id));
    crate::wire::lemma_splice_read_part(s, off + 136, acc24, 0, 8);
    crate::wire::lemma_splice_read_part(s, off + 136, acc24, 8, 16);
    crate::wire::lemma_splice_read_part(s, off + 136, acc24, 16, 24);
    crate::wire::lemma_splice_read_part(s, off + 136, acc24, 24, 25);
    assert(b48[off + 160] == b48.subrange(off + 160, off + 161)[0]);
    lemma_bool_enum_round_trip(is_working);
    crate::wire::lemma_splice_read_part(s, off + 136, acc24, 25, 26);
    assert(b48[off + 161] == b48.subrange(off + 161, off + 162)[0]);
    lemma_bool_enum_round_trip(is_maker);
    crate::wire::lemma_splice_read_part(s, off + 136, acc24, 26, 27);
    assert(b48[off + 162] == b48.subrange(off + 162, off + 163)[0]);
    lemma_bool_enum_round_trip(is_best_match);
    crate::wire::lemma_splice_read_part(s, off + 136, acc24, 27, 28);
    assert(b48[off + 163] == b48.subrange(off + 163, off + 164)[0]);
    lemma_match_type_round_trip(match_type);
    crate::wire::lemma_splice_read_part(s, off + 136, acc24, 28, 29);
    assert(b48[off + 164] == b48.subrange(off + 164, off + 165)[0]);
    lemma_self_trade_prevention_mode_round_trip(self_trade_prevention_mode);
    crate::wire::lemma_splice_read_part(s, off + 136, acc24, 29, 30);
    assert(b48[off + 165] == b48.subrange(off + 165, off + 166)[0]);
    lemma_order_capacity_round_trip(order_capacity);
    crate::wire::lemma_splice_read_part(s, off + 136, acc24, 30, 31);
    assert(b48[off + 166] == b48.subrange(off + 166, off + 167)[0]);
    lemma_floor_round_trip(working_floor);
    crate::wire::lemma_splice_read_part(s, off + 136, acc24, 31, 32);
    assert(b48[off + 167] == b48.subrange(off + 167, off + 168)[0]);
    lemma_bool_enum_round_trip(used_sor);
    crate::wire::lemma_splice_read_part(s, off + 136, acc24, 32, 40);
    crate::wire::lemma_splice_read_part(s, off + 136, acc24, 40, 48);
    crate::wire::lemma_splice_read_part(s, off + 136, acc24, 48, 56);
    crate::wire::lemma_splice_read_part(s, off + 136, acc24, 56, 64);
    crate::wire::lemma_splice_read_part(s, off + 136, acc24, 64, 72);
    crate::wire::lemma_splice_read_part(s, off + 136, acc24, 72, 80);
    crate::wire::lemma_splice_read_part(s, off + 136, acc24, 80, 88);
    crate::wire::lemma_splice_read_part(s, off + 136, acc24, 88, 96);
    crate::wire::lemma_splice_read_part(s, off + 136, acc24, 96, 104);
    crate::wire::lemma_splice_read_part(s, off + 136, acc24, 104, 112);
    crate::wire::lemma_splice_read_part(s, off + 136, acc24, 112, 116);
    crate::wire::lemma_splice_read_part(s, off + 136, acc24, 116, 124);
    crate::wire::lemma_splice_read_part(s, off + 136, acc24, 124, 132);
    assert(acc2.subrange(0, 8) == acc1.subrange(0, 8));
    assert(acc1.subrange(0, 8) =~= acc1);
    assert forall|lo: int, hi: int| 0 <= lo <= hi <= off + 136 implies #[trigger] b48.subrange(lo, hi) == s.subrange(lo, hi) by {
        crate::wire::lemma_splice_read_disjoint(s, off + 136, acc24, lo, hi);
    }
}

} // verus!
