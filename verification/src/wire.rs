//! Spec-level model of the wire format: little-endian field images written
//! into a byte sequence, two's-complement views of signed fields, and the
//! null-sentinel conventions for optional fields.

use vstd::prelude::*;
use vstd::bytes::spec_u16_to_le_bytes;
use vstd::bytes::spec_u32_to_le_bytes;
use vstd::bytes::spec_u64_to_le_bytes;
use vstd::bytes::spec_u16_from_le_bytes;
use vstd::bytes::spec_u32_from_le_bytes;
use vstd::bytes::spec_u64_from_le_bytes;

verus! {

broadcast use vstd::seq_lib::group_seq_lib_default;

/// `s` with the bytes of `r` written in place starting at `at`; everything
/// outside `[at, at + r.len())` keeps its old value.
pub open spec fn splice(s: Seq<u8>, at: int, r: Seq<u8>) -> Seq<u8>
    recommends
        0 <= at,
        at + r.len() <= s.len(),
{
    s.take(at) + r + s.skip(at + r.len())
}

/// Reading back exactly the spliced-in range recovers what was written.
pub proof fn lemma_splice_read(s: Seq<u8>, at: int, r: Seq<u8>)
    requires
        0 <= at,
        at + r.len() <= s.len(),
    ensures
        splice(s, at, r).subrange(at, at + r.len()) == r,
{
    assert(splice(s, at, r).subrange(at, at + r.len()) =~= r);
}

/// A range that does not overlap the spliced-in range is unchanged.
pub proof fn lemma_splice_read_disjoint(s: Seq<u8>, at: int, r: Seq<u8>, lo: int, hi: int)
    requires
        0 <= at,
        at + r.len() <= s.len(),
        0 <= lo <= hi <= s.len(),
        hi <= at || at + r.len() <= lo,
    ensures
        splice(s, at, r).subrange(lo, hi) == s.subrange(lo, hi),
{
    assert(splice(s, at, r).subrange(lo, hi) =~= s.subrange(lo, hi));
}

/// Two adjacent writes merge into one write of the concatenated image:
/// the shape of a fixed block written field by field in declaration
/// order.
pub proof fn lemma_splice_adjacent(s: Seq<u8>, at: int, r1: Seq<u8>, r2: Seq<u8>)
    requires
        0 <= at,
        at + r1.len() + r2.len() <= s.len(),
    ensures
        splice(splice(s, at, r1), at + r1.len(), r2) == splice(s, at, r1 + r2),
{
    assert(splice(splice(s, at, r1), at + r1.len(), r2) =~= splice(s, at, r1 + r2));
}

/// A single-byte update is the splice of a one-byte image.
pub proof fn lemma_update_is_splice(s: Seq<u8>, at: int, v: u8)
    requires
        0 <= at < s.len(),
    ensures
        s.update(at, v) == splice(s, at, seq![v]),
{
    assert(s.update(at, v) =~= splice(s, at, seq![v]));
}

/// Reading any part of the spliced-in range recovers that part of what
/// was written.
pub proof fn lemma_splice_read_part(s: Seq<u8>, at: int, r: Seq<u8>, lo: int, hi: int)
    requires
        0 <= at,
        at + r.len() <= s.len(),
        0 <= lo <= hi <= r.len(),
    ensures
        splice(s, at, r).subrange(at + lo, at + hi) == r.subrange(lo, hi),
{
    assert(splice(s, at, r).subrange(at + lo, at + hi) =~= r.subrange(lo, hi));
}

/// Appending to an image leaves every range of the existing prefix in
/// place, and the appended part sits right behind it.
pub proof fn lemma_append_parts(a: Seq<u8>, b: Seq<u8>)
    ensures
        forall|lo: int, hi: int|
            0 <= lo <= hi <= a.len() ==> #[trigger] (a + b).subrange(lo, hi) == a.subrange(
                lo,
                hi,
            ),
        (a + b).subrange(a.len() as int, (a.len() + b.len()) as int) == b,
{
    assert forall|lo: int, hi: int| 0 <= lo <= hi <= a.len() implies #[trigger] (a + b).subrange(
        lo,
        hi,
    ) == a.subrange(lo, hi) by {
        assert((a + b).subrange(lo, hi) =~= a.subrange(lo, hi));
    }
    assert((a + b).subrange(a.len() as int, (a.len() + b.len()) as int) =~= b);
}

/// Casting a signed byte through its unsigned carrier and back is the
/// identity: the one-byte two's-complement image is faithful.
pub proof fn lemma_i8_cast_round_trip()
    ensures
        forall|v: i8| #[trigger] ((v as u8) as i8) == v,
{
    assert forall|v: i8| #[trigger] ((v as u8) as i8) == v by {
        assert((v as u8) as i8 == v) by (bit_vector);
    }
}

/// Casting an `i32` through `u32` and back is the identity.
pub proof fn lemma_i32_cast_round_trip()
    ensures
        forall|v: i32| #[trigger] ((v as u32) as i32) == v,
{
    assert forall|v: i32| #[trigger] ((v as u32) as i32) == v by {
        assert((v as u32) as i32 == v) by (bit_vector);
    }
}

/// Casting an `i64` through `u64` and back is the identity.
pub proof fn lemma_i64_cast_round_trip()
    ensures
        forall|v: i64| #[trigger] ((v as u64) as i64) == v,
{
    assert forall|v: i64| #[trigger] ((v as u64) as i64) == v by {
        assert((v as u64) as i64 == v) by (bit_vector);
    }
}

/// Little-endian image of an `i8` field (one byte, two's complement).
pub open spec fn spec_i8_to_le_bytes(x: i8) -> Seq<u8> {
    seq![x as u8]
}

pub open spec fn spec_i8_from_le_bytes(s: Seq<u8>) -> i8
    recommends
        s.len() == 1,
{
    s[0] as i8
}

/// Little-endian image of an `i32` field (two's complement).
pub open spec fn spec_i32_to_le_bytes(x: i32) -> Seq<u8> {
    spec_u32_to_le_bytes(x as u32)
}

pub open spec fn spec_i32_from_le_bytes(s: Seq<u8>) -> i32
    recommends
        s.len() == 4,
{
    spec_u32_from_le_bytes(s) as i32
}

/// Little-endian image of an `i64` field (two's complement).
pub open spec fn spec_i64_to_le_bytes(x: i64) -> Seq<u8> {
    spec_u64_to_le_bytes(x as u64)
}

pub open spec fn spec_i64_from_le_bytes(s: Seq<u8>) -> i64
    recommends
        s.len() == 8,
{
    spec_u64_from_le_bytes(s) as i64
}

/// The reserved null sentinel of optional `i64` fields.
pub open spec fn null_i64() -> i64 {
    (-9223372036854775807 - 1) as i64
}

/// The reserved null sentinel of optional `i32` fields.
pub open spec fn null_i32() -> i32 {
    (-2147483647 - 1) as i32
}

/// The reserved null sentinel of optional `u64` fields (all bits set).
pub open spec fn null_u64() -> u64 {
    0xffff_ffff_ffff_ffff
}

/// Sentinel decoding of an optional `i64` field: the reserved bit pattern
/// means "absent", every other pattern is the value itself.
pub open spec fn opt_i64(raw: i64) -> Option<i64> {
    if raw == null_i64() {
        None
    } else {
        Some(raw)
    }
}

/// Sentinel decoding of an optional `i32` field.
pub open spec fn opt_i32(raw: i32) -> Option<i32> {
    if raw == null_i32() {
        None
    } else {
        Some(raw)
    }
}

/// Sentinel decoding of an optional `u64` field.
pub open spec fn opt_u64(raw: u64) -> Option<u64> {
    if raw == null_u64() {
        None
    } else {
        Some(raw)
    }
}

/// True on the bit patterns of 32-bit IEEE 754 NaN values, the null
/// sentinel of optional single-precision fields.
pub open spec fn is_f32_nan_bits(raw: u32) -> bool {
    (raw >> 23) & 0xff == 0xff && raw & 0x7f_ffff != 0
}

/// Sentinel decoding of an optional single-precision field carried as its
/// raw bit pattern: any NaN pattern means "absent".
pub open spec fn opt_f32_bits(raw: u32) -> Option<u32> {
    if is_f32_nan_bits(raw) {
        None
    } else {
        Some(raw)
    }
}

/// One `advance` step of a group cursor: `index` is the element index the
/// cursor sits on (`-1` before the first element), `count` the declared
/// element count. The step yields the next index, or `None` once all
/// `count` elements have been visited.
pub open spec fn group_step(index: int, count: int) -> Option<int> {
    if index + 1 < count {
        Some(index + 1)
    } else {
        None
    }
}

} // verus!
