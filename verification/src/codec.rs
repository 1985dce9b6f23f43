//! Packing of two 16-bit bounds into one 32-bit range value, and alignment
//! of a bound to the 16-unit grid.

use vstd::prelude::*;

verus! {

/// The value of the 16 bits of `v` read as an unsigned number.
pub open spec fn unsigned16(v: i16) -> int {
    if v < 0 {
        v + 0x1_0000
    } else {
        v as int
    }
}

/// The 32-bit value whose upper half is `high` and whose lower half holds
/// the bits of `low`.
pub open spec fn combine_spec(high: i16, low: i16) -> int {
    high * 0x1_0000 + unsigned16(low)
}

/// The upper half of a range value, as a signed 16-bit number.
pub open spec fn high_half(v: int) -> int {
    v / 0x1_0000
}

/// The lower half of a range value, as a signed 16-bit number.
pub open spec fn low_half(v: int) -> int {
    let bits = v % 0x1_0000;
    if bits >= 0x8000 {
        bits - 0x1_0000
    } else {
        bits
    }
}

/// Packs the upper bound `max` and the lower bound `min` into one range
/// value: `max` in bits 16 to 31, the bit pattern of `min` in bits 0 to 15.
pub fn combine_hex(max: i16, min: i16) -> (packed: i32)
    ensures
        packed == combine_spec(max, min),
{
    let low_bits: u16 = min as u16;
    let packed: i32 = ((max as i32) << 16) | (low_bits as i32);
    assert(low_bits == unsigned16(min)) by (bit_vector)
        requires
            low_bits == min as u16,
    ;
    assert(packed == max * 0x1_0000 + low_bits) by (bit_vector)
        requires
            packed == ((max as i32) << 16) | (low_bits as i32),
    ;
    packed
}

/// Unpacks a range value into its upper and lower bound, in that order.
pub fn split_hex(combined: i32) -> (halves: (i16, i16))
    ensures
        halves.0 == high_half(combined as int),
        halves.1 == low_half(combined as int),
{
    let high: i16 = (combined >> 16) as i16;
    let low: i16 = (combined & 0xFFFF) as i16;
    assert(high == combined as int / 0x1_0000) by (bit_vector)
        requires
            high == (combined >> 16) as i16,
    ;
    assert(low == low_half(combined as int)) by (bit_vector)
        requires
            low == (combined & 0xFFFF) as i16,
    ;
    (high, low)
}

/// The greatest bound that can still be raised to a multiple of 16.
pub const MAX_ALIGNABLE: i16 = 32752;

/// `value` moved onto the 16-unit grid: unchanged when it is a multiple of
/// 16, otherwise the next multiple above (`round_up`) or below.
pub open spec fn align_spec(value: int, round_up: bool) -> int {
    let r = value % 16;
    if r == 0 {
        value
    } else if round_up {
        value + (16 - r)
    } else {
        value - r
    }
}

/// Aligns a bound to a multiple of 16, upwards or downwards.
///
/// No 16-bit multiple of 16 lies above `MAX_ALIGNABLE`, so a bound beyond
/// it cannot be rounded up.
pub fn aligned(val: i16, up: bool) -> (r: i16)
    requires
        up ==> val <= MAX_ALIGNABLE,
    ensures
        r == align_spec(val as int, up),
{
    let t: i16 = val % 16;
    let r: i16 = if t < 0 { t + 16 } else { t };
    if r == 0 {
        val
    } else if up {
        val + (16 - r)
    } else {
        val - r
    }
}

/// The upper bound for `value`: the least multiple of 16 that is not below
/// it, or `MAX_ALIGNABLE`, the greatest multiple of 16 within 16 bits, where
/// `value` lies above that.
pub open spec fn ceiling_spec(value: i16) -> int {
    if value <= MAX_ALIGNABLE {
        align_spec(value as int, true)
    } else {
        MAX_ALIGNABLE as int
    }
}

/// Aligns a lower bound: the greatest multiple of 16 that is not above it.
pub fn align_floor(val: i16) -> (r: i16)
    ensures
        r == align_spec(val as int, false),
{
    aligned(val, false)
}

/// Aligns an upper bound: the least multiple of 16 that is not below it. A
/// bound above `MAX_ALIGNABLE` cannot be raised within 16 bits and is
/// lowered to `MAX_ALIGNABLE` instead.
pub fn align_ceiling(val: i16) -> (r: i16)
    ensures
        r == ceiling_spec(val),
{
    if val <= MAX_ALIGNABLE {
        aligned(val, true)
    } else {
        MAX_ALIGNABLE
    }
}

/// Packing two bounds and unpacking the result gives the two bounds back,
/// whatever their values.
pub proof fn lemma_split_of_combine(high: i16, low: i16)
    ensures
        i32::MIN <= combine_spec(high, low) <= i32::MAX,
        high_half(combine_spec(high, low)) == high,
        low_half(combine_spec(high, low)) == low,
{
}

/// Unpacking a range value and packing the two halves again gives the same
/// range value: no bit is lost either way.
pub proof fn lemma_combine_of_split(v: i32)
    ensures
        i16::MIN <= high_half(v as int) <= i16::MAX,
        i16::MIN <= low_half(v as int) <= i16::MAX,
        combine_spec(high_half(v as int) as i16, low_half(v as int) as i16) == v,
{
}

/// Rounding down lands on a multiple of 16 that is not above the value and
/// less than 16 below it.
pub proof fn lemma_align_down(value: int)
    ensures
        align_spec(value, false) % 16 == 0,
        value - 16 < align_spec(value, false) <= value,
{
}

/// Rounding up lands on a multiple of 16 that is not below the value and
/// less than 16 above it.
pub proof fn lemma_align_up(value: int)
    ensures
        align_spec(value, true) % 16 == 0,
        value <= align_spec(value, true) < value + 16,
{
}

/// A multiple of 16 is left as it is, in both directions.
pub proof fn lemma_align_fixed(value: int, round_up: bool)
    requires
        value % 16 == 0,
    ensures
        align_spec(value, round_up) == value,
{
}

/// Every 16-bit bound can be rounded down within 16 bits, and every bound
/// up to `MAX_ALIGNABLE` can be rounded up within 16 bits.
pub proof fn lemma_align_fits(value: i16, round_up: bool)
    requires
        round_up ==> value <= MAX_ALIGNABLE,
    ensures
        i16::MIN <= align_spec(value as int, round_up) <= i16::MAX,
{
}

} // verus!
