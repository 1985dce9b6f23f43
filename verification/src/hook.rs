//! The replacement routine's computation: the name of the dimension that a
//! call concerns, the limits that hold for it, and the range value that is
//! handed on in place of the one that came in.

use vstd::prelude::*;
use crate::codec::{
    align_ceiling, align_floor, align_spec, ceiling_spec, combine_hex, combine_spec, high_half,
    low_half, split_hex,
};
use crate::config::{lookup, lookup_spec, BuildLimit, OverrideEntry};

verus! {

/// The most bytes that a name is read from.
pub const MAX_NAME_LEN: usize = 15;

/// The byte is an ASCII control character.
pub open spec fn is_control(byte: u8) -> bool {
    byte < 0x20 || byte == 0x7F
}

/// Where the name ends among `raw`: at its first zero byte, and after
/// `MAX_NAME_LEN` bytes or at the end of `raw` where none comes before.
pub open spec fn name_end(raw: Seq<u8>) -> int
    decreases raw.len(),
{
    if raw.len() == 0 {
        0
    } else {
        let before = name_end(raw.drop_last());
        if before == raw.len() - 1 && before < MAX_NAME_LEN && raw.last() != 0 {
            raw.len() as int
        } else {
            before
        }
    }
}

/// The bytes of the name: those before its end, without control
/// characters.
pub open spec fn name_bytes(raw: Seq<u8>) -> Seq<u8> {
    raw.take(name_end(raw)).filter(|b: u8| !is_control(b))
}

/// The text that `String::from_utf8_lossy` makes of `bytes`.
pub uninterp spec fn utf8_lossy(bytes: Seq<u8>) -> Seq<char>;

/// Turns bytes into text with `String::from_utf8_lossy`, which puts the
/// replacement character in place of what is not UTF-8.
///
/// Trusted: the text is the one that the standard library makes of these
/// bytes, and bytes that are UTF-8 are the encoding of their text.
#[verifier::external_body]
fn lossy_text(bytes: &[u8]) -> (text: String)
    ensures
        text@ == utf8_lossy(bytes@),
        vstd::utf8::valid_utf8(bytes@) ==> vstd::utf8::encode_utf8(text@) == bytes@,
{
    String::from_utf8_lossy(bytes).into_owned()
}

/// Cuts the name out of the bytes found at a dimension's label and drops
/// its control characters.
pub fn name_bytes_of(raw: &[u8]) -> (name: Vec<u8>)
    ensures
        name@ == name_bytes(raw@),
{
    let mut end: usize = 0;
    while end < raw.len() && end < MAX_NAME_LEN && raw[end] != 0
        invariant
            end <= raw@.len(),
            end <= MAX_NAME_LEN,
            name_end(raw@.take(end as int)) == end,
        decreases raw@.len() - end,
    {
        assert(raw@.take(end + 1).drop_last() =~= raw@.take(end as int));
        end = end + 1;
    }
    proof {
        lemma_name_end_stops(raw, end as int);
    }
    let ghost keep = |b: u8| !is_control(b);
    let mut name: Vec<u8> = Vec::new();
    let mut i: usize = 0;
    while i < end
        invariant
            i <= end <= raw@.len(),
            keep == |b: u8| !is_control(b),
            name@ == raw@.take(end as int).take(i as int).filter(keep),
        decreases end - i,
    {
        let byte: u8 = raw[i];
        proof {
            reveal(Seq::filter);
            let head = raw@.take(end as int).take(i + 1);
            assert(head.drop_last() =~= raw@.take(end as int).take(i as int));
        }
        if !(byte < 0x20 || byte == 0x7F) {
            name.push(byte);
        }
        i = i + 1;
    }
    assert(raw@.take(end as int).take(end as int) =~= raw@.take(end as int));
    name
}

/// A name that ends at `end` within a prefix of `raw` ends there within
/// all of `raw`, where the prefix stops at a zero byte, at the limit or at
/// the end of `raw`.
proof fn lemma_name_end_stops(raw: &[u8], end: int)
    requires
        0 <= end <= raw@.len(),
        end <= MAX_NAME_LEN,
        name_end(raw@.take(end)) == end,
        end == raw@.len() || end == MAX_NAME_LEN || raw@[end] == 0,
    ensures
        name_end(raw@) == end,
{
    lemma_name_end_extends(raw@, end, raw@.len() as int);
    assert(raw@.take(raw@.len() as int) =~= raw@);
}

proof fn lemma_name_end_extends(raw: Seq<u8>, end: int, upto: int)
    requires
        0 <= end <= upto <= raw.len(),
        end <= MAX_NAME_LEN,
        name_end(raw.take(end)) == end,
        end == raw.len() || end == MAX_NAME_LEN || raw[end] == 0,
    ensures
        name_end(raw.take(upto)) == end,
    decreases upto - end,
{
    if upto > end {
        lemma_name_end_extends(raw, end, upto - 1);
        assert(raw.take(upto).drop_last() =~= raw.take(upto - 1));
    }
}

/// The name ends at the first zero byte among the first `MAX_NAME_LEN`
/// bytes, and after these bytes or at the end where none of them is zero.
pub proof fn lemma_name_end_is_first_zero(raw: Seq<u8>)
    ensures
        0 <= name_end(raw) <= raw.len(),
        name_end(raw) <= MAX_NAME_LEN,
        forall|k: int| 0 <= k < name_end(raw) ==> raw[k] != 0,
        name_end(raw) == raw.len() || name_end(raw) == MAX_NAME_LEN || raw[name_end(raw)] == 0,
    decreases raw.len(),
{
    if raw.len() > 0 {
        let front = raw.drop_last();
        lemma_name_end_is_first_zero(front);
        assert forall|k: int| 0 <= k < name_end(raw) implies raw[k] != 0 by {
            if k < front.len() {
                assert(front[k] == raw[k]);
            }
        }
    }
}

/// Every byte is the code of an ASCII character.
pub open spec fn is_ascii(bytes: Seq<u8>) -> bool {
    forall|i: int| 0 <= i < bytes.len() ==> bytes[i] < 0x80
}

/// The characters whose codes the bytes are.
pub open spec fn ascii_text(bytes: Seq<u8>) -> Seq<char> {
    Seq::new(bytes.len(), |i: int| bytes[i] as char)
}

/// ASCII bytes are UTF-8, and the only text that they encode is the text
/// of the characters whose codes they are.
pub proof fn lemma_ascii_is_text(bytes: Seq<u8>)
    requires
        is_ascii(bytes),
    ensures
        vstd::utf8::valid_utf8(bytes),
        vstd::utf8::encode_utf8(ascii_text(bytes)) == bytes,
        forall|text: Seq<char>| vstd::utf8::encode_utf8(text) == bytes ==> text == ascii_text(bytes),
{
    let chars = ascii_text(bytes);
    vstd::utf8::is_ascii_chars_encode_utf8(chars);
    assert(vstd::utf8::encode_utf8(chars) =~= bytes);
    vstd::utf8::encode_utf8_valid_utf8(chars);
    vstd::utf8::encode_utf8_decode_utf8(chars);
    assert forall|text: Seq<char>| vstd::utf8::encode_utf8(text) == bytes implies text == chars by {
        vstd::utf8::encode_utf8_decode_utf8(text);
    }
}

/// Reads the name of a dimension from the bytes found at its label. Bytes
/// that are UTF-8 come out as the text that they encode, ASCII bytes as the
/// characters that they stand for. Bytes that are not text never fail the
/// call: they come out as the replacement character.
pub fn decode_name(raw: &[u8]) -> (name: String)
    ensures
        name@ == utf8_lossy(name_bytes(raw@)),
        vstd::utf8::valid_utf8(name_bytes(raw@)) ==> name@ == vstd::utf8::decode_utf8(
            name_bytes(raw@),
        ),
        is_ascii(name_bytes(raw@)) ==> name@ == ascii_text(name_bytes(raw@)),
{
    let bytes: Vec<u8> = name_bytes_of(raw);
    let name: String = lossy_text(bytes.as_slice());
    proof {
        if is_ascii(bytes@) {
            lemma_ascii_is_text(bytes@);
        }
        if vstd::utf8::valid_utf8(bytes@) {
            vstd::utf8::encode_utf8_decode_utf8(name@);
        }
    }
    name
}

/// What became of one bound of a range value.
#[derive(Clone, Copy, Debug, PartialEq, Eq, Structural)]
pub struct BoundChange {
    /// The bound that the binary supplied.
    pub supplied: i16,
    /// The bound that holds: the configured one, or the supplied one where
    /// none is configured.
    pub chosen: i16,
    /// The chosen bound, aligned.
    pub aligned: i16,
}

impl BoundChange {
    /// The chosen bound was not a multiple of 16.
    pub open spec fn misaligned_spec(self) -> bool {
        self.chosen as int % 16 != 0
    }

    /// The bound handed on differs from the one that the binary supplied.
    pub open spec fn changed_spec(self) -> bool {
        self.supplied != self.aligned
    }

    /// Whether the chosen bound had to be aligned, which is worth a
    /// warning.
    pub fn misaligned(&self) -> (yes: bool)
        ensures
            yes == self.misaligned_spec(),
    {
        self.chosen % 16 != 0
    }

    /// Whether the bound handed on differs from the supplied one, which is
    /// worth a note.
    pub fn changed(&self) -> (yes: bool)
        ensures
            yes == self.changed_spec(),
    {
        self.supplied != self.aligned
    }
}

/// The outcome of the replacement routine's computation.
#[derive(Clone, Copy, Debug, PartialEq, Eq, Structural)]
pub struct RangeChange {
    pub low: BoundChange,
    pub high: BoundChange,
    /// The range value to hand on.
    pub range: i32,
}

/// The outcome for the range value `range` under the limits `limit`: each
/// bound is the configured one where there are limits and the supplied one
/// where there are none, the lower bound aligned downwards and the upper
/// bound upwards, and the two packed again.
pub open spec fn override_spec(range: i32, limit: Option<BuildLimit>) -> RangeChange {
    let supplied_high = high_half(range as int) as i16;
    let supplied_low = low_half(range as int) as i16;
    let chosen_low = match limit {
        Some(l) => l.min,
        None => supplied_low,
    };
    let chosen_high = match limit {
        Some(l) => l.max,
        None => supplied_high,
    };
    let low = align_spec(chosen_low as int, false) as i16;
    let high = ceiling_spec(chosen_high) as i16;
    RangeChange {
        low: BoundChange { supplied: supplied_low, chosen: chosen_low, aligned: low },
        high: BoundChange { supplied: supplied_high, chosen: chosen_high, aligned: high },
        range: combine_spec(high, low) as i32,
    }
}

/// Whatever the binary and the configuration supply, the range value
/// handed on unpacks to the two aligned bounds, and these are multiples of
/// 16: the lower one not above the chosen lower bound, the upper one not
/// below the chosen upper bound unless that lies beyond the last multiple
/// of 16.
pub proof fn lemma_override_is_aligned(range: i32, limit: Option<BuildLimit>)
    ensures
        ({
            let change = override_spec(range, limit);
            &&& high_half(change.range as int) == change.high.aligned
            &&& low_half(change.range as int) == change.low.aligned
            &&& change.low.aligned as int % 16 == 0
            &&& change.high.aligned as int % 16 == 0
            &&& change.low.chosen - 16 < change.low.aligned <= change.low.chosen
            &&& change.high.chosen <= crate::codec::MAX_ALIGNABLE ==> change.high.chosen
                <= change.high.aligned < change.high.chosen + 16
            &&& !change.low.misaligned_spec() ==> change.low.aligned == change.low.chosen
            &&& !change.high.misaligned_spec() ==> change.high.aligned == change.high.chosen
        }),
{
}

/// Computes the range value to hand on in place of `range`, given the
/// limits configured for the dimension, if any.
pub fn override_range(range: i32, limit: Option<BuildLimit>) -> (change: RangeChange)
    ensures
        change == override_spec(range, limit),
{
    let (supplied_high, supplied_low) = split_hex(range);
    let (chosen_low, chosen_high) = match limit {
        Some(l) => (l.min, l.max),
        None => (supplied_low, supplied_high),
    };
    let low: i16 = align_floor(chosen_low);
    let high: i16 = align_ceiling(chosen_high);
    RangeChange {
        low: BoundChange { supplied: supplied_low, chosen: chosen_low, aligned: low },
        high: BoundChange { supplied: supplied_high, chosen: chosen_high, aligned: high },
        range: combine_hex(high, low),
    }
}

/// Computes the range value to hand on for the dimension of the given
/// name under the configured limits.
pub fn change_range(range: i32, name: &String, limits: &[OverrideEntry]) -> (change: RangeChange)
    ensures
        change == override_spec(range, lookup_spec(limits@, name@)),
{
    override_range(range, lookup(limits, name))
}

/// The replacement routine's computation from what a call supplies: the
/// range value and the bytes found at the dimension's label. Returns the
/// name read from the label and the outcome for the range value.
pub fn change_labelled_range(range: i32, label: &[u8], limits: &[OverrideEntry]) -> (outcome: (
    String,
    RangeChange,
))
    ensures
        outcome.0@ == utf8_lossy(name_bytes(label@)),
        is_ascii(name_bytes(label@)) ==> outcome.0@ == ascii_text(name_bytes(label@)),
        outcome.1 == override_spec(range, lookup_spec(limits@, outcome.0@)),
{
    let name: String = decode_name(label);
    let change: RangeChange = change_range(range, &name, limits);
    (name, change)
}

} // verus!
