//! Reading of little-endian numbers from bytes, comparisons on byte
//! strings, as file names and section names need them, and the address at
//! which bytes lie in memory.

use vstd::prelude::*;

verus! {

/// The byte of the path separator.
pub const SLASH: u8 = 0x2F;

/// The word made of four bytes, the first being the least significant.
pub open spec fn word_of(b0: u8, b1: u8, b2: u8, b3: u8) -> u32 {
    (b0 + b1 * 0x100 + b2 * 0x1_0000 + b3 * 0x100_0000) as u32
}

/// The word that the four bytes of `data` from offset `at` make.
pub open spec fn word_at(data: Seq<u8>, at: int) -> u32 {
    word_of(data[at], data[at + 1], data[at + 2], data[at + 3])
}

/// The half word made of two bytes, the first being the less significant.
pub open spec fn half_of(b0: u8, b1: u8) -> u16 {
    (b0 + b1 * 0x100) as u16
}

/// The half word that the two bytes of `data` from offset `at` make.
pub open spec fn half_at(data: Seq<u8>, at: int) -> u16 {
    half_of(data[at], data[at + 1])
}

/// Assembles a little-endian word.
pub fn le_word(b0: u8, b1: u8, b2: u8, b3: u8) -> (word: u32)
    ensures
        word == word_of(b0, b1, b2, b3),
{
    let word: u32 = (b0 as u32) | ((b1 as u32) << 8) | ((b2 as u32) << 16) | ((b3 as u32) << 24);
    assert(word == b0 + b1 * 0x100 + b2 * 0x1_0000 + b3 * 0x100_0000) by (bit_vector)
        requires
            word == (b0 as u32) | ((b1 as u32) << 8) | ((b2 as u32) << 16) | ((b3 as u32) << 24),
    ;
    word
}

/// Assembles a little-endian half word.
pub fn le_half(b0: u8, b1: u8) -> (half: u16)
    ensures
        half == half_of(b0, b1),
{
    let half: u16 = (b0 as u16) | ((b1 as u16) << 8);
    assert(half == b0 + b1 * 0x100) by (bit_vector)
        requires
            half == (b0 as u16) | ((b1 as u16) << 8),
    ;
    half
}

/// The address at which the bytes lie in memory, from `<[u8]>::as_ptr`.
///
/// Trusted, and nothing is claimed: an address is no property of the
/// bytes, and two slices of the same bytes may lie at different addresses.
#[verifier::external_body]
pub(crate) fn address_of(bytes: &[u8]) -> (address: usize) {
    bytes.as_ptr() as usize
}

/// `s` ends with the bytes of `suffix`.
pub open spec fn ends_with_spec(s: Seq<u8>, suffix: Seq<u8>) -> bool {
    suffix.len() <= s.len() && s.skip(s.len() - suffix.len()) == suffix
}

/// `s` begins with the bytes of `prefix`.
pub open spec fn starts_with_spec(s: Seq<u8>, prefix: Seq<u8>) -> bool {
    prefix.len() <= s.len() && s.take(prefix.len() as int) == prefix
}

/// The offset behind the last separator of `name`, 0 where it has none.
pub open spec fn basename_start(name: Seq<u8>) -> int
    decreases name.len(),
{
    if name.len() == 0 {
        0
    } else if name.last() == SLASH {
        name.len() as int
    } else {
        basename_start(name.drop_last())
    }
}

/// What follows the last separator of `name`; all of it where it has none.
pub open spec fn basename(name: Seq<u8>) -> Seq<u8> {
    name.skip(basename_start(name))
}

/// The separator right before the base name is the last one: the base
/// name holds no separator, and it begins the name or follows a separator.
pub proof fn lemma_basename_follows_last_separator(name: Seq<u8>)
    ensures
        0 <= basename_start(name) <= name.len(),
        basename_start(name) > 0 ==> name[basename_start(name) - 1] == SLASH,
        !basename(name).contains(SLASH),
    decreases name.len(),
{
    if name.len() > 0 && name.last() != SLASH {
        let front = name.drop_last();
        lemma_basename_follows_last_separator(front);
        let at = basename_start(name);
        assert forall|k: int| 0 <= k < basename(name).len() implies basename(name)[k] != SLASH by {
            if at + k < front.len() {
                assert(basename(front)[k] == name[at + k]);
            }
        }
    }
}

/// Whether `a` reaches to offset `from` and its bytes from there on are
/// exactly those of `b`.
pub fn tail_equals(a: &[u8], from: usize, b: &[u8]) -> (same: bool)
    ensures
        same == (from <= a@.len() && a@.skip(from as int) == b@),
{
    let n: usize = a.len();
    if from > n || n - from != b.len() {
        return false;
    }
    let mut i: usize = 0;
    while i < b.len()
        invariant
            from <= n == a@.len(),
            n - from == b@.len(),
            i <= b@.len(),
            forall|k: int| 0 <= k < i ==> a@[from + k] == b@[k],
        decreases b@.len() - i,
    {
        if a[from + i] != b[i] {
            return false;
        }
        i = i + 1;
    }
    assert(a@.skip(from as int) =~= b@);
    true
}

/// Whether two byte strings are the same.
pub fn equals(a: &[u8], b: &[u8]) -> (same: bool)
    ensures
        same == (a@ == b@),
{
    assert(a@.skip(0) =~= a@);
    tail_equals(a, 0, b)
}

/// Whether `s` ends with `suffix`.
pub fn ends_with(s: &[u8], suffix: &[u8]) -> (yes: bool)
    ensures
        yes == ends_with_spec(s@, suffix@),
{
    if suffix.len() > s.len() {
        return false;
    }
    tail_equals(s, s.len() - suffix.len(), suffix)
}

/// Whether `s` begins with `prefix`.
pub fn starts_with(s: &[u8], prefix: &[u8]) -> (yes: bool)
    ensures
        yes == starts_with_spec(s@, prefix@),
{
    if prefix.len() > s.len() {
        return false;
    }
    let mut i: usize = 0;
    while i < prefix.len()
        invariant
            prefix@.len() <= s@.len(),
            i <= prefix@.len(),
            forall|k: int| 0 <= k < i ==> s@[k] == prefix@[k],
        decreases prefix@.len() - i,
    {
        if s[i] != prefix[i] {
            return false;
        }
        i = i + 1;
    }
    assert(s@.take(prefix@.len() as int) =~= prefix@);
    true
}

/// Whether `byte` occurs in `s`.
pub fn contains(s: &[u8], byte: u8) -> (yes: bool)
    ensures
        yes == s@.contains(byte),
{
    let mut i: usize = 0;
    while i < s.len()
        invariant
            i <= s@.len(),
            forall|k: int| 0 <= k < i ==> s@[k] != byte,
        decreases s@.len() - i,
    {
        if s[i] == byte {
            return true;
        }
        i = i + 1;
    }
    false
}

/// The offset at which the base name of `name` begins.
pub fn basename_offset(name: &[u8]) -> (at: usize)
    ensures
        at == basename_start(name@),
        at <= name@.len(),
{
    let mut i: usize = name.len();
    assert(name@.take(i as int) =~= name@);
    while i > 0 && name[i - 1] != SLASH
        invariant
            i <= name@.len(),
            basename_start(name@) == basename_start(name@.take(i as int)),
        decreases i,
    {
        assert(name@.take(i as int).drop_last() =~= name@.take(i - 1));
        i = i - 1;
    }
    i
}

} // verus!
