//! The scanner for a fixed-width instruction set: every instruction is one
//! little-endian 32-bit word at a 4-byte offset, told apart by masked
//! comparison.

use vstd::prelude::*;
use crate::bytes::{le_word, word_at};
use crate::scanner::{function_starts, run, InsnKind, ScanState, Site};

verus! {

/// Bits that identify a return, whatever register it goes through.
pub const RETURN_MASK: u32 = 0xFFFF_FC1F;

pub const RETURN_PATTERN: u32 = 0xD65F_0000;

/// Bits that identify the load of the upper half of the known constant into
/// any 32-bit register.
pub const MARKER_MASK: u32 = 0xFFFF_FFE0;

pub const MARKER_PATTERN: u32 = 0x52A8_4200;

/// Bits that identify a subtraction of an immediate, the shape of a stack
/// adjustment at a function's entry.
pub const STACK_ADJUST_MASK: u32 = 0xFF00_0000;

pub const STACK_ADJUST_PATTERN: u32 = 0xD100_0000;

/// The bytes of one instruction.
pub const WORD_LEN: usize = 4;

/// What a word means to the scan. The three patterns differ in their top
/// byte, so that a word matches at most one of them.
pub open spec fn classify_word_spec(word: u32) -> InsnKind {
    if word & RETURN_MASK == RETURN_PATTERN {
        InsnKind::Return
    } else if word & MARKER_MASK == MARKER_PATTERN {
        InsnKind::Marker
    } else if word & STACK_ADJUST_MASK == STACK_ADJUST_PATTERN {
        InsnKind::Prologue
    } else {
        InsnKind::Other
    }
}

/// A word matches at most one of the three patterns, so that the order in
/// which they are tried does not matter.
pub proof fn lemma_patterns_exclude_each_other(word: u32)
    ensures
        !(word & RETURN_MASK == RETURN_PATTERN && word & MARKER_MASK == MARKER_PATTERN),
        !(word & RETURN_MASK == RETURN_PATTERN && word & STACK_ADJUST_MASK
            == STACK_ADJUST_PATTERN),
        !(word & MARKER_MASK == MARKER_PATTERN && word & STACK_ADJUST_MASK
            == STACK_ADJUST_PATTERN),
{
    assert(!(word & 0xFFFF_FC1F == 0xD65F_0000 && word & 0xFFFF_FFE0 == 0x52A8_4200))
        by (bit_vector);
    assert(!(word & 0xFFFF_FC1F == 0xD65F_0000 && word & 0xFF00_0000 == 0xD100_0000))
        by (bit_vector);
    assert(!(word & 0xFFFF_FFE0 == 0x52A8_4200 && word & 0xFF00_0000 == 0xD100_0000))
        by (bit_vector);
}

/// The instructions of a code region that starts at address `base`: one
/// for each whole word of `data`. Bytes after the last whole word are left
/// out.
pub open spec fn word_sites(data: Seq<u8>, base: usize) -> Seq<Site> {
    Seq::new(
        (data.len() / 4) as nat,
        |i: int| Site { addr: (base + 4 * i) as usize, kind: classify_word_spec(word_at(data, 4 * i)) },
    )
}

/// Classifies one instruction word.
pub fn classify_word(word: u32) -> (kind: InsnKind)
    ensures
        kind == classify_word_spec(word),
{
    if word & RETURN_MASK == RETURN_PATTERN {
        InsnKind::Return
    } else if word & MARKER_MASK == MARKER_PATTERN {
        InsnKind::Marker
    } else if word & STACK_ADJUST_MASK == STACK_ADJUST_PATTERN {
        InsnKind::Prologue
    } else {
        InsnKind::Other
    }
}

/// Scans a code region of fixed-width instructions that starts at address
/// `base`. Returns the marker site, if there is one, and the function
/// starts.
pub fn scan_fixed_width(data: &[u8], base: usize) -> (found: (Option<usize>, Vec<usize>))
    requires
        base + data@.len() <= usize::MAX,
    ensures
        found.0 == run(word_sites(data@, base)).best_marker,
        found.1@ == function_starts(word_sites(data@, base)),
{
    let ghost sites = word_sites(data@, base);
    let count: usize = data.len() / WORD_LEN;
    let mut state: ScanState = ScanState::new();
    let mut starts: Vec<usize> = Vec::new();
    let mut i: usize = 0;
    while i < count
        invariant
            i <= count,
            count == data@.len() / 4,
            base + data@.len() <= usize::MAX,
            sites == word_sites(data@, base),
            state == run(sites.take(i as int)),
            starts@ == function_starts(sites.take(i as int)),
        decreases count - i,
    {
        let at: usize = i * WORD_LEN;
        let word: u32 = le_word(data[at], data[at + 1], data[at + 2], data[at + 3]);
        let site: Site = Site { addr: base + at, kind: classify_word(word) };
        proof {
            let next = sites.take(i + 1);
            assert(next.drop_last() =~= sites.take(i as int));
        }
        if state.observe(site) {
            starts.push(site.addr);
        }
        i = i + 1;
    }
    assert(sites.take(i as int) =~= sites);
    (state.best_marker, starts)
}

} // verus!
