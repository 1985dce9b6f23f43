//! The scanner for a variable-width instruction set. Instruction lengths,
//! mnemonics and immediates come from the `iced_x86` decoder, which is
//! shown one instruction's bytes at a time; which instructions count as
//! return, marker and prologue is decided here.

use vstd::prelude::*;
use vstd::slice::{slice_subrange, slice_to_vec};
use crate::bytes::address_of;
use crate::scanner::{function_starts, run, InsnKind, ScanState, Site};

verus! {

/// The immediate whose bits are the known constant.
pub const TARGET_IMMEDIATE: u64 = 0x4210_0000;

/// The mode of the processor that the code was made for.
#[derive(Clone, Copy, Debug, PartialEq, Eq, Structural)]
pub enum Bitness {
    Bits16,
    Bits32,
    Bits64,
}

/// Which instruction opens a function on the target platform.
#[derive(Clone, Copy, Debug, PartialEq, Eq, Structural)]
pub enum PrologueRule {
    /// A move right after a return, as on 64-bit Windows.
    MoveAfterReturn,
    /// A push right after a return, as elsewhere.
    PushAfterReturn,
}

/// The mnemonics that the scan tells apart.
#[derive(Clone, Copy, Debug, PartialEq, Eq, Structural)]
pub enum Operation {
    Ret,
    Mov,
    Push,
    Other,
}

/// What the scan reads of one decoded instruction.
#[derive(Clone, Copy, Debug, PartialEq, Eq, Structural)]
pub struct DecodedInsn {
    /// The number of bytes that the instruction takes.
    pub len: usize,
    pub operation: Operation,
    /// The value of the second operand, where that is an immediate.
    pub immediate: Option<u64>,
}

/// Why a scan could not be made.
#[derive(Clone, Copy, Debug, PartialEq, Eq, Structural)]
pub enum ScanError {
    /// The decoder did not accept the code region.
    DecoderUnavailable,
    /// The code region reaches past the end of the address space.
    RegionWraps,
}

/// The most bytes that one instruction takes, and the most that the
/// decoder reads for one.
pub const MAX_INSN_LEN: usize = 15;

/// The distance between the addresses that the decoder's arithmetic must
/// not work across: it takes lengths from addresses cut to 32 bits.
pub const ADDRESS_SPAN: u64 = 0x1_0000_0000;

/// The instruction that `iced_x86` decodes from the start of `window`, in
/// the given bitness and without its check for invalid encodings.
pub uninterp spec fn x86_insn(bits: u32, window: Seq<u8>) -> DecodedInsn;

/// The bytes that the decoder may read for the instruction at offset
/// `pos`: the next `MAX_INSN_LEN` bytes, or those that are left.
pub open spec fn window_at(data: Seq<u8>, pos: int) -> Seq<u8> {
    if pos + MAX_INSN_LEN <= data.len() {
        data.subrange(pos, pos + MAX_INSN_LEN)
    } else {
        data.subrange(pos, data.len() as int)
    }
}

/// Bytes of this number from this address on reach to a multiple of
/// `ADDRESS_SPAN` or across it.
pub open spec fn crosses_span_spec(address: usize, len: usize) -> bool {
    address as int % (ADDRESS_SPAN as int) + len >= ADDRESS_SPAN
}

/// Tests whether `len` bytes from `address` on reach to a multiple of
/// `ADDRESS_SPAN` or across it.
pub fn crosses_span(address: usize, len: usize) -> (yes: bool)
    ensures
        yes == crosses_span_spec(address, len),
{
    let low: u64 = address as u64 % ADDRESS_SPAN;
    len as u64 >= ADDRESS_SPAN - low
}

impl Bitness {
    pub open spec fn bits_spec(self) -> u32 {
        match self {
            Bitness::Bits16 => 16,
            Bitness::Bits32 => 32,
            Bitness::Bits64 => 64,
        }
    }

    /// The number of bits, as the decoder takes it.
    pub fn bits(self) -> (n: u32)
        ensures
            n == self.bits_spec(),
    {
        match self {
            Bitness::Bits16 => 16,
            Bitness::Bits32 => 32,
            Bitness::Bits64 => 64,
        }
    }
}

/// What a decoded instruction means to the scan under `rule`.
///
/// A return is a return everywhere. A move is a marker where its immediate
/// is the known constant. Under `MoveAfterReturn` every move is also a
/// prologue, under `PushAfterReturn` every push is.
pub open spec fn classify_insn_spec(insn: DecodedInsn, rule: PrologueRule) -> InsnKind {
    match insn.operation {
        Operation::Ret => InsnKind::Return,
        Operation::Mov => {
            let marker = insn.immediate == Some(TARGET_IMMEDIATE);
            match rule {
                PrologueRule::MoveAfterReturn => if marker {
                    InsnKind::PrologueOrMarker
                } else {
                    InsnKind::Prologue
                },
                PrologueRule::PushAfterReturn => if marker {
                    InsnKind::Marker
                } else {
                    InsnKind::Other
                },
            }
        },
        Operation::Push => match rule {
            PrologueRule::MoveAfterReturn => InsnKind::Other,
            PrologueRule::PushAfterReturn => InsnKind::Prologue,
        },
        Operation::Other => InsnKind::Other,
    }
}

/// Classifies one decoded instruction.
pub fn classify_insn(insn: &DecodedInsn, rule: PrologueRule) -> (kind: InsnKind)
    ensures
        kind == classify_insn_spec(*insn, rule),
{
    match insn.operation {
        Operation::Ret => InsnKind::Return,
        Operation::Mov => {
            let marker: bool = match insn.immediate {
                Some(value) => value == TARGET_IMMEDIATE,
                None => false,
            };
            match rule {
                PrologueRule::MoveAfterReturn => if marker {
                    InsnKind::PrologueOrMarker
                } else {
                    InsnKind::Prologue
                },
                PrologueRule::PushAfterReturn => if marker {
                    InsnKind::Marker
                } else {
                    InsnKind::Other
                },
            }
        },
        Operation::Push => match rule {
            PrologueRule::MoveAfterReturn => InsnKind::Other,
            PrologueRule::PushAfterReturn => InsnKind::Prologue,
        },
        Operation::Other => InsnKind::Other,
    }
}

/// The instructions of a code region that starts at address `base`, from
/// offset `pos` on: the instruction decoded from the window at `pos`, then
/// those from the offset behind it. The walk ends with the region, or with
/// an instruction whose length is zero or leads past the end.
pub open spec fn decoded_sites(
    bits: u32,
    rule: PrologueRule,
    data: Seq<u8>,
    base: usize,
    pos: int,
) -> Seq<Site>
    decreases data.len() - pos,
{
    if 0 <= pos < data.len() {
        let insn = x86_insn(bits, window_at(data, pos));
        let site = Site { addr: (base + pos) as usize, kind: classify_insn_spec(insn, rule) };
        if 0 < insn.len <= data.len() - pos {
            seq![site] + decoded_sites(bits, rule, data, base, pos + insn.len)
        } else {
            seq![site]
        }
    } else {
        Seq::empty()
    }
}

/// Decodes the instruction at the start of `window` with
/// `iced_x86::Decoder`, made by `try_new` with `NO_INVALID_CHECK` and read
/// by `decode`. The instruction's `len`, the kind of its `mnemonic` and its
/// `try_immediate(1)` are handed out as plain values.
///
/// Trusted: what comes back is the decoder's answer for these bytes.
/// `None` stands for a decoder that refused the slice. A decoder is made
/// anew for every instruction, so that the answer rests on nothing but the
/// bytes and the bitness.
///
/// The decoder takes an instruction's length from addresses cut to 32
/// bits, and built with overflow checks it stops the process where these
/// wrap. Where the bytes lie is no property of theirs and cannot be asked
/// for here: `decode_window`, the one caller, hands over only bytes that it
/// has found to lie short of a multiple of `ADDRESS_SPAN`.
#[verifier::external_body]
fn decode_first(bits: u32, window: &[u8]) -> (decoded: Option<DecodedInsn>)
    ensures
        decoded matches Some(insn) ==> insn == x86_insn(bits, window@),
{
    let options = iced_x86::DecoderOptions::NO_INVALID_CHECK;
    let mut decoder = iced_x86::Decoder::try_new(bits, window, options).ok()?;
    let insn = decoder.decode();
    let operation = match insn.mnemonic() {
        iced_x86::Mnemonic::Ret => Operation::Ret,
        iced_x86::Mnemonic::Mov => Operation::Mov,
        iced_x86::Mnemonic::Push => Operation::Push,
        _ => Operation::Other,
    };
    Some(DecodedInsn { len: insn.len(), operation, immediate: insn.try_immediate(1).ok() })
}

/// Decodes the instruction at the start of `window` where the decoder can
/// work on it: from where the bytes lie if they end short of a multiple of
/// `ADDRESS_SPAN`, else from a copy of them that does. `None` where the
/// copy does not either, or the decoder refuses the bytes.
fn decode_window(bits: u32, window: &[u8]) -> (decoded: Option<DecodedInsn>)
    ensures
        decoded matches Some(insn) ==> insn == x86_insn(bits, window@),
{
    if !crosses_span(address_of(window), window.len()) {
        return decode_first(bits, window);
    }
    let copy: Vec<u8> = slice_to_vec(window);
    if crosses_span(address_of(copy.as_slice()), copy.len()) {
        return None;
    }
    decode_first(bits, copy.as_slice())
}

/// Scans a code region of variable-width instructions that starts at
/// address `base`. Returns the marker site, if there is one, and the
/// function starts, or an error where the decoder refuses the region.
pub fn scan_variable_width(data: &[u8], base: usize, bitness: Bitness, rule: PrologueRule) -> (found:
    Result<(Option<usize>, Vec<usize>), ScanError>)
    requires
        base + data@.len() <= usize::MAX,
    ensures
        found matches Ok(pair) ==> {
            let sites = decoded_sites(bitness.bits_spec(), rule, data@, base, 0);
            pair.0 == run(sites).best_marker && pair.1@ == function_starts(sites)
        },
        found is Err ==> found == Err::<(Option<usize>, Vec<usize>), ScanError>(
            ScanError::DecoderUnavailable,
        ),
        data@.len() == 0 ==> found is Ok,
{
    let bits: u32 = bitness.bits();
    let ghost all = decoded_sites(bits, rule, data@, base, 0);
    let ghost mut done: Seq<Site> = Seq::empty();
    let mut state: ScanState = ScanState::new();
    let mut starts: Vec<usize> = Vec::new();
    let mut pos: usize = 0;
    let mut open: bool = true;
    while open && pos < data.len()
        invariant
            pos <= data@.len(),
            base + data@.len() <= usize::MAX,
            all == decoded_sites(bits, rule, data@, base, 0),
            open ==> all == done + decoded_sites(bits, rule, data@, base, pos as int),
            !open ==> all == done,
            state == run(done),
            starts@ == function_starts(done),
        decreases data@.len() - pos + if open { 1int } else { 0int },
    {
        let end: usize = if data.len() - pos > MAX_INSN_LEN {
            pos + MAX_INSN_LEN
        } else {
            data.len()
        };
        let insn: DecodedInsn = match decode_window(bits, slice_subrange(data, pos, end)) {
            Some(insn) => insn,
            None => {
                return Err(ScanError::DecoderUnavailable);
            },
        };
        let site: Site = Site { addr: base + pos, kind: classify_insn(&insn, rule) };
        proof {
            assert(done.push(site).drop_last() =~= done);
            done = done.push(site);
        }
        if state.observe(site) {
            starts.push(site.addr);
        }
        if 0 < insn.len && insn.len <= data.len() - pos {
            pos = pos + insn.len;
        } else {
            open = false;
        }
    }
    Ok((state.best_marker, starts))
}

} // verus!
