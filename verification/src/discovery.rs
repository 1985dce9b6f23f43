//! The discovery pipeline: scan the code region, take the marker site, and
//! resolve it to the start of the function that encloses it.

use vstd::prelude::*;
use crate::fixed_width::{scan_fixed_width, word_sites};
use crate::resolver::{
    find_max_less_than, is_floor_predecessor, lemma_strictly_ascending_is_ascending, none_below,
    strictly_ascending,
};
use crate::scanner::{
    addresses_ascend, drawn_from, function_starts, is_closest_pair, lemma_function_starts_ascend,
    lemma_marker_is_closest_pair, marker_hits, run, Site,
};
use crate::variable_width::{
    decoded_sites, scan_variable_width, Bitness, PrologueRule, ScanError,
};

verus! {

/// The instruction set of the code region, and with it the way to scan it.
#[derive(Clone, Copy, Debug, PartialEq, Eq, Structural)]
pub enum ScanMode {
    /// Instructions of one 32-bit word each.
    FixedWidth,
    /// Instructions of varying length, decoded in the given bitness, with
    /// the platform's rule for what opens a function.
    VariableWidth { bitness: Bitness, rule: PrologueRule },
}

/// Why no function was found to hook.
#[derive(Clone, Copy, Debug, PartialEq, Eq, Structural)]
pub enum DiscoveryError {
    /// The code region could not be scanned.
    ScanFailed,
    /// The region holds no two marker occurrences.
    MarkerNotFound,
    /// No function start lies below the marker.
    EnclosingFunctionNotFound,
}

impl DiscoveryError {
    /// The error in words, as the log shows it.
    pub fn message(&self) -> (text: &'static str)
        ensures
            text@ == match *self {
                DiscoveryError::ScanFailed => "Cannot decode the code of the game"@,
                DiscoveryError::MarkerNotFound => "Cannot find the water mob cap"@,
                DiscoveryError::EnclosingFunctionNotFound =>
                    "Cannot get the function where water mob cap is located"@,
            },
    {
        match self {
            DiscoveryError::ScanFailed => "Cannot decode the code of the game",
            DiscoveryError::MarkerNotFound => "Cannot find the water mob cap",
            DiscoveryError::EnclosingFunctionNotFound =>
                "Cannot get the function where water mob cap is located",
        }
    }
}

/// The number of bytes shown of a function's entry.
pub const PREVIEW_LEN: usize = 10;

/// The classified instructions of a code region at address `base`.
pub open spec fn sites_of(mode: ScanMode, data: Seq<u8>, base: usize) -> Seq<Site> {
    match mode {
        ScanMode::FixedWidth => word_sites(data, base),
        ScanMode::VariableWidth { bitness, rule } => decoded_sites(
            bitness.bits_spec(),
            rule,
            data,
            base,
            0,
        ),
    }
}

/// Every instruction lies in the region of `len` bytes at `base`, from
/// offset `from` on.
pub open spec fn sites_within(sites: Seq<Site>, base: usize, from: int, len: int) -> bool {
    forall|i: int| 0 <= i < sites.len() ==> base + from <= (#[trigger] sites[i]).addr < base + len
}

/// The instructions decoded from offset `pos` on lie in the region, at or
/// behind `pos`, at growing addresses.
pub proof fn lemma_decoded_sites_ascend(
    bits: u32,
    rule: PrologueRule,
    data: Seq<u8>,
    base: usize,
    pos: int,
)
    requires
        base + data.len() <= usize::MAX,
        0 <= pos,
    ensures
        addresses_ascend(decoded_sites(bits, rule, data, base, pos)),
        sites_within(decoded_sites(bits, rule, data, base, pos), base, pos, data.len() as int),
    decreases data.len() - pos,
{
    if pos < data.len() {
        let insn = crate::variable_width::x86_insn(
            bits,
            crate::variable_width::window_at(data, pos),
        );
        if 0 < insn.len <= data.len() - pos {
            lemma_decoded_sites_ascend(bits, rule, data, base, pos + insn.len);
        }
    }
}

/// The instructions of a code region lie in the region, at growing
/// addresses.
pub proof fn lemma_sites_ascend(mode: ScanMode, data: Seq<u8>, base: usize)
    requires
        base + data.len() <= usize::MAX,
    ensures
        addresses_ascend(sites_of(mode, data, base)),
        sites_within(sites_of(mode, data, base), base, 0, data.len() as int),
{
    match mode {
        ScanMode::FixedWidth => {},
        ScanMode::VariableWidth { bitness, rule } => {
            lemma_decoded_sites_ascend(bitness.bits_spec(), rule, data, base, 0);
        },
    }
}

/// In a code region that fits the address space, the marker of a scan is
/// the later site of the closest pair of successive marker occurrences,
/// and there is none where the region holds fewer than two occurrences.
pub proof fn lemma_scan_marker_is_closest_pair(mode: ScanMode, data: Seq<u8>, base: usize)
    requires
        base + data.len() <= usize::MAX,
    ensures
        ({
            let sites = sites_of(mode, data, base);
            let hits = marker_hits(sites);
            &&& strictly_ascending(hits)
            &&& hits.len() < 2 ==> run(sites).best_marker is None
            &&& hits.len() >= 2 ==> exists|k: int|
                #![trigger hits[k]]
                is_closest_pair(hits, k) && run(sites).best_marker == Some(hits[k])
        }),
{
    lemma_sites_ascend(mode, data, base);
    lemma_marker_is_closest_pair(sites_of(mode, data, base));
}

/// Scans a code region at address `base` for the marker site and the
/// function starts, in the way that the instruction set asks for.
///
/// A region that reaches past the end of the address space is refused. A
/// region of fixed-width instructions that does not is always scanned; one
/// of variable-width instructions is, unless the decoder refuses it.
pub fn find_water_mob_cap_and_fn_starts(data: &[u8], base: usize, mode: ScanMode) -> (found: Result<
    (Option<usize>, Vec<usize>),
    ScanError,
>)
    ensures
        found matches Ok(pair) ==> pair.0 == run(sites_of(mode, data@, base)).best_marker
            && pair.1@ == function_starts(sites_of(mode, data@, base)),
        found matches Ok(pair) ==> strictly_ascending(pair.1@),
        found == Err::<(Option<usize>, Vec<usize>), ScanError>(ScanError::RegionWraps) <==> base
            + data@.len() > usize::MAX,
        found is Err ==> mode is VariableWidth || base + data@.len() > usize::MAX,
        data@.len() == 0 ==> found is Ok,
{
    if base.checked_add(data.len()).is_none() {
        return Err(ScanError::RegionWraps);
    }
    proof {
        lemma_sites_ascend(mode, data@, base);
        lemma_function_starts_ascend(sites_of(mode, data@, base));
    }
    match mode {
        ScanMode::FixedWidth => Ok(scan_fixed_width(data, base)),
        ScanMode::VariableWidth { bitness, rule } => scan_variable_width(data, base, bitness, rule),
    }
}

/// The start of the function to hook, for a marker site and the function
/// starts of a scan: the greatest function start below the marker.
pub fn resolve_hook_target(marker: Option<usize>, starts: &[usize]) -> (target: Result<
    usize,
    DiscoveryError,
>)
    ensures
        marker is None ==> target == Err::<usize, DiscoveryError>(DiscoveryError::MarkerNotFound),
        marker matches Some(m) ==> {
            &&& target matches Ok(addr) ==> addr < m && exists|i: int|
                0 <= i < starts@.len() && starts@[i] == addr
            &&& target is Err ==> target == Err::<usize, DiscoveryError>(
                DiscoveryError::EnclosingFunctionNotFound,
            )
            &&& crate::resolver::ascending(starts@) ==> match target {
                Ok(addr) => is_floor_predecessor(starts@, m, addr),
                Err(_) => none_below(starts@, m),
            }
        },
{
    let m: usize = match marker {
        Some(m) => m,
        None => {
            return Err(DiscoveryError::MarkerNotFound);
        },
    };
    match find_max_less_than(starts, m) {
        Some(addr) => Ok(addr),
        None => Err(DiscoveryError::EnclosingFunctionNotFound),
    }
}

/// Finds the function to hook in a code region at address `base`: the
/// function that encloses the marker site.
///
/// A region that reaches past the end of the address space gives
/// `ScanFailed`, and an empty region gives `MarkerNotFound`. Unless the
/// scan fails, the outcome is decided by the region's instructions alone:
/// the function is found where the scan has a marker and a function start
/// lies below it, and each error tells which of the two is missing.
pub fn locate_hook_target(data: &[u8], base: usize, mode: ScanMode) -> (target: Result<
    usize,
    DiscoveryError,
>)
    ensures
        match target {
            Ok(addr) => {
                &&& base <= addr < base + data@.len()
                &&& run(sites_of(mode, data@, base)).best_marker matches Some(m)
                &&& is_floor_predecessor(function_starts(sites_of(mode, data@, base)), m, addr)
            },
            Err(DiscoveryError::MarkerNotFound) => run(
                sites_of(mode, data@, base),
            ).best_marker is None,
            Err(DiscoveryError::EnclosingFunctionNotFound) => {
                &&& run(sites_of(mode, data@, base)).best_marker matches Some(m)
                &&& none_below(function_starts(sites_of(mode, data@, base)), m)
            },
            Err(DiscoveryError::ScanFailed) => mode is VariableWidth || base + data@.len()
                > usize::MAX,
        },
        base + data@.len() > usize::MAX ==> target == Err::<usize, DiscoveryError>(
            DiscoveryError::ScanFailed,
        ),
        data@.len() == 0 ==> target == Err::<usize, DiscoveryError>(DiscoveryError::MarkerNotFound),
        mode is FixedWidth && base + data@.len() <= usize::MAX ==> target != Err::<
            usize,
            DiscoveryError,
        >(DiscoveryError::ScanFailed),
{
    let (marker, starts) = match find_water_mob_cap_and_fn_starts(data, base, mode) {
        Ok(pair) => pair,
        Err(_) => {
            return Err(DiscoveryError::ScanFailed);
        },
    };
    proof {
        lemma_sites_ascend(mode, data@, base);
        lemma_function_starts_ascend(sites_of(mode, data@, base));
        lemma_strictly_ascending_is_ascending(starts@);
    }
    let target = resolve_hook_target(marker, starts.as_slice());
    proof {
        if let Ok(addr) = target {
            let sites = sites_of(mode, data@, base);
            let i = choose|i: int| 0 <= i < starts@.len() && starts@[i] == addr;
            let j = choose|j: int| 0 <= j < sites.len() && sites[j].addr == starts@[i];
            assert(base <= sites[j].addr < base + data@.len());
        }
    }
    target
}

/// The offsets within a region of `len` bytes at `base` of the first bytes
/// of the function at `addr`: at most `PREVIEW_LEN` of them, and none past
/// the region's end. `None` where `addr` does not lie in the region.
pub fn preview_range(base: usize, len: usize, addr: usize) -> (range: Option<(usize, usize)>)
    ensures
        range is Some <==> base <= addr < base + len,
        range matches Some(r) ==> {
            &&& r.0 == addr - base
            &&& r.1 == if addr - base + PREVIEW_LEN <= len {
                addr - base + PREVIEW_LEN
            } else {
                len as int
            }
            &&& r.0 < r.1 <= len
        },
{
    if addr < base || addr - base >= len {
        return None;
    }
    let from: usize = addr - base;
    let to: usize = if len - from >= PREVIEW_LEN {
        from + PREVIEW_LEN
    } else {
        len
    };
    Some((from, to))
}

} // verus!
