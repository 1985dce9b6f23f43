//! The scan automaton: a single pass over classified instructions that
//! collects candidate function starts and picks the marker site.
//!
//! A function start is a prologue instruction met while the last thing of
//! note was a return. The marker is the later site of the two successive
//! marker occurrences that lie closest together.

use vstd::prelude::*;
use crate::resolver::strictly_ascending;

verus! {

/// What one instruction means to the scan.
#[derive(Clone, Copy, Debug, PartialEq, Eq, Structural)]
pub enum InsnKind {
    /// A return: what follows may be a new function.
    Return,
    /// A load of the known constant.
    Marker,
    /// An instruction that opens a function when it follows a return.
    Prologue,
    /// A load of the known constant by an instruction that also opens a
    /// function when it follows a return; otherwise it counts as a marker.
    PrologueOrMarker,
    /// Anything else.
    Other,
}

/// A classified instruction and the address it stands at.
#[derive(Clone, Copy, Debug, PartialEq, Eq, Structural)]
pub struct Site {
    pub addr: usize,
    pub kind: InsnKind,
}

/// The state threaded through one scan.
#[derive(Clone, Copy, Debug, PartialEq, Eq, Structural)]
pub struct ScanState {
    /// A return was seen and no function start since.
    pub seen_terminator: bool,
    /// The address of the latest marker occurrence.
    pub last_marker_site: Option<usize>,
    /// The later site of the closest pair of successive occurrences so far.
    pub best_marker: Option<usize>,
    /// The distance between the two sites of that pair.
    pub best_gap: usize,
}

impl ScanState {
    /// The state before the first instruction.
    pub open spec fn initial() -> ScanState {
        ScanState {
            seen_terminator: false,
            last_marker_site: None,
            best_marker: None,
            best_gap: usize::MAX,
        }
    }

    /// An instruction of this kind, met in this state, is a function start.
    pub open spec fn opens_function(self, kind: InsnKind) -> bool {
        self.seen_terminator && (kind is Prologue || kind is PrologueOrMarker)
    }

    /// An instruction of this kind, met in this state, is a marker
    /// occurrence.
    pub open spec fn hits_marker(self, kind: InsnKind) -> bool {
        kind is Marker || (kind is PrologueOrMarker && !self.seen_terminator)
    }

    /// The state after a marker occurrence at `addr`: the occurrence becomes
    /// the best marker where it lies closer to the one before it than any
    /// pair seen so far, and the latest occurrence in any case.
    pub open spec fn with_marker(self, addr: usize) -> ScanState {
        match self.last_marker_site {
            Some(prev) if addr.wrapping_sub(prev) < self.best_gap => ScanState {
                last_marker_site: Some(addr),
                best_marker: Some(addr),
                best_gap: addr.wrapping_sub(prev),
                ..self
            },
            _ => ScanState { last_marker_site: Some(addr), ..self },
        }
    }

    /// The state after the instruction at `site`.
    pub open spec fn step(self, site: Site) -> ScanState {
        if site.kind is Return {
            ScanState { seen_terminator: true, ..self }
        } else if self.opens_function(site.kind) {
            ScanState { seen_terminator: false, ..self }
        } else if self.hits_marker(site.kind) {
            self.with_marker(site.addr)
        } else {
            self
        }
    }

    pub fn new() -> (state: ScanState)
        ensures
            state == ScanState::initial(),
    {
        ScanState {
            seen_terminator: false,
            last_marker_site: None,
            best_marker: None,
            best_gap: usize::MAX,
        }
    }

    /// Feeds one instruction to the automaton. Returns whether its address
    /// is a function start.
    pub fn observe(&mut self, site: Site) -> (start: bool)
        ensures
            *final(self) == old(self).step(site),
            start == old(self).opens_function(site.kind),
    {
        match site.kind {
            InsnKind::Return => {
                self.seen_terminator = true;
                false
            },
            InsnKind::Prologue => {
                let start: bool = self.seen_terminator;
                self.seen_terminator = false;
                start
            },
            InsnKind::PrologueOrMarker => {
                if self.seen_terminator {
                    self.seen_terminator = false;
                    true
                } else {
                    self.record_marker(site.addr);
                    false
                }
            },
            InsnKind::Marker => {
                self.record_marker(site.addr);
                false
            },
            InsnKind::Other => false,
        }
    }

    fn record_marker(&mut self, addr: usize)
        ensures
            *final(self) == old(self).with_marker(addr),
    {
        if let Some(prev) = self.last_marker_site {
            let gap: usize = addr.wrapping_sub(prev);
            if gap < self.best_gap {
                self.best_gap = gap;
                self.best_marker = Some(addr);
            }
        }
        self.last_marker_site = Some(addr);
    }
}

/// The state after all of `sites`, taken in order from the initial state.
pub open spec fn run(sites: Seq<Site>) -> ScanState
    decreases sites.len(),
{
    if sites.len() == 0 {
        ScanState::initial()
    } else {
        run(sites.drop_last()).step(sites.last())
    }
}

/// The addresses among `sites` that the scan records as function starts,
/// in the order in which it meets them.
pub open spec fn function_starts(sites: Seq<Site>) -> Seq<usize>
    decreases sites.len(),
{
    if sites.len() == 0 {
        Seq::empty()
    } else {
        let before = function_starts(sites.drop_last());
        if run(sites.drop_last()).opens_function(sites.last().kind) {
            before.push(sites.last().addr)
        } else {
            before
        }
    }
}

/// Runs the automaton over a list of classified instructions. Returns the
/// marker site, if two marker occurrences were met, and the function
/// starts.
pub fn scan_sites(sites: &[Site]) -> (found: (Option<usize>, Vec<usize>))
    ensures
        found.0 == run(sites@).best_marker,
        found.1@ == function_starts(sites@),
{
    let mut state: ScanState = ScanState::new();
    let mut starts: Vec<usize> = Vec::new();
    let mut i: usize = 0;
    while i < sites.len()
        invariant
            i <= sites@.len(),
            state == run(sites@.take(i as int)),
            starts@ == function_starts(sites@.take(i as int)),
        decreases sites@.len() - i,
    {
        let site: Site = sites[i];
        proof {
            let next = sites@.take(i + 1);
            assert(next.drop_last() =~= sites@.take(i as int));
        }
        if state.observe(site) {
            starts.push(site.addr);
        }
        i = i + 1;
    }
    assert(sites@.take(i as int) =~= sites@);
    (state.best_marker, starts)
}

/// The addresses of the instructions grow along the sequence.
pub open spec fn addresses_ascend(sites: Seq<Site>) -> bool {
    forall|i: int, j: int| 0 <= i < j < sites.len() ==> sites[i].addr < sites[j].addr
}

/// An instruction of this kind, met in this state, is taken as a marker
/// occurrence: it is one, and it is neither a return nor a function start.
pub open spec fn is_marker_hit(state: ScanState, kind: InsnKind) -> bool {
    !(kind is Return) && !state.opens_function(kind) && state.hits_marker(kind)
}

/// The addresses among `sites` that the scan takes as marker occurrences,
/// in the order in which it meets them.
pub open spec fn marker_hits(sites: Seq<Site>) -> Seq<usize>
    decreases sites.len(),
{
    if sites.len() == 0 {
        Seq::empty()
    } else {
        let before = marker_hits(sites.drop_last());
        if is_marker_hit(run(sites.drop_last()), sites.last().kind) {
            before.push(sites.last().addr)
        } else {
            before
        }
    }
}

/// The distance between occurrence `k` and the one before it.
pub open spec fn gap(hits: Seq<usize>, k: int) -> int {
    hits[k] - hits[k - 1]
}

/// Occurrence `k` and the one before it lie closest together of all
/// successive occurrences, and no earlier pair lies as close.
pub open spec fn is_closest_pair(hits: Seq<usize>, k: int) -> bool {
    &&& 1 <= k < hits.len()
    &&& forall|j: int| 1 <= j < hits.len() ==> gap(hits, k) <= #[trigger] gap(hits, j)
    &&& forall|j: int| 1 <= j < k ==> gap(hits, k) < #[trigger] gap(hits, j)
}

/// Every address in `picked` is the address of one of `sites`.
pub open spec fn drawn_from(picked: Seq<usize>, sites: Seq<Site>) -> bool {
    forall|k: int|
        0 <= k < picked.len() ==> exists|i: int|
            0 <= i < sites.len() && sites[i].addr == #[trigger] picked[k]
}

/// Every function start is the address of an instruction that was scanned,
/// and where the addresses of the instructions grow, so do the function
/// starts: the scan hands them out in strictly ascending order.
pub proof fn lemma_function_starts_ascend(sites: Seq<Site>)
    requires
        addresses_ascend(sites),
    ensures
        drawn_from(function_starts(sites), sites),
        strictly_ascending(function_starts(sites)),
    decreases sites.len(),
{
    if sites.len() > 0 {
        let front = sites.drop_last();
        lemma_function_starts_ascend(front);
        lemma_picked_ascend(function_starts(front), function_starts(sites), sites);
    }
}

/// Addresses picked during a scan stay drawn from the instructions, and
/// stay ascending, when the address of the last instruction is added to
/// them or left out.
proof fn lemma_picked_ascend(before: Seq<usize>, picked: Seq<usize>, sites: Seq<Site>)
    requires
        sites.len() > 0,
        addresses_ascend(sites),
        drawn_from(before, sites.drop_last()),
        strictly_ascending(before),
        picked == before || picked == before.push(sites.last().addr),
    ensures
        drawn_from(picked, sites),
        strictly_ascending(picked),
{
    let front = sites.drop_last();
    assert forall|k: int| 0 <= k < picked.len() implies exists|i: int|
        0 <= i < sites.len() && sites[i].addr == #[trigger] picked[k] by {
        if k < before.len() {
            let i = choose|i: int| 0 <= i < front.len() && front[i].addr == before[k];
            assert(sites[i].addr == picked[k]);
        } else {
            assert(sites[sites.len() - 1].addr == picked[k]);
        }
    }
    assert forall|a: int, b: int| 0 <= a < b < picked.len() implies picked[a] < picked[b] by {
        if b >= before.len() {
            let i = choose|i: int| 0 <= i < front.len() && front[i].addr == before[a];
            assert(sites[i].addr < sites[sites.len() - 1].addr);
        }
    }
}

/// Every function start stands at a prologue instruction that the scan met
/// after a return.
pub proof fn lemma_function_start_follows_return(sites: Seq<Site>, k: int)
    requires
        0 <= k < function_starts(sites).len(),
    ensures
        exists|i: int|
            0 <= i < sites.len() && #[trigger] sites[i].addr == function_starts(sites)[k] && (
            sites[i].kind is Prologue || sites[i].kind is PrologueOrMarker) && run(
                sites.take(i),
            ).seen_terminator,
    decreases sites.len(),
{
    let front = sites.drop_last();
    let before = function_starts(front);
    if k < before.len() {
        lemma_function_start_follows_return(front, k);
        let i = choose|i: int|
            0 <= i < front.len() && #[trigger] front[i].addr == before[k] && (front[i].kind is Prologue
                || front[i].kind is PrologueOrMarker) && run(front.take(i)).seen_terminator;
        assert(front.take(i) =~= sites.take(i));
        assert(sites[i].addr == function_starts(sites)[k]);
    } else {
        let i = sites.len() - 1;
        assert(sites.take(i) =~= front);
        assert(sites[i].addr == function_starts(sites)[k]);
    }
}

/// What the scan knows of the marker after `sites`, where their addresses
/// grow and stay below the greatest address: the latest occurrence is the
/// last one met; with fewer than two occurrences there is no marker; with
/// two or more, the marker is the later site of the closest pair of
/// successive occurrences, the earliest such pair where several lie
/// equally close.
pub proof fn lemma_marker_is_closest_pair(sites: Seq<Site>)
    requires
        addresses_ascend(sites),
        forall|i: int| 0 <= i < sites.len() ==> (#[trigger] sites[i]).addr < usize::MAX,
    ensures
        drawn_from(marker_hits(sites), sites),
        strictly_ascending(marker_hits(sites)),
        run(sites).last_marker_site == if marker_hits(sites).len() == 0 {
            None
        } else {
            Some(marker_hits(sites).last())
        },
        marker_hits(sites).len() < 2 ==> run(sites).best_marker is None && run(sites).best_gap
            == usize::MAX,
        marker_hits(sites).len() >= 2 ==> exists|k: int|
            #![trigger marker_hits(sites)[k]]
            is_closest_pair(marker_hits(sites), k) && run(sites).best_marker == Some(
                marker_hits(sites)[k],
            ) && run(sites).best_gap == gap(marker_hits(sites), k),
    decreases sites.len(),
{
    if sites.len() > 0 {
        let front = sites.drop_last();
        let last = sites.last();
        lemma_marker_is_closest_pair(front);
        let before = marker_hits(front);
        let hits = marker_hits(sites);
        let state = run(front);
        lemma_picked_ascend(before, hits, sites);
        if is_marker_hit(state, last.kind) && before.len() > 0 {
            // The occurrence at `last` makes a new pair with the one before it.
            let n = before.len() as int;
            let new_gap = last.addr - before.last();
            assert(gap(hits, n) == new_gap);
            assert forall|j: int| 1 <= j < n implies gap(hits, j) == gap(before, j) by {}
            if before.len() >= 2 {
                let k = choose|k: int|
                    #![trigger before[k]]
                    is_closest_pair(before, k) && state.best_marker == Some(before[k])
                        && state.best_gap == gap(before, k);
                if new_gap < state.best_gap {
                    assert(is_closest_pair(hits, n));
                    assert(run(sites).best_marker == Some(hits[n]));
                } else {
                    assert(is_closest_pair(hits, k));
                    assert(run(sites).best_marker == Some(hits[k]));
                }
            } else {
                assert(is_closest_pair(hits, n));
                assert(run(sites).best_marker == Some(hits[n]));
            }
        }
    }
}

} // verus!
