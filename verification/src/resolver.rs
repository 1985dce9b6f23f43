//! Resolution of a marker address to the function that encloses it: the
//! greatest candidate start below the marker, found by binary search.

use vstd::prelude::*;

verus! {

/// No element is smaller than one before it.
pub open spec fn ascending(s: Seq<usize>) -> bool {
    forall|i: int, j: int| 0 <= i < j < s.len() ==> s[i] <= s[j]
}

/// Every element is greater than all before it.
pub open spec fn strictly_ascending(s: Seq<usize>) -> bool {
    forall|i: int, j: int| 0 <= i < j < s.len() ==> s[i] < s[j]
}

/// `v` is an element of `s` below `target`, and no element of `s` below
/// `target` is greater than `v`.
pub open spec fn is_floor_predecessor(s: Seq<usize>, target: usize, v: usize) -> bool {
    &&& v < target
    &&& exists|i: int| 0 <= i < s.len() && s[i] == v
    &&& forall|j: int| 0 <= j < s.len() && s[j] < target ==> s[j] <= v
}

/// No element of `s` is below `target`.
pub open spec fn none_below(s: Seq<usize>, target: usize) -> bool {
    forall|j: int| 0 <= j < s.len() ==> s[j] >= target
}

/// The greatest element of the ascending slice `data` that is strictly less
/// than `target`, or `None` where no element is.
///
/// On a slice that is not ascending the search still ends, and what it
/// returns is still an element below `target`.
pub fn find_max_less_than(data: &[usize], target: usize) -> (found: Option<usize>)
    ensures
        found matches Some(v) ==> v < target && exists|i: int|
            0 <= i < data@.len() && data@[i] == v,
        ascending(data@) ==> match found {
            Some(v) => is_floor_predecessor(data@, target, v),
            None => none_below(data@, target),
        },
        ascending(data@) ==> (found is None <==> none_below(data@, target)),
        ascending(data@) ==> found == greatest_below(data@, target),
{
    proof {
        lemma_greatest_below_is_floor_predecessor(data@, target);
    }
    let mut low: usize = 0;
    let mut high: usize = data.len();
    while low < high
        invariant
            low <= high <= data@.len(),
            low > 0 ==> data@[low - 1] < target,
            ascending(data@) ==> forall|j: int| high <= j < data@.len() ==> data@[j] >= target,
        decreases high - low,
    {
        let span: usize = high - low;
        let half: usize = span >> 1;
        assert(half == span / 2) by (bit_vector)
            requires
                half == span >> 1,
        ;
        let mid: usize = low + half;
        let mid_val: usize = data[mid];
        if mid_val < target {
            low = mid + 1;
        } else {
            high = mid;
        }
    }
    if low == 0 {
        proof {
            if ascending(data@) {
                assert forall|j: int| 0 <= j < data@.len() implies data@[j] >= target by {}
            }
        }
        None
    } else {
        let v: usize = data[low - 1];
        proof {
            assert(0 <= low - 1 < data@.len() && data@[low - 1] == v);
            if ascending(data@) {
                assert forall|j: int| 0 <= j < data@.len() && data@[j] < target implies data@[j]
                    <= v by {
                    if j >= high {
                        assert(data@[j] >= target);
                    } else {
                        assert(data@[j] <= data@[low - 1]);
                    }
                }
                assert(is_floor_predecessor(data@, target, v));
                lemma_floor_predecessor_unique(data@, target, v, greatest_below(data@, target)->0);
            }
        }
        Some(v)
    }
}

/// There is at most one floor predecessor: two values that both qualify
/// are the same value.
pub proof fn lemma_floor_predecessor_unique(s: Seq<usize>, target: usize, a: usize, b: usize)
    requires
        is_floor_predecessor(s, target, a),
        is_floor_predecessor(s, target, b),
    ensures
        a == b,
{
    let i = choose|i: int| 0 <= i < s.len() && s[i] == a;
    let j = choose|j: int| 0 <= j < s.len() && s[j] == b;
    assert(s[i] < target && s[j] < target);
    assert(s[i] <= b && s[j] <= a);
}

/// The greatest element of `s` below `target`, whatever the order of `s`;
/// `None` where no element is below `target`.
pub open spec fn greatest_below(s: Seq<usize>, target: usize) -> Option<usize>
    decreases s.len(),
{
    if s.len() == 0 {
        None
    } else {
        let rest = greatest_below(s.drop_last(), target);
        let last = s.last();
        if last < target && (rest is None || rest->0 < last) {
            Some(last)
        } else {
            rest
        }
    }
}

/// The greatest element below the target is the floor predecessor, and
/// where there is none, no element is below the target.
pub proof fn lemma_greatest_below_is_floor_predecessor(s: Seq<usize>, target: usize)
    ensures
        match greatest_below(s, target) {
            Some(v) => is_floor_predecessor(s, target, v),
            None => none_below(s, target),
        },
    decreases s.len(),
{
    if s.len() > 0 {
        let front = s.drop_last();
        let last = s.last();
        let end = s.len() - 1;
        lemma_greatest_below_is_floor_predecessor(front, target);
        assert(s[end] == last);
        assert forall|j: int| 0 <= j < end implies s[j] == front[j] by {}
        match greatest_below(front, target) {
            None => {
                assert forall|j: int| 0 <= j < end implies s[j] >= target by {
                    assert(front[j] >= target);
                }
                if last < target {
                    assert(greatest_below(s, target) == Some(last));
                    assert(0 <= end < s.len() && s[end] == last);
                    assert forall|j: int| 0 <= j < s.len() && s[j] < target implies s[j]
                        <= last by {
                        assert(j == end);
                    }
                } else {
                    assert(greatest_below(s, target) is None);
                    assert forall|j: int| 0 <= j < s.len() implies s[j] >= target by {
                        if j < end {
                            assert(front[j] >= target);
                        }
                    }
                }
            },
            Some(u) => {
                let i = choose|i: int| 0 <= i < front.len() && front[i] == u;
                assert(0 <= i < s.len() && s[i] == u);
                assert forall|j: int| 0 <= j < end && s[j] < target implies s[j] <= u by {
                    assert(front[j] < target);
                }
                if last < target && u < last {
                    assert(greatest_below(s, target) == Some(last));
                    assert(0 <= end < s.len() && s[end] == last);
                    assert forall|j: int| 0 <= j < s.len() && s[j] < target implies s[j]
                        <= last by {
                        if j < end {
                            assert(s[j] <= u);
                        }
                    }
                } else {
                    assert(greatest_below(s, target) == Some(u));
                    assert forall|j: int| 0 <= j < s.len() && s[j] < target implies s[j] <= u by {
                        if j < end {
                            assert(front[j] < target);
                        }
                    }
                }
            },
        }
    }
}

/// A sequence has a floor predecessor exactly when it holds an element
/// below the target, whatever its order.
pub proof fn lemma_floor_predecessor_exists(s: Seq<usize>, target: usize)
    ensures
        none_below(s, target) <==> !exists|v: usize| is_floor_predecessor(s, target, v),
{
    lemma_greatest_below_is_floor_predecessor(s, target);
    match greatest_below(s, target) {
        Some(v) => {
            let i = choose|i: int| 0 <= i < s.len() && s[i] == v;
            assert(s[i] < target);
            assert(!none_below(s, target));
            assert(is_floor_predecessor(s, target, v));
        },
        None => {
            assert forall|v: usize| !is_floor_predecessor(s, target, v) by {
                if is_floor_predecessor(s, target, v) {
                    let i = choose|i: int| 0 <= i < s.len() && s[i] == v;
                    assert(s[i] >= target);
                }
            }
        },
    }
}

/// A strictly ascending sequence is ascending.
pub proof fn lemma_strictly_ascending_is_ascending(s: Seq<usize>)
    requires
        strictly_ascending(s),
    ensures
        ascending(s),
{
}

} // verus!
