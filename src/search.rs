//! Ways of finding where a fraction falls among the ascending boundaries of
//! one octave, all with the same result. Boundaries and fraction are positive
//! doubles held as bits, whose integer order is their numeric order.
use vstd::prelude::*;

verus! {

/// Entries never decrease.
pub open spec fn is_ascending(s: Seq<u64>) -> bool {
    forall|i: int, j: int| 0 <= i < j < s.len() ==> s[i] <= s[j]
}

proof fn lemma_adjacent_chain(s: Seq<u64>, i: int, j: int)
    requires
        forall|k: int| 0 <= k < s.len() - 1 ==> #[trigger] s[k] <= s[k + 1],
        0 <= i <= j < s.len(),
    ensures
        s[i] <= s[j],
    decreases j - i,
{
    if i < j {
        lemma_adjacent_chain(s, i, j - 1);
        assert(s[j - 1] <= s[j]);
    }
}

/// A sequence whose neighbours are in order is ascending.
pub proof fn lemma_ascending_from_adjacent(s: Seq<u64>)
    requires
        forall|k: int| 0 <= k < s.len() - 1 ==> #[trigger] s[k] <= s[k + 1],
    ensures
        is_ascending(s),
{
    assert forall|i: int, j: int| 0 <= i < j < s.len() implies s[i] <= s[j] by {
        lemma_adjacent_chain(s, i, j);
    }
}

/// `pos` is the first position whose entry is at least `x`, or the length
/// when there is none: every entry before it is below `x`, none after.
pub open spec fn is_lower_bound(s: Seq<u64>, x: u64, pos: int) -> bool {
    &&& 0 <= pos <= s.len()
    &&& forall|i: int| 0 <= i < pos ==> s[i] < x
    &&& forall|i: int| pos <= i < s.len() ==> x <= s[i]
}

/// In any sequence at most one position is the lower bound of a value.
pub proof fn lemma_lower_bound_unique(s: Seq<u64>, x: u64, p: int, q: int)
    requires
        is_lower_bound(s, x, p),
        is_lower_bound(s, x, q),
    ensures
        p == q,
{
    if p < q {
        assert(s[p] < x);
    } else if q < p {
        assert(s[q] < x);
    }
}

/// Finds the lower bound of a fraction among ascending boundaries.
pub trait Strategy {
    fn search(bounds: &[u64], x: u64) -> (r: usize)
        requires
            is_ascending(bounds@),
        ensures
            is_lower_bound(bounds@, x, r as int),
    ;
}

/// Every strategy finds the same position.
pub proof fn lemma_search_strategies_agree<A: Strategy, B: Strategy>(
    bounds: &[u64],
    x: u64,
    ra: usize,
    rb: usize,
)
    requires
        is_ascending(bounds@),
        call_ensures(A::search, (bounds, x), ra),
        call_ensures(B::search, (bounds, x), rb),
    ensures
        ra == rb,
{
    lemma_lower_bound_unique(bounds@, x, ra as int, rb as int);
}

/// Scans from the front.
pub struct Linear;

impl Strategy for Linear {
    fn search(bounds: &[u64], x: u64) -> (r: usize) {
        let mut i: usize = 0;
        while i < bounds.len() && bounds[i] < x
            invariant
                i <= bounds@.len(),
                forall|k: int| 0 <= k < i ==> bounds@[k] < x,
            decreases bounds@.len() - i,
        {
            i = i + 1;
        }
        i
    }
}

/// Narrows `lo..hi` until `lo` is the answer, keeping the entries before `lo`
/// below `x` and those from `hi` on at least `x`.
fn bisect(bounds: &[u64], x: u64, lo: usize, hi: usize, window: usize) -> (r: (usize, usize))
    requires
        is_ascending(bounds@),
        lo <= hi <= bounds@.len(),
        forall|k: int| 0 <= k < lo ==> bounds@[k] < x,
        forall|k: int| hi <= k < bounds@.len() ==> x <= bounds@[k],
    ensures
        r.0 <= r.1 <= bounds@.len(),
        r.1 - r.0 <= window,
        forall|k: int| 0 <= k < r.0 ==> bounds@[k] < x,
        forall|k: int| r.1 <= k < bounds@.len() ==> x <= bounds@[k],
{
    let mut lo = lo;
    let mut hi = hi;
    while hi - lo > window
        invariant
            is_ascending(bounds@),
            lo <= hi <= bounds@.len(),
            forall|k: int| 0 <= k < lo ==> bounds@[k] < x,
            forall|k: int| hi <= k < bounds@.len() ==> x <= bounds@[k],
        decreases hi - lo,
    {
        let mid = lo + (hi - lo) / 2;
        if bounds[mid] < x {
            lo = mid + 1;
        } else {
            hi = mid;
        }
    }
    (lo, hi)
}

/// Halves the range of candidates until one is left.
pub struct Binary;

impl Strategy for Binary {
    fn search(bounds: &[u64], x: u64) -> (r: usize) {
        let (lo, _) = bisect(bounds, x, 0, bounds.len(), 0);
        lo
    }
}

/// Halves the range while it is wide, then scans what is left.
pub struct Hybrid;

/// The width below which a hybrid search scans.
pub const SCAN_WINDOW: usize = 8;

impl Strategy for Hybrid {
    fn search(bounds: &[u64], x: u64) -> (r: usize) {
        let (lo, hi) = bisect(bounds, x, 0, bounds.len(), SCAN_WINDOW);
        let mut i: usize = lo;
        while i < hi && bounds[i] < x
            invariant
                lo <= i <= hi <= bounds@.len(),
                forall|k: int| 0 <= k < i ==> bounds@[k] < x,
                forall|k: int| hi <= k < bounds@.len() ==> x <= bounds@[k],
            decreases hi - i,
        {
            i = i + 1;
        }
        i
    }
}

/// Halves a window of candidates with the comparison written in place: the
/// window starts at `base` and shrinks by the half it skips.
pub struct BinaryInlined;

impl Strategy for BinaryInlined {
    fn search(bounds: &[u64], x: u64) -> (r: usize) {
        let mut base: usize = 0;
        let mut size: usize = bounds.len();
        while size > 1
            invariant
                is_ascending(bounds@),
                base + size <= bounds@.len(),
                size >= 1 || bounds@.len() == 0,
                forall|k: int| 0 <= k < base ==> bounds@[k] < x,
                forall|k: int| base + size <= k < bounds@.len() ==> x <= bounds@[k],
            decreases size,
        {
            let half = size / 2;
            let mid = base + half;
            if bounds[mid] < x {
                base = mid;
            }
            size = size - half;
        }
        if size == 0 {
            0
        } else if bounds[base] < x {
            base + 1
        } else {
            base
        }
    }
}

} // verus!
