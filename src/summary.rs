use vstd::prelude::*;
use vstd::relations::{sorted_by, total_ordering};
use vstd::seq_lib::lemma_sorted_unique;

use crate::error::Error;

verus! {

broadcast use vstd::seq_lib::group_to_multiset_ensures;

/// The order in which sample keys are ranked.
pub open spec fn key_leq() -> spec_fn(u64, u64) -> bool {
    |a: u64, b: u64| a <= b
}

/// The sample's keys in ascending order.
pub open spec fn sorted_keys(s: Seq<u64>) -> Seq<u64> {
    s.sort_by(key_leq())
}

/// Position in the sorted sample of the lower middle element.
pub open spec fn median_low_index(n: int) -> int {
    if n % 2 == 1 {
        n / 2
    } else {
        n / 2 - 1
    }
}

/// Position in the sorted sample of the upper middle element.
pub open spec fn median_high_index(n: int) -> int {
    n / 2
}

/// The order statistics of a sample.
///
/// A sample value is represented here by an ordered key: any encoding of the
/// values into `u64` that preserves their order. Minimum, maximum and median
/// depend on the order of the values alone, so they are computed on keys, and
/// a caller decodes the keys back into values. For an odd size the two median
/// keys coincide; for an even size the median is the mean of the two values
/// they encode.
#[derive(Debug, Clone, Copy, PartialEq, Eq, Structural)]
pub struct OrderStats {
    pub size: usize,
    pub min: u64,
    pub max: u64,
    pub median_low: u64,
    pub median_high: u64,
}

impl OrderStats {
    /// Statistics of a non-empty sample: at least one value, and
    /// `min <= median_low <= median_high <= max`.
    pub open spec fn wf(&self) -> bool {
        &&& self.size >= 1
        &&& self.min <= self.median_low
        &&& self.median_low <= self.median_high
        &&& self.median_high <= self.max
    }
}

/// The order statistics of a non-empty sample of keys.
pub open spec fn order_stats_of(s: Seq<u64>) -> OrderStats {
    let t = sorted_keys(s);
    OrderStats {
        size: s.len() as usize,
        min: t[0],
        max: t[t.len() - 1],
        median_low: t[median_low_index(t.len() as int)],
        median_high: t[median_high_index(t.len() as int)],
    }
}

proof fn lemma_key_leq_total()
    ensures
        total_ordering(key_leq()),
{
}

/// The sorted keys are a sorted rearrangement of the sample.
pub proof fn lemma_sorted_keys(s: Seq<u64>)
    ensures
        sorted_by(sorted_keys(s), key_leq()),
        sorted_keys(s).to_multiset() == s.to_multiset(),
        sorted_keys(s).len() == s.len(),
{
    lemma_key_leq_total();
    s.lemma_sort_by_ensures(key_leq());
    s.to_multiset_ensures();
    sorted_keys(s).to_multiset_ensures();
}

/// Summary statistics do not depend on the order in which the sample is given:
/// two samples holding the same values as often have the same order statistics.
pub proof fn lemma_order_stats_permutation(a: Seq<u64>, b: Seq<u64>)
    requires
        a.to_multiset() == b.to_multiset(),
    ensures
        sorted_keys(a) == sorted_keys(b),
        order_stats_of(a) == order_stats_of(b),
{
    lemma_key_leq_total();
    lemma_sorted_keys(a);
    lemma_sorted_keys(b);
    lemma_sorted_unique(sorted_keys(a), sorted_keys(b), key_leq());
    a.to_multiset_ensures();
    b.to_multiset_ensures();
}

/// The keys of `keys` in ascending order.
fn sort_keys(keys: &Vec<u64>) -> (r: Vec<u64>)
    ensures
        r@ == sorted_keys(keys@),
{
    let mut out: Vec<u64> = Vec::new();
    let n = keys.len();
    let mut j: usize = 0;
    while j < n
        invariant
            n == keys@.len(),
            0 <= j <= n,
            sorted_by(out@, key_leq()),
            out@.to_multiset() == keys@.subrange(0, j as int).to_multiset(),
        decreases n - j,
    {
        let x = keys[j];
        let mut pos: usize = 0;
        while pos < out.len() && out[pos] <= x
            invariant
                0 <= pos <= out@.len(),
                forall|k: int| 0 <= k < pos ==> out@[k] <= x,
            decreases out@.len() - pos,
        {
            pos = pos + 1;
        }
        let ghost prev = out@;
        out.insert(pos, x);
        proof {
            assert(forall|k: int| pos <= k < prev.len() ==> x < prev[k]) by {
                assert forall|k: int| pos <= k < prev.len() implies x < prev[k] by {
                    assert(key_leq()(prev[pos as int], prev[k]));
                }
            }
            assert forall|a: int, b: int| 0 <= a < b < out@.len() implies #[trigger] key_leq()(
                out@[a],
                out@[b],
            ) by {
                if b < pos {
                    assert(key_leq()(prev[a], prev[b]));
                } else if a < pos && b == pos {
                } else if a < pos {
                    assert(key_leq()(prev[a], prev[b - 1]));
                } else if a == pos {
                } else {
                    assert(key_leq()(prev[a - 1], prev[b - 1]));
                }
            }
            vstd::seq_lib::to_multiset_insert(prev, pos as int, x);
            assert(keys@.subrange(0, j + 1) == keys@.subrange(0, j as int).push(x));
        }
        j = j + 1;
    }
    proof {
        assert(keys@.subrange(0, n as int) == keys@);
        lemma_key_leq_total();
        lemma_sorted_keys(keys@);
        lemma_sorted_unique(out@, sorted_keys(keys@), key_leq());
    }
    out
}

impl OrderStats {
    /// Computes the order statistics of a sample of keys.
    ///
    /// Fails with `EmptySample` exactly when the sample is empty.
    pub fn from_keys(keys: &Vec<u64>) -> (r: Result<OrderStats, Error>)
        ensures
            keys@.len() == 0 <==> r is Err,
            r is Err ==> r->Err_0 == Error::EmptySample,
            r is Ok ==> r->Ok_0 == order_stats_of(keys@),
            r is Ok ==> r->Ok_0.wf(),
            r is Ok ==> keys@.contains(r->Ok_0.min) && keys@.contains(r->Ok_0.max),
            r is Ok ==> forall|i: int| 0 <= i < keys@.len() ==> r->Ok_0.min <= #[trigger] keys@[i] <= r->Ok_0.max,
    {
        if keys.len() == 0 {
            return Err(Error::EmptySample);
        }
        let sorted = sort_keys(keys);
        let n = sorted.len();
        proof {
            lemma_sorted_keys(keys@);
        }
        let low = if n % 2 == 1 { n / 2 } else { n / 2 - 1 };
        let stats = OrderStats {
            size: n,
            min: sorted[0],
            max: sorted[n - 1],
            median_low: sorted[low],
            median_high: sorted[n / 2],
        };
        proof {
            let t = sorted@;
            let h = (n / 2) as int;
            let e = (n - 1) as int;
            assert(key_leq()(t[0], t[low as int]));
            assert(key_leq()(t[low as int], t[h]) || low == h);
            assert(key_leq()(t[h], t[e]) || h == e);
            assert(t.contains(t[0]));
            assert(t.contains(t[e]));
            assert forall|i: int| 0 <= i < keys@.len() implies stats.min <= #[trigger] keys@[i]
                <= stats.max by {
                assert(keys@.to_multiset().count(keys@[i]) > 0);
                assert(t.to_multiset().count(keys@[i]) > 0);
                let k = choose|k: int| 0 <= k < t.len() && t[k] == keys@[i];
                assert(key_leq()(t[0], t[k]) || k == 0);
                assert(key_leq()(t[k], t[e]) || k == e);
            }
            assert(t.to_multiset().count(stats.min) > 0);
            assert(t.to_multiset().count(stats.max) > 0);
        }
        Ok(stats)
    }
}

} // verus!
