//! Ordered positions in a stamp-sorted sequence of samples, and the
//! logarithmic searches the chain uses for insertion, eviction and lookup.

use vstd::prelude::*;
use crate::sample::TransformSample;
use crate::tf_time::{time_nanos, TfTime};

verus! {

/// The samples are in ascending stamp order (duplicates permitted).
pub open spec fn sorted_by_stamp(s: Seq<TransformSample>) -> bool {
    forall|i: int, j: int|
        0 <= i <= j < s.len() ==> time_nanos(s[i].stamp) <= time_nanos(s[j].stamp)
}

/// In a sorted sequence, the first index whose stamp is strictly greater
/// than `t` nanoseconds (the length if there is none): where a sample
/// stamped `t` is inserted so that it follows every equal stamp.
pub open spec fn upper_pos(s: Seq<TransformSample>, t: int) -> int
    decreases s.len(),
{
    if s.len() == 0 {
        0
    } else if time_nanos(s.last().stamp) <= t {
        s.len() as int
    } else {
        upper_pos(s.drop_last(), t)
    }
}

/// In a sorted sequence, the first index whose stamp is at least `t`
/// nanoseconds (the length if there is none): the eviction boundary for a
/// cutoff of `t`.
pub open spec fn lower_pos(s: Seq<TransformSample>, t: int) -> int
    decreases s.len(),
{
    if s.len() == 0 {
        0
    } else if time_nanos(s.last().stamp) < t {
        s.len() as int
    } else {
        lower_pos(s.drop_last(), t)
    }
}

/// In a sorted sequence, every stamp before `upper_pos` is at most `t` and
/// every stamp from it on is strictly greater.
pub proof fn lemma_upper_pos_properties(s: Seq<TransformSample>, t: int)
    requires
        sorted_by_stamp(s),
    ensures
        0 <= upper_pos(s, t) <= s.len(),
        forall|j: int| 0 <= j < upper_pos(s, t) ==> time_nanos(s[j].stamp) <= t,
        forall|j: int| upper_pos(s, t) <= j < s.len() ==> time_nanos(s[j].stamp) > t,
    decreases s.len(),
{
    if s.len() == 0 {
    } else if time_nanos(s.last().stamp) <= t {
    } else {
        assert(sorted_by_stamp(s.drop_last()));
        lemma_upper_pos_properties(s.drop_last(), t);
        assert forall|j: int| upper_pos(s, t) <= j < s.len() implies time_nanos(s[j].stamp) > t by {
            if j < s.len() - 1 {
                assert(s.drop_last()[j] == s[j]);
            }
        }
        assert forall|j: int| 0 <= j < upper_pos(s, t) implies time_nanos(s[j].stamp) <= t by {
            assert(s.drop_last()[j] == s[j]);
        }
    }
}

/// In a sorted sequence, every stamp before `lower_pos` is strictly below
/// `t` and every stamp from it on is at least `t`.
pub proof fn lemma_lower_pos_properties(s: Seq<TransformSample>, t: int)
    requires
        sorted_by_stamp(s),
    ensures
        0 <= lower_pos(s, t) <= s.len(),
        forall|j: int| 0 <= j < lower_pos(s, t) ==> time_nanos(s[j].stamp) < t,
        forall|j: int| lower_pos(s, t) <= j < s.len() ==> time_nanos(s[j].stamp) >= t,
    decreases s.len(),
{
    if s.len() == 0 {
    } else if time_nanos(s.last().stamp) < t {
    } else {
        assert(sorted_by_stamp(s.drop_last()));
        lemma_lower_pos_properties(s.drop_last(), t);
        assert forall|j: int| lower_pos(s, t) <= j < s.len() implies time_nanos(s[j].stamp) >= t by {
            if j < s.len() - 1 {
                assert(s.drop_last()[j] == s[j]);
            }
        }
        assert forall|j: int| 0 <= j < lower_pos(s, t) implies time_nanos(s[j].stamp) < t by {
            assert(s.drop_last()[j] == s[j]);
        }
    }
}

/// A boundary that splits the stamps at `t` the way `upper_pos` does is
/// `upper_pos` itself.
pub proof fn lemma_upper_pos_unique(s: Seq<TransformSample>, t: int, i: int)
    requires
        sorted_by_stamp(s),
        0 <= i <= s.len(),
        forall|j: int| 0 <= j < i ==> time_nanos(s[j].stamp) <= t,
        forall|j: int| i <= j < s.len() ==> time_nanos(s[j].stamp) > t,
    ensures
        upper_pos(s, t) == i,
{
    lemma_upper_pos_properties(s, t);
    let u = upper_pos(s, t);
    if u < i {
        assert(time_nanos(s[u].stamp) <= t);
        assert(time_nanos(s[u].stamp) > t);
    }
    if i < u {
        assert(time_nanos(s[i].stamp) <= t);
        assert(time_nanos(s[i].stamp) > t);
    }
}

/// A boundary that splits the stamps at `t` the way `lower_pos` does is
/// `lower_pos` itself.
pub proof fn lemma_lower_pos_unique(s: Seq<TransformSample>, t: int, i: int)
    requires
        sorted_by_stamp(s),
        0 <= i <= s.len(),
        forall|j: int| 0 <= j < i ==> time_nanos(s[j].stamp) < t,
        forall|j: int| i <= j < s.len() ==> time_nanos(s[j].stamp) >= t,
    ensures
        lower_pos(s, t) == i,
{
    lemma_lower_pos_properties(s, t);
    let u = lower_pos(s, t);
    if u < i {
        assert(time_nanos(s[u].stamp) < t);
        assert(time_nanos(s[u].stamp) >= t);
    }
    if i < u {
        assert(time_nanos(s[i].stamp) < t);
        assert(time_nanos(s[i].stamp) >= t);
    }
}

/// Binary search for the first index whose stamp is strictly greater than
/// `target` nanoseconds.
pub fn upper_bound_index(samples: &Vec<TransformSample>, target: u64) -> (r: usize)
    requires
        sorted_by_stamp(samples@),
    ensures
        r == upper_pos(samples@, target as int),
{
    let mut lo: usize = 0;
    let mut hi: usize = samples.len();
    while lo < hi
        invariant
            lo <= hi <= samples@.len(),
            sorted_by_stamp(samples@),
            forall|j: int| 0 <= j < lo ==> time_nanos(samples@[j].stamp) <= target as int,
            forall|j: int| hi <= j < samples@.len() ==> time_nanos(samples@[j].stamp) > target as int,
        decreases hi - lo,
    {
        let mid = lo + (hi - lo) / 2;
        if samples[mid].stamp.as_nanos() <= target {
            lo = mid + 1;
        } else {
            hi = mid;
        }
    }
    proof {
        lemma_upper_pos_unique(samples@, target as int, lo as int);
    }
    lo
}

/// Binary search for the first index whose stamp is at least `target`
/// nanoseconds.
pub fn lower_bound_index(samples: &Vec<TransformSample>, target: u64) -> (r: usize)
    requires
        sorted_by_stamp(samples@),
    ensures
        r == lower_pos(samples@, target as int),
{
    let mut lo: usize = 0;
    let mut hi: usize = samples.len();
    while lo < hi
        invariant
            lo <= hi <= samples@.len(),
            sorted_by_stamp(samples@),
            forall|j: int| 0 <= j < lo ==> time_nanos(samples@[j].stamp) < target as int,
            forall|j: int| hi <= j < samples@.len() ==> time_nanos(samples@[j].stamp) >= target as int,
        decreases hi - lo,
    {
        let mid = lo + (hi - lo) / 2;
        if samples[mid].stamp.as_nanos() < target {
            lo = mid + 1;
        } else {
            hi = mid;
        }
    }
    proof {
        lemma_lower_pos_unique(samples@, target as int, lo as int);
    }
    lo
}

/// Ordered search for `time` in a sorted chain: `Ok` carries the index of
/// the last sample stamped exactly `time`, `Err` the position where a
/// sample stamped `time` would be inserted.
pub fn binary_search_time(chain: &Vec<TransformSample>, time: TfTime) -> (r: Result<usize, usize>)
    requires
        sorted_by_stamp(chain@),
    ensures
        match r {
            Ok(i) => {
                &&& 0 <= i < chain@.len()
                &&& time_nanos(chain@[i as int].stamp) == time_nanos(time)
                &&& i + 1 == upper_pos(chain@, time_nanos(time))
            },
            Err(i) => {
                &&& i == upper_pos(chain@, time_nanos(time))
                &&& forall|j: int|
                    0 <= j < chain@.len() ==> time_nanos(chain@[j].stamp) != time_nanos(time)
            },
        },
{
    let target = time.as_nanos();
    let u = upper_bound_index(chain, target);
    proof {
        lemma_upper_pos_properties(chain@, target as int);
    }
    if u > 0 && chain[u - 1].stamp.as_nanos() == target {
        Ok(u - 1)
    } else {
        Err(u)
    }
}

} // verus!
