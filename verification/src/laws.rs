//! The chain's guarantees across operations, stated and proved over the
//! same spec functions the methods' contracts use.

use vstd::prelude::*;
use crate::chain::{
    chain_after_add, inserted_chain, lemma_inserted_sorted, lemma_subrange_sorted, lookup_spec,
    valid_spec,
};
use crate::sample::{TfError, TransformSample};
use crate::search::{
    lemma_lower_pos_properties, lemma_upper_pos_properties, lemma_upper_pos_unique, lower_pos,
    sorted_by_stamp, upper_pos,
};
use crate::tf_time::{duration_nanos, time_nanos, TfDuration, TfTime};

verus! {

/// Order invariant: whatever the arrival order, a sorted chain stays sorted
/// after any insertion (including its eviction sweep).
pub proof fn lemma_order_invariant(
    s: Seq<TransformSample>,
    msg: TransformSample,
    static_tf: bool,
    cache_duration: TfDuration,
)
    requires
        sorted_by_stamp(s),
    ensures
        sorted_by_stamp(chain_after_add(s, msg, static_tf, cache_duration)),
{
    lemma_inserted_sorted(s, msg);
    let ins = inserted_chain(s, msg);
    let newest = time_nanos(ins.last().stamp);
    let dn = duration_nanos(cache_duration);
    if !static_tf && newest > dn {
        lemma_lower_pos_properties(ins, newest - dn);
        lemma_subrange_sorted(ins, lower_pos(ins, newest - dn), ins.len() as int);
    }
}

/// Retention invariant: on a non-static chain, after any insertion every
/// retained sample is within the cache duration of the newest stamp, and at
/// least the newest sample is retained.
pub proof fn lemma_retention_invariant(
    s: Seq<TransformSample>,
    msg: TransformSample,
    cache_duration: TfDuration,
)
    requires
        sorted_by_stamp(s),
    ensures
        chain_after_add(s, msg, false, cache_duration).len() > 0,
        forall|i: int|
            0 <= i < chain_after_add(s, msg, false, cache_duration).len() ==> time_nanos(
                chain_after_add(s, msg, false, cache_duration).last().stamp,
            ) - time_nanos(chain_after_add(s, msg, false, cache_duration)[i].stamp)
                <= duration_nanos(cache_duration),
{
    lemma_inserted_sorted(s, msg);
    let ins = inserted_chain(s, msg);
    let n = ins.len() as int;
    let newest = time_nanos(ins.last().stamp);
    let dn = duration_nanos(cache_duration);
    let c = chain_after_add(s, msg, false, cache_duration);
    if newest > dn {
        let lo = lower_pos(ins, newest - dn);
        lemma_lower_pos_properties(ins, newest - dn);
        assert(time_nanos(ins[n - 1].stamp) >= newest - dn);
        assert(lo <= n - 1);
        assert(c == ins.subrange(lo, n));
        assert(c.last() == ins[n - 1]);
        assert forall|i: int|
            0 <= i < c.len() implies time_nanos(c.last().stamp) - time_nanos(c[i].stamp)
            <= dn by {
            assert(c[i] == ins[lo + i]);
            assert(time_nanos(ins[lo + i].stamp) >= newest - dn);
        }
    } else {
        assert(c == ins);
        assert forall|i: int|
            0 <= i < c.len() implies time_nanos(c.last().stamp) - time_nanos(c[i].stamp)
            <= dn by {
            assert(time_nanos(c[i].stamp) >= 0);
            assert(time_nanos(c.last().stamp) <= time_nanos(ins.last().stamp));
        }
    }
}

/// Exact-match idempotence: looking up a sample's own (non-zero) stamp
/// right after inserting it into a non-static chain returns that very
/// sample, provided the insertion's eviction sweep did not remove it.
pub proof fn lemma_exact_match_idempotent(
    s: Seq<TransformSample>,
    msg: TransformSample,
    cache_duration: TfDuration,
)
    requires
        sorted_by_stamp(s),
        time_nanos(msg.stamp) != 0,
        ({
            let ins = inserted_chain(s, msg);
            let newest = time_nanos(ins.last().stamp);
            newest <= duration_nanos(cache_duration) || time_nanos(msg.stamp) >= newest
                - duration_nanos(cache_duration)
        }),
    ensures
        lookup_spec(chain_after_add(s, msg, false, cache_duration), false, msg.stamp)
            == Ok::<TransformSample, TfError>(msg),
{
    let m = time_nanos(msg.stamp);
    let u = upper_pos(s, m);
    lemma_upper_pos_properties(s, m);
    lemma_inserted_sorted(s, msg);
    let ins = inserted_chain(s, msg);
    let n = ins.len() as int;
    assert forall|k: int| u < k < n implies ins[k] == s[k - 1] by {
        assert(ins[(k - 1) + 1] == s[k - 1]);
    }
    let newest = time_nanos(ins.last().stamp);
    let dn = duration_nanos(cache_duration);
    let c = chain_after_add(s, msg, false, cache_duration);
    if newest > dn {
        let lo = lower_pos(ins, newest - dn);
        lemma_lower_pos_properties(ins, newest - dn);
        assert(lo <= u);
        assert(c == ins.subrange(lo, n));
        assert(c[u - lo] == msg);
        assert forall|j: int| 0 <= j < u - lo + 1 implies time_nanos(c[j].stamp) <= m by {
            assert(c[j] == ins[lo + j]);
        }
        assert forall|j: int| u - lo + 1 <= j < c.len() implies time_nanos(c[j].stamp) > m by {
            assert(c[j] == ins[lo + j]);
        }
        lemma_upper_pos_unique(c, m, u - lo + 1);
    } else {
        assert(c == ins);
        lemma_upper_pos_unique(c, m, u + 1);
    }
}

/// Zero-time convention: looking up the zero timestamp on any non-empty
/// chain, static or not, returns the newest retained sample.
pub proof fn lemma_zero_time_returns_newest(
    s: Seq<TransformSample>,
    static_tf: bool,
    time: TfTime,
)
    requires
        s.len() > 0,
        time_nanos(time) == 0,
    ensures
        lookup_spec(s, static_tf, time) == Ok::<TransformSample, TfError>(s.last()),
{
}

/// Static chain, lookup half: a static chain answers every query time with
/// the newest retained sample, never interpolating and never failing.
pub proof fn lemma_static_chain_returns_newest(s: Seq<TransformSample>, time: TfTime)
    requires
        s.len() > 0,
    ensures
        lookup_spec(s, true, time) == Ok::<TransformSample, TfError>(s.last()),
{
}

/// Static chain, insertion half: a static chain never evicts by age, so an
/// insertion is ordered insertion and nothing more.
pub proof fn lemma_static_chain_never_evicts(
    s: Seq<TransformSample>,
    msg: TransformSample,
    cache_duration: TfDuration,
)
    ensures
        chain_after_add(s, msg, true, cache_duration) == inserted_chain(s, msg),
{
}

/// Lookup-validity consistency: on a non-empty chain, `has_valid_transform`
/// holds exactly when `get_closest_transform` would not fail with a
/// past or future error.
pub proof fn lemma_valid_iff_lookup_succeeds(
    s: Seq<TransformSample>,
    static_tf: bool,
    time: TfTime,
)
    requires
        sorted_by_stamp(s),
        s.len() > 0,
    ensures
        valid_spec(s, static_tf, time) <==> lookup_spec(s, static_tf, time) is Ok,
{
    let tn = time_nanos(time);
    lemma_upper_pos_properties(s, tn);
    let u = upper_pos(s, tn);
    if !static_tf && tn != 0 {
        assert(s.last() == s[s.len() - 1]);
        if valid_spec(s, static_tf, time) {
            assert(u > 0);
            if !(u > 0 && time_nanos(s[u - 1].stamp) == tn) {
                assert(time_nanos(s[u - 1].stamp) < tn);
                assert(u < s.len());
            }
        } else {
            if tn < time_nanos(s[0].stamp) {
                assert(u == 0);
            } else {
                assert(tn > time_nanos(s[s.len() - 1].stamp));
                assert(u == s.len());
                assert(time_nanos(s[u - 1].stamp) != tn);
            }
        }
    }
}

} // verus!
