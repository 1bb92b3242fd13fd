//! The per-frame-pair time-buffered transform cache: ordered insertion,
//! bounded retention by a rolling cache duration, and point-in-time lookup
//! with exact-match, interpolation, or most-recent semantics.

use vstd::prelude::*;
use crate::geometry::{interpolate, interpolate_spec};
use crate::sample::{TfError, TransformSample};
use crate::search::{
    binary_search_time, lemma_lower_pos_properties, lemma_upper_pos_properties,
    lower_bound_index, lower_pos, sorted_by_stamp, upper_bound_index, upper_pos,
};
use crate::tf_time::{duration_nanos, time_nanos, TfDuration, TfTime};

verus! {

/// The chain a new sample leaves after ordered insertion: the sample is
/// placed after every stamp at most its own, so equal stamps keep their
/// arrival order.
pub open spec fn inserted_chain(s: Seq<TransformSample>, msg: TransformSample) -> Seq<
    TransformSample,
> {
    s.insert(upper_pos(s, time_nanos(msg.stamp)), msg)
}

/// The chain an insertion leaves after eviction: when the chain is not
/// static and the newest stamp exceeds the cache duration measured from the
/// epoch, every sample stamped before `newest - cache_duration` is dropped.
pub open spec fn chain_after_add(
    s: Seq<TransformSample>,
    msg: TransformSample,
    static_tf: bool,
    cache_duration: TfDuration,
) -> Seq<TransformSample> {
    let ins = inserted_chain(s, msg);
    let newest = time_nanos(ins.last().stamp);
    if !static_tf && newest > duration_nanos(cache_duration) {
        ins.subrange(lower_pos(ins, newest - duration_nanos(cache_duration)), ins.len() as int)
    } else {
        ins
    }
}

/// The sample a bracketed lookup returns: the requested time as its stamp,
/// the frame identifiers of the newer bracketing sample, and the transform
/// blended between the two brackets at the requested time.
pub open spec fn interpolated_sample(
    older: TransformSample,
    newer: TransformSample,
    time: TfTime,
) -> TransformSample {
    TransformSample {
        stamp: time,
        parent_frame_id: newer.parent_frame_id,
        child_frame_id: newer.child_frame_id,
        transform: interpolate_spec(
            older.transform,
            newer.transform,
            time_nanos(time) - time_nanos(older.stamp),
            time_nanos(newer.stamp) - time_nanos(older.stamp),
        ),
    }
}

/// What a lookup at `time` returns on a non-empty chain: the newest sample
/// for the zero timestamp or a static chain; the last sample stamped
/// exactly `time` on an exact match; an error when `time` falls outside the
/// retained range; otherwise the interpolated sample between the brackets.
pub open spec fn lookup_spec(
    s: Seq<TransformSample>,
    static_tf: bool,
    time: TfTime,
) -> Result<TransformSample, TfError>
    recommends
        s.len() > 0,
{
    if time_nanos(time) == 0 || static_tf {
        Ok(s.last())
    } else {
        let u = upper_pos(s, time_nanos(time));
        if u > 0 && time_nanos(s[u - 1].stamp) == time_nanos(time) {
            Ok(s[u - 1])
        } else if u == 0 {
            Err(TfError::AttemptedLookupInPast(time, s[0]))
        } else if u >= s.len() {
            Err(TfError::AttemptedLookupInFuture(s.last(), time))
        } else {
            Ok(interpolated_sample(s[u - 1], s[u], time))
        }
    }
}

/// Whether a lookup at `time` can be answered: the chain holds a sample,
/// and the chain is static, or `time` is the zero timestamp, or `time` lies
/// within the inclusive retained range.
pub open spec fn valid_spec(s: Seq<TransformSample>, static_tf: bool, time: TfTime) -> bool {
    &&& s.len() > 0
    &&& (static_tf || time_nanos(time) == 0 || (time_nanos(s[0].stamp) <= time_nanos(time)
        <= time_nanos(s.last().stamp)))
}

/// Ordered insertion keeps the chain sorted, grows it by one, and places
/// the new sample at its insertion position.
pub proof fn lemma_inserted_sorted(s: Seq<TransformSample>, msg: TransformSample)
    requires
        sorted_by_stamp(s),
    ensures
        sorted_by_stamp(inserted_chain(s, msg)),
        inserted_chain(s, msg).len() == s.len() + 1,
        inserted_chain(s, msg)[upper_pos(s, time_nanos(msg.stamp))] == msg,
{
    let m = time_nanos(msg.stamp);
    let u = upper_pos(s, m);
    lemma_upper_pos_properties(s, m);
    s.insert_ensures(u, msg);
    let ins = inserted_chain(s, msg);
    assert forall|k: int| u < k < ins.len() implies ins[k] == s[k - 1] by {
        assert(ins[(k - 1) + 1] == s[k - 1]);
    }
    assert forall|i: int, j: int|
        0 <= i <= j < ins.len() implies time_nanos(ins[i].stamp) <= time_nanos(ins[j].stamp) by {
        if i < u {
            assert(ins[i] == s[i]);
        } else if i == u {
            assert(ins[i] == msg);
        }
        if j < u {
            assert(ins[j] == s[j]);
        } else if j == u {
            assert(ins[j] == msg);
        }
    }
}

/// A contiguous slice of a sorted chain is sorted.
pub proof fn lemma_subrange_sorted(s: Seq<TransformSample>, a: int, b: int)
    requires
        sorted_by_stamp(s),
        0 <= a <= b <= s.len(),
    ensures
        sorted_by_stamp(s.subrange(a, b)),
{
    assert forall|i: int, j: int|
        0 <= i <= j < s.subrange(a, b).len() implies time_nanos(s.subrange(a, b)[i].stamp)
        <= time_nanos(s.subrange(a, b)[j].stamp) by {
        assert(s.subrange(a, b)[i] == s[a + i]);
        assert(s.subrange(a, b)[j] == s[a + j]);
    }
}

/// A time-indexed history of transforms for one pair of frames. Samples
/// stay sorted by stamp; unless the chain is static, samples older than the
/// cache duration behind the newest stamp are evicted on insertion.
#[derive(Debug)]
pub struct TfIndividualTransformChain {
    /// How far into the past samples are retained, relative to the newest.
    pub cache_duration: TfDuration,
    /// A static chain holds a time-invariant relation: every lookup returns
    /// the most recently inserted sample and nothing is evicted by age.
    pub static_tf: bool,
    /// The retained samples, in ascending stamp order.
    pub transform_chain: Vec<TransformSample>,
}

impl TfIndividualTransformChain {
    /// The chain's invariant: samples are in ascending stamp order.
    pub open spec fn well_formed(&self) -> bool {
        sorted_by_stamp(self.transform_chain@)
    }

    /// An empty chain with the given staticness and retention window.
    pub fn new(static_tf: bool, cache_duration: TfDuration) -> (r: Self)
        ensures
            r.well_formed(),
            r.transform_chain@.len() == 0,
            r.static_tf == static_tf,
            r.cache_duration == cache_duration,
    {
        TfIndividualTransformChain { cache_duration, static_tf, transform_chain: Vec::new() }
    }

    /// The stamp of the newest retained sample, if any sample is retained.
    pub fn newest_stamp(&self) -> (r: Option<TfTime>)
        ensures
            match r {
                Some(t) => self.transform_chain@.len() > 0 && t
                    == self.transform_chain@.last().stamp,
                None => self.transform_chain@.len() == 0,
            },
    {
        if self.transform_chain.len() == 0 {
            None
        } else {
            Some(self.transform_chain[self.transform_chain.len() - 1].stamp)
        }
    }

    /// Insert `msg` at the position that keeps the chain sorted by stamp
    /// (after any equal stamps), then, on a non-static chain whose newest
    /// stamp exceeds the cache duration from the epoch, evict every sample
    /// stamped before `newest - cache_duration`. Never fails.
    pub fn add_to_buffer(&mut self, msg: TransformSample)
        requires
            old(self).well_formed(),
        ensures
            final(self).well_formed(),
            final(self).transform_chain@ == chain_after_add(
                old(self).transform_chain@,
                msg,
                old(self).static_tf,
                old(self).cache_duration,
            ),
            final(self).static_tf == old(self).static_tf,
            final(self).cache_duration == old(self).cache_duration,
            final(self).transform_chain@.len() > 0,
    {
        let ghost s0 = self.transform_chain@;
        let ghost m = time_nanos(msg.stamp);
        proof {
            lemma_upper_pos_properties(s0, m);
        }
        let index = upper_bound_index(&self.transform_chain, msg.stamp.as_nanos());
        self.transform_chain.insert(index, msg);
        proof {
            lemma_inserted_sorted(s0, msg);
            assert(self.transform_chain@ == inserted_chain(s0, msg));
        }
        let ghost ins = self.transform_chain@;
        if !self.static_tf {
            if let Some(newest_stamp) = self.newest_stamp() {
                let newest_n = newest_stamp.as_nanos();
                let dur_n = self.cache_duration.as_nanos();
                if newest_n > dur_n {
                    let time_to_keep = newest_n - dur_n;
                    proof {
                        lemma_lower_pos_properties(ins, time_to_keep as int);
                    }
                    let cut = lower_bound_index(&self.transform_chain, time_to_keep);
                    let mut k: usize = 0;
                    while k < cut
                        invariant
                            k <= cut,
                            cut <= ins.len(),
                            self.transform_chain@ == ins.subrange(k as int, ins.len() as int),
                            self.static_tf == old(self).static_tf,
                            self.cache_duration == old(self).cache_duration,
                        decreases cut - k,
                    {
                        self.transform_chain.remove(0);
                        k = k + 1;
                        proof {
                            assert(ins.subrange(k - 1, ins.len() as int).remove(0) =~= ins.subrange(
                                k as int,
                                ins.len() as int,
                            ));
                        }
                    }
                    proof {
                        lemma_subrange_sorted(ins, cut as int, ins.len() as int);
                    }
                }
            }
        }
    }

    /// The transform at `time`: the newest sample for the zero timestamp or
    /// a static chain; the matching sample on an exact stamp match; the
    /// interpolated sample when `time` is bracketed by two retained
    /// samples; otherwise an error saying on which side `time` falls
    /// outside the retained range.
    pub fn get_closest_transform(&self, time: TfTime) -> (r: Result<TransformSample, TfError>)
        requires
            self.well_formed(),
            self.transform_chain@.len() > 0,
        ensures
            r == lookup_spec(self.transform_chain@, self.static_tf, time),
    {
        if time.is_zero() {
            return Ok(self.transform_chain[self.transform_chain.len() - 1].clone());
        }
        if self.static_tf {
            return Ok(self.transform_chain[self.transform_chain.len() - 1].clone());
        }
        proof {
            lemma_upper_pos_properties(self.transform_chain@, time_nanos(time));
        }
        match binary_search_time(&self.transform_chain, time) {
            Ok(x) => Ok(self.transform_chain[x].clone()),
            Err(x) => {
                if x == 0 {
                    return Err(
                        TfError::AttemptedLookupInPast(time, self.transform_chain[0].clone()),
                    );
                }
                if x >= self.transform_chain.len() {
                    return Err(
                        TfError::AttemptedLookupInFuture(
                            self.transform_chain[self.transform_chain.len() - 1].clone(),
                            time,
                        ),
                    );
                }
                let older = &self.transform_chain[x - 1];
                let newer = &self.transform_chain[x];
                let t1n = older.stamp.as_nanos();
                let t2n = newer.stamp.as_nanos();
                let tn = time.as_nanos();
                let total_duration = t2n - t1n;
                let desired_duration = tn - t1n;
                let blended = interpolate(
                    &older.transform,
                    &newer.transform,
                    desired_duration,
                    total_duration,
                );
                Ok(
                    TransformSample {
                        stamp: time,
                        parent_frame_id: newer.parent_frame_id.clone(),
                        child_frame_id: newer.child_frame_id.clone(),
                        transform: blended,
                    },
                )
            },
        }
    }

    /// Whether a lookup at `time` can be answered: false on a chain that
    /// has never been populated, true on a static chain, and otherwise true
    /// exactly when `time` is the zero timestamp or lies within the
    /// inclusive range of retained stamps.
    pub fn has_valid_transform(&self, time: TfTime) -> (r: bool)
        ensures
            r == valid_spec(self.transform_chain@, self.static_tf, time),
    {
        if self.transform_chain.len() == 0 {
            return false;
        }
        if self.static_tf {
            return true;
        }
        let first_n = self.transform_chain[0].stamp.as_nanos();
        let last_n = self.transform_chain[self.transform_chain.len() - 1].stamp.as_nanos();
        let tn = time.as_nanos();
        time.is_zero() || (tn >= first_n && tn <= last_n)
    }
}

} // verus!
