use tf_buffer::chain::TfIndividualTransformChain;
use tf_buffer::geometry::{interpolate, Quaternion, Transform, Vector3};
use tf_buffer::sample::{TfError, TransformSample};
use tf_buffer::search::binary_search_time;
use tf_buffer::tf_time::{TfDuration, TfTime};

fn secs(s: u32) -> TfTime {
    TfTime { secs: s, nsecs: 0 }
}

fn dur(s: u32) -> TfDuration {
    TfDuration { secs: s, nsecs: 0 }
}

fn xform(x: i64, y: i64, z: i64) -> Transform {
    Transform {
        translation: Vector3 { x, y, z },
        rotation: Quaternion { x: 0, y: 0, z: 0, w: 1_000_000 },
    }
}

fn sample(stamp: TfTime, tf: Transform) -> TransformSample {
    TransformSample {
        stamp,
        parent_frame_id: String::from("map"),
        child_frame_id: String::from("base_link"),
        transform: tf,
    }
}

fn is_sorted(chain: &TfIndividualTransformChain) -> bool {
    let v = &chain.transform_chain;
    (1..v.len()).all(|i| {
        let a = &v[i - 1].stamp;
        let b = &v[i].stamp;
        (u64::from(a.secs), a.nsecs) <= (u64::from(b.secs), b.nsecs)
    })
}

#[test]
fn order_invariant_under_any_arrival_order() {
    let arrivals: [&[u32]; 4] = [&[1, 2, 3, 4], &[4, 3, 2, 1], &[2, 4, 1, 3], &[3, 3, 1, 3]];
    for order in arrivals {
        let mut chain = TfIndividualTransformChain::new(false, dur(100));
        for &s in order {
            chain.add_to_buffer(sample(secs(s), xform(s as i64, 0, 0)));
            assert!(is_sorted(&chain));
        }
    }
}

#[test]
fn retention_window_bounds_age_after_each_insert() {
    let mut chain = TfIndividualTransformChain::new(false, dur(5));
    for s in 1..=20u32 {
        chain.add_to_buffer(sample(secs(s), xform(s as i64, 0, 0)));
        let newest = chain.transform_chain.last().unwrap().stamp.secs;
        for kept in &chain.transform_chain {
            assert!(newest - kept.stamp.secs <= 5);
        }
    }
    // newest is 20, cutoff is 15, and the boundary is inclusive
    assert_eq!(chain.transform_chain.first().unwrap().stamp, secs(15));
    assert_eq!(chain.transform_chain.len(), 6);
}

#[test]
fn no_eviction_while_newest_within_duration_of_epoch() {
    let mut chain = TfIndividualTransformChain::new(false, dur(100));
    for s in 1..=3u32 {
        chain.add_to_buffer(sample(secs(s), xform(0, 0, 0)));
    }
    assert_eq!(chain.transform_chain.len(), 3);
}

#[test]
fn exact_match_returns_inserted_sample() {
    let mut chain = TfIndividualTransformChain::new(false, dur(100));
    chain.add_to_buffer(sample(secs(2), xform(1, 2, 3)));
    chain.add_to_buffer(sample(secs(4), xform(4, 5, 6)));
    chain.add_to_buffer(sample(secs(6), xform(7, 8, 9)));
    let got = chain.get_closest_transform(secs(4)).unwrap();
    assert_eq!(got.transform, xform(4, 5, 6));
    assert_eq!(got.stamp, secs(4));
    assert_eq!(got.parent_frame_id, "map");
    assert_eq!(got.child_frame_id, "base_link");
}

#[test]
fn duplicate_stamps_coexist_and_lookup_returns_last_arrival() {
    let mut chain = TfIndividualTransformChain::new(false, dur(100));
    chain.add_to_buffer(sample(secs(4), xform(1, 0, 0)));
    chain.add_to_buffer(sample(secs(4), xform(2, 0, 0)));
    chain.add_to_buffer(sample(secs(4), xform(3, 0, 0)));
    assert_eq!(chain.transform_chain.len(), 3);
    // arrival order kept among equal stamps
    assert_eq!(chain.transform_chain[0].transform, xform(1, 0, 0));
    assert_eq!(chain.transform_chain[1].transform, xform(2, 0, 0));
    assert_eq!(chain.transform_chain[2].transform, xform(3, 0, 0));
    let got = chain.get_closest_transform(secs(4)).unwrap();
    assert_eq!(got.transform, xform(3, 0, 0));
}

#[test]
fn interpolation_midpoint_is_linear_midpoint() {
    // identity at t=0, translation [10,0,0] at t=10: t=5 gives [5,0,0]
    let mut chain = TfIndividualTransformChain::new(false, dur(100));
    chain.add_to_buffer(sample(secs(0), xform(0, 0, 0)));
    chain.add_to_buffer(sample(secs(10), xform(10, 0, 0)));
    let got = chain.get_closest_transform(secs(5)).unwrap();
    assert_eq!(got.transform.translation, Vector3 { x: 5, y: 0, z: 0 });
    assert_eq!(got.transform.rotation, Quaternion { x: 0, y: 0, z: 0, w: 1_000_000 });
    assert_eq!(got.stamp, secs(5));
    assert_eq!(got.parent_frame_id, "map");
    assert_eq!(got.child_frame_id, "base_link");
}

#[test]
fn interpolation_quarter_point() {
    let mut chain = TfIndividualTransformChain::new(false, dur(100));
    chain.add_to_buffer(sample(secs(0), xform(0, -8000, 0)));
    chain.add_to_buffer(sample(secs(10), xform(10000, 0, 0)));
    let got = chain
        .get_closest_transform(TfTime { secs: 2, nsecs: 500_000_000 })
        .unwrap();
    assert_eq!(got.transform.translation, Vector3 { x: 2500, y: -6000, z: 0 });
}

#[test]
fn interpolation_blends_rotation_components() {
    let a = Transform {
        translation: Vector3 { x: 0, y: 0, z: 0 },
        rotation: Quaternion { x: 0, y: 0, z: 0, w: 1_000_000 },
    };
    let b = Transform {
        translation: Vector3 { x: 0, y: 0, z: 0 },
        rotation: Quaternion { x: 1_000_000, y: 0, z: 0, w: 0 },
    };
    let half = interpolate(&a, &b, 5, 10);
    assert_eq!(half.rotation, Quaternion { x: 500_000, y: 0, z: 0, w: 500_000 });
    let at_a = interpolate(&a, &b, 0, 10);
    assert_eq!(at_a.rotation, a.rotation);
    let at_b = interpolate(&a, &b, 10, 10);
    assert_eq!(at_b.rotation, b.rotation);
}

#[test]
fn lookup_before_oldest_fails_in_past() {
    let mut chain = TfIndividualTransformChain::new(false, dur(100));
    chain.add_to_buffer(sample(secs(5), xform(5, 0, 0)));
    chain.add_to_buffer(sample(secs(10), xform(10, 0, 0)));
    match chain.get_closest_transform(secs(1)) {
        Err(TfError::AttemptedLookupInPast(requested, oldest)) => {
            assert_eq!(requested, secs(1));
            assert_eq!(oldest.stamp, secs(5));
            assert_eq!(oldest.transform, xform(5, 0, 0));
        }
        other => panic!("expected a lookup-in-past error, got {other:?}"),
    }
}

#[test]
fn lookup_after_newest_fails_in_future() {
    let mut chain = TfIndividualTransformChain::new(false, dur(100));
    chain.add_to_buffer(sample(secs(5), xform(5, 0, 0)));
    chain.add_to_buffer(sample(secs(10), xform(10, 0, 0)));
    match chain.get_closest_transform(secs(20)) {
        Err(TfError::AttemptedLookupInFuture(newest, requested)) => {
            assert_eq!(newest.stamp, secs(10));
            assert_eq!(newest.transform, xform(10, 0, 0));
            assert_eq!(requested, secs(20));
        }
        other => panic!("expected a lookup-in-future error, got {other:?}"),
    }
}

#[test]
fn zero_time_returns_newest_on_any_chain() {
    for static_tf in [false, true] {
        let mut chain = TfIndividualTransformChain::new(static_tf, dur(100));
        chain.add_to_buffer(sample(secs(3), xform(3, 0, 0)));
        chain.add_to_buffer(sample(secs(7), xform(7, 0, 0)));
        let got = chain.get_closest_transform(secs(0)).unwrap();
        assert_eq!(got.stamp, secs(7));
        assert_eq!(got.transform, xform(7, 0, 0));
    }
}

#[test]
fn static_chain_returns_last_inserted_for_any_time() {
    let mut chain = TfIndividualTransformChain::new(true, dur(1));
    chain.add_to_buffer(sample(secs(100), xform(1, 0, 0)));
    chain.add_to_buffer(sample(secs(50), xform(2, 0, 0)));
    // nothing evicted by age, whatever the stamps
    assert_eq!(chain.transform_chain.len(), 2);
    for t in [1u32, 50, 75, 100, 1000] {
        let got = chain.get_closest_transform(secs(t)).unwrap();
        // newest by stamp, never an interpolation
        assert_eq!(got.stamp, secs(100));
        assert_eq!(got.transform, xform(1, 0, 0));
    }
}

#[test]
fn has_valid_transform_matches_lookup_outcome() {
    let mut chain = TfIndividualTransformChain::new(false, dur(100));
    chain.add_to_buffer(sample(secs(5), xform(5, 0, 0)));
    chain.add_to_buffer(sample(secs(10), xform(10, 0, 0)));
    for s in 0..=15u32 {
        for n in [0u32, 1, 500_000_000] {
            let t = TfTime { secs: s, nsecs: n };
            assert_eq!(
                chain.has_valid_transform(t),
                chain.get_closest_transform(t).is_ok(),
                "disagreement at {s}s {n}ns"
            );
        }
    }
}

#[test]
fn has_valid_transform_on_unpopulated_chain_is_false() {
    let chain = TfIndividualTransformChain::new(false, dur(100));
    assert!(!chain.has_valid_transform(secs(0)));
    assert!(!chain.has_valid_transform(secs(5)));
    let static_chain = TfIndividualTransformChain::new(true, dur(100));
    assert!(!static_chain.has_valid_transform(secs(5)));
}

#[test]
fn has_valid_transform_range_is_inclusive() {
    let mut chain = TfIndividualTransformChain::new(false, dur(100));
    chain.add_to_buffer(sample(secs(5), xform(5, 0, 0)));
    chain.add_to_buffer(sample(secs(10), xform(10, 0, 0)));
    assert!(chain.has_valid_transform(secs(5)));
    assert!(chain.has_valid_transform(secs(10)));
    assert!(chain.has_valid_transform(secs(7)));
    assert!(chain.has_valid_transform(secs(0)));
    assert!(!chain.has_valid_transform(TfTime { secs: 4, nsecs: 999_999_999 }));
    assert!(!chain.has_valid_transform(TfTime { secs: 10, nsecs: 1 }));
}

#[test]
fn newest_stamp_tracks_last_by_time() {
    let mut chain = TfIndividualTransformChain::new(false, dur(100));
    assert_eq!(chain.newest_stamp(), None);
    chain.add_to_buffer(sample(secs(9), xform(9, 0, 0)));
    assert_eq!(chain.newest_stamp(), Some(secs(9)));
    chain.add_to_buffer(sample(secs(4), xform(4, 0, 0)));
    assert_eq!(chain.newest_stamp(), Some(secs(9)));
    chain.add_to_buffer(sample(secs(12), xform(12, 0, 0)));
    assert_eq!(chain.newest_stamp(), Some(secs(12)));
}

#[test]
fn binary_search_time_reports_match_or_insertion_point() {
    let mut chain = TfIndividualTransformChain::new(false, dur(100));
    for s in [2u32, 4, 4, 6] {
        chain.add_to_buffer(sample(secs(s), xform(s as i64, 0, 0)));
    }
    let v = &chain.transform_chain;
    assert_eq!(binary_search_time(v, secs(2)), Ok(0));
    // of two equal stamps, the later arrival is reported
    assert_eq!(binary_search_time(v, secs(4)), Ok(2));
    assert_eq!(binary_search_time(v, secs(6)), Ok(3));
    assert_eq!(binary_search_time(v, secs(1)), Err(0));
    assert_eq!(binary_search_time(v, secs(3)), Err(1));
    assert_eq!(binary_search_time(v, secs(5)), Err(3));
    assert_eq!(binary_search_time(v, secs(7)), Err(4));
}

#[test]
fn eviction_can_drop_epoch_samples() {
    let mut chain = TfIndividualTransformChain::new(false, dur(5));
    chain.add_to_buffer(sample(secs(0), xform(0, 0, 0)));
    chain.add_to_buffer(sample(secs(10), xform(10, 0, 0)));
    // cutoff is 10s - 5s: the epoch sample is gone
    assert_eq!(chain.transform_chain.len(), 1);
    assert_eq!(chain.transform_chain[0].stamp, secs(10));
}

#[test]
fn sub_second_stamps_order_and_interpolate() {
    let mut chain = TfIndividualTransformChain::new(false, dur(100));
    chain.add_to_buffer(sample(TfTime { secs: 1, nsecs: 0 }, xform(0, 0, 0)));
    chain.add_to_buffer(sample(TfTime { secs: 1, nsecs: 800_000_000 }, xform(800, 0, 0)));
    let got = chain
        .get_closest_transform(TfTime { secs: 1, nsecs: 200_000_000 })
        .unwrap();
    assert_eq!(got.transform.translation.x, 200);
}
