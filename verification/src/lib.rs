//! A time-indexed buffer of rigid transforms between one pair of coordinate
//! frames: ordered insertion of timestamped samples, bounded retention by a
//! rolling cache duration, and point-in-time lookup with exact-match,
//! interpolation, or most-recent semantics.

pub mod chain;
pub mod geometry;
pub mod laws;
pub mod sample;
pub mod search;
pub mod tf_time;
