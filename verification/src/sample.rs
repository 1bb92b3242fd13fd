//! The immutable timestamped transform record a chain stores, and the
//! recoverable errors a lookup can return.

use vstd::prelude::*;
use crate::geometry::Transform;
use crate::tf_time::TfTime;

verus! {

/// One timestamped rigid transform between a parent frame and a child frame.
#[derive(Debug, PartialEq)]
pub struct TransformSample {
    /// When this transform was observed; orders samples within a chain.
    pub stamp: TfTime,
    /// The frame the transform maps into (kept for provenance only).
    pub parent_frame_id: String,
    /// The frame the transform maps out of (kept for provenance only).
    pub child_frame_id: String,
    /// The rigid transform itself.
    pub transform: Transform,
}

impl Clone for TransformSample {
    /// A clone is equal to the original, field for field.
    fn clone(&self) -> (r: Self)
        ensures
            r == *self,
    {
        TransformSample {
            stamp: self.stamp,
            parent_frame_id: self.parent_frame_id.clone(),
            child_frame_id: self.child_frame_id.clone(),
            transform: self.transform,
        }
    }
}

/// Why a lookup at a given time could not be answered. Both kinds carry the
/// nearest retained sample so the caller can log or retry without another
/// query.
#[derive(Debug, PartialEq)]
pub enum TfError {
    /// The requested time precedes every retained sample; carries the
    /// requested time and the oldest retained sample.
    AttemptedLookupInPast(TfTime, TransformSample),
    /// The requested time is newer than every retained sample; carries the
    /// newest retained sample and the requested time.
    AttemptedLookupInFuture(TransformSample, TfTime),
}

} // verus!
