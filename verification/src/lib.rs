//! Offline fiducial-marker tracking: turns decoded video frames into a
//! time-ordered record of marker poses.
//!
//! The pipeline runs one frame at a time: a decoded colour frame is reduced
//! to a single-channel luma buffer, the buffer is handed to the marker
//! detector, every detection with a resolved pose becomes a pose record, and
//! the records of each frame are appended, in decode order, to the run's
//! output. Camera intrinsics and the derived tag-estimation parameters are
//! read-only for the whole run.
//!
//! Floating-point quantities (camera intrinsics, tag size, pose entries)
//! are carried as their IEEE 754 binary64 bit patterns, so that the
//! pipeline's decisions about them are stated and proved over plain
//! integers; converting a bit pattern back to a number is the caller's
//! concern.

pub mod calibration;
pub mod error;
pub mod luma;
pub mod pose;
pub mod record;
pub mod source;
