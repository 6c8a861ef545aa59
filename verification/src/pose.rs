//! The marker pose extractor: runs the marker detector on a luma buffer
//! and maps every detection whose pose the estimator resolves into a
//! serialisable pose record. A detection without a resolvable pose is an
//! expected outcome (a partially occluded marker, say) and is silently
//! dropped, never emitted as a placeholder.
//!
//! Detection and pose estimation themselves are the external subroutine's
//! work, reached through the trusted wrappers at the end of this module;
//! everything from the raw per-detection outcomes to the emitted records
//! is verified.

use crate::luma::LumaBuffer;
use vstd::prelude::*;

verus! {

use apriltag::Detection;
use apriltag::Detector;
use apriltag::Image;

/// One resolved pose: a row-major 3 × 3 rotation matrix and a translation
/// vector, entry by entry as binary64 bit patterns.
pub struct SerialisablePose {
    pub rotation: Vec<u64>,
    pub translation: Vec<u64>,
}

impl SerialisablePose {
    /// Exactly nine rotation entries and three translation entries.
    pub open spec fn wf(&self) -> bool {
        self.rotation@.len() == 9 && self.translation@.len() == 3
    }
}

/// A marker seen in one frame together with its resolved pose.
pub struct MarkerPose {
    pub marker_id: usize,
    pub pose: SerialisablePose,
}

impl MarkerPose {
    pub open spec fn wf(&self) -> bool {
        self.pose.wf()
    }
}

/// What pose estimation gave for one detection: the marker's identity and
/// the pose, where one could be resolved.
pub struct DetectionOutcome {
    pub marker_id: usize,
    pub estimate: Option<SerialisablePose>,
}

impl DetectionOutcome {
    pub open spec fn wf(&self) -> bool {
        self.estimate is Some ==> self.estimate->0.wf()
    }
}

/// The record an outcome with a resolved pose turns into.
pub open spec fn pose_record_of(outcome: DetectionOutcome) -> MarkerPose {
    MarkerPose { marker_id: outcome.marker_id, pose: outcome.estimate->0 }
}

/// The records of a run of outcomes, in reporting order: one per outcome
/// that carries a pose, none for the rest.
pub open spec fn pose_records_of(outcomes: Seq<DetectionOutcome>) -> Seq<MarkerPose>
    decreases outcomes.len(),
{
    if outcomes.len() == 0 {
        Seq::empty()
    } else {
        let prefix = pose_records_of(outcomes.drop_last());
        if outcomes.last().estimate is Some {
            prefix.push(pose_record_of(outcomes.last()))
        } else {
            prefix
        }
    }
}

/// The outcomes that carry a resolved pose, in reporting order.
pub open spec fn outcomes_with_pose(outcomes: Seq<DetectionOutcome>) -> Seq<DetectionOutcome>
    decreases outcomes.len(),
{
    if outcomes.len() == 0 {
        Seq::empty()
    } else {
        let prefix = outcomes_with_pose(outcomes.drop_last());
        if outcomes.last().estimate is Some {
            prefix.push(outcomes.last())
        } else {
            prefix
        }
    }
}

/// An outcome whose estimate failed contributes no record: the extracted
/// records are exactly the records of the outcomes that carry a pose, one
/// each, in the detector's reporting order.
pub proof fn lemma_pose_records_filter(outcomes: Seq<DetectionOutcome>)
    ensures
        pose_records_of(outcomes).len() == outcomes_with_pose(outcomes).len(),
        forall|j: int|
            0 <= j < pose_records_of(outcomes).len() ==> pose_records_of(outcomes)[j]
                == pose_record_of(outcomes_with_pose(outcomes)[j]),
    decreases outcomes.len(),
{
    if outcomes.len() == 0 {
    } else {
        let prefix = outcomes.drop_last();
        let last = outcomes.last();
        lemma_pose_records_filter(prefix);
        if last.estimate is Some {
            assert(outcomes_with_pose(outcomes) == outcomes_with_pose(prefix).push(last));
            assert(pose_records_of(outcomes) == pose_records_of(prefix).push(
                pose_record_of(last),
            ));
        } else {
            assert(outcomes_with_pose(outcomes) == outcomes_with_pose(prefix));
            assert(pose_records_of(outcomes) == pose_records_of(prefix));
        }
    }
}

/// Every record extracted from well-formed outcomes is well formed: its
/// rotation has exactly nine entries and its translation exactly three.
pub proof fn lemma_pose_records_wf(outcomes: Seq<DetectionOutcome>)
    requires
        forall|i: int| 0 <= i < outcomes.len() ==> outcomes[i].wf(),
    ensures
        forall|j: int|
            0 <= j < pose_records_of(outcomes).len() ==> pose_records_of(outcomes)[j].wf(),
    decreases outcomes.len(),
{
    if outcomes.len() > 0 {
        let prefix = outcomes.drop_last();
        assert(forall|i: int| 0 <= i < prefix.len() ==> prefix[i] == outcomes[i]);
        lemma_pose_records_wf(prefix);
        if outcomes.last().estimate is Some {
            assert(outcomes.last().wf());
            assert(pose_records_of(outcomes) == pose_records_of(prefix).push(
                pose_record_of(outcomes.last()),
            ));
        } else {
            assert(pose_records_of(outcomes) == pose_records_of(prefix));
        }
    }
}

/// Builds the records of a run of detection outcomes: exactly
/// `pose_records_of` the outcomes, order preserved, failed estimates
/// dropped.
pub fn pose_records(outcomes: Vec<DetectionOutcome>) -> (out: Vec<MarkerPose>)
    ensures
        out@ == pose_records_of(outcomes@),
{
    let ghost orig = outcomes@;
    let mut rest = outcomes;
    let mut out: Vec<MarkerPose> = Vec::new();
    while rest.len() > 0
        invariant
            rest@.len() <= orig.len(),
            orig.skip(orig.len() - rest@.len()) == rest@,
            out@ == pose_records_of(orig.take(orig.len() - rest@.len())),
        decreases rest@.len(),
    {
        let ghost k = orig.len() - rest@.len();
        proof {
            assert(orig[k] == orig.skip(k)[0]);
            assert(orig.take(k + 1).drop_last() =~= orig.take(k));
            assert(orig.take(k + 1).last() == orig[k]);
        }
        let next = rest.remove(0);
        proof {
            assert(next == orig[k]);
            assert(orig.skip(k + 1) =~= rest@);
        }
        match next.estimate {
            Some(pose) => {
                out.push(MarkerPose { marker_id: next.marker_id, pose });
            },
            None => {},
        }
    }
    proof {
        assert(orig.take(orig.len() as int) =~= orig);
    }
    out
}

impl MarkerPose {
    /// Maps one detection to its pose record: the marker's identity
    /// together with the estimated pose, or nothing when the estimator
    /// resolves no pose for it.
    pub fn from_detection(detection: &Detection, params: &apriltag::TagParams) -> (r: Option<
        MarkerPose,
    >)
        ensures
            r is Some ==> r->0.wf(),
    {
        let id = detection_id(detection);
        match estimate_pose_bits(detection, params) {
            Some(pose) => Some(MarkerPose { marker_id: id, pose }),
            None => None,
        }
    }
}

/// Runs the detector on one luma buffer and extracts the pose records of
/// every detection with a resolvable pose, in reporting order. `None`
/// only when the detector's image buffer could not be allocated; every
/// emitted record is well formed whatever the detector reported.
pub fn extract(luma: &LumaBuffer, params: &apriltag::TagParams, detector: &mut Detector) -> (r:
    Option<Vec<MarkerPose>>)
    requires
        luma.wf(),
    ensures
        r is Some ==> forall|j: int| 0 <= j < r->0@.len() ==> r->0@[j].wf(),
{
    let image = match image_from_luma(luma) {
        Some(image) => image,
        None => {
            return None;
        },
    };
    let detections = detect_markers(detector, &image);
    let mut outcomes: Vec<DetectionOutcome> = Vec::new();
    let mut i: usize = 0;
    while i < detections.len()
        invariant
            forall|k: int| 0 <= k < outcomes@.len() ==> outcomes@[k].wf(),
        decreases detections@.len() - i,
    {
        let id = detection_id(&detections[i]);
        let estimate = estimate_pose_bits(&detections[i], params);
        outcomes.push(DetectionOutcome { marker_id: id, estimate });
        i = i + 1;
    }
    let ghost outcome_seq = outcomes@;
    let records = pose_records(outcomes);
    proof {
        lemma_pose_records_wf(outcome_seq);
    }
    Some(records)
}

#[verifier::external_type_specification]
#[verifier::external_body]
pub struct ExDetector(Detector);

#[verifier::external_type_specification]
#[verifier::external_body]
pub struct ExDetection(Detection);

#[verifier::external_type_specification]
#[verifier::external_body]
pub struct ExImage(Image);

#[verifier::external_type_specification]
#[verifier::external_body]
pub struct ExTagParams(apriltag::TagParams);

/// Relies on apriltag::Image::zeros_with_alignment and the Image index
/// operator: pixel (x, y) of the new image is the buffer's byte at offset
/// `y * width + x`, the row-major layout `LumaBuffer` guarantees; `None`
/// when the binding reports that the image could not be created. The
/// well-formedness bound keeps the conversion to the image's extents
/// exact and its 32-bit size arithmetic — rows padded to a stride of at
/// most `width + 95`, the allocation sized `height * stride` — free of
/// wrap-around, so every index the loop touches lies inside the
/// allocation.
#[verifier::external_body]
fn image_from_luma(luma: &LumaBuffer) -> (r: Option<Image>)
    requires
        luma.wf(),
{
    let mut image = Image::zeros_with_alignment(
        luma.width,
        luma.height,
        apriltag::image_buf::DEFAULT_ALIGNMENT_U8,
    ).ok()?;
    for y in 0..luma.height {
        for x in 0..luma.width {
            image[(x, y)] = luma.data[y * luma.width + x];
        }
    }
    Some(image)
}

/// Relies on apriltag::Detector::detect: one Detection per marker the
/// detector reports in the image, in its reporting order. Nothing is
/// assumed about which markers a given image yields.
#[verifier::external_body]
fn detect_markers(detector: &mut Detector, image: &Image) -> (detections: Vec<Detection>) {
    detector.detect(image)
}

/// Relies on apriltag::Detection::id: the detected marker's identity
/// within its family.
#[verifier::external_body]
fn detection_id(detection: &Detection) -> (id: usize) {
    detection.id()
}

/// Relies on apriltag::Detection::estimate_tag_pose: `Some` exactly when
/// the estimator resolves a pose, whose rotation is a 3 × 3 matrix and
/// whose translation is a 3-vector (Pose::rotation, Pose::translation and
/// MatdRef::data, row-major); the entries are carried out as bit
/// patterns.
#[verifier::external_body]
fn estimate_pose_bits(detection: &Detection, params: &apriltag::TagParams) -> (r: Option<
    SerialisablePose,
>)
    ensures
        r is Some ==> r->0.wf(),
{
    let pose = detection.estimate_tag_pose(params)?;
    let rotation: Vec<u64> = pose.rotation().data().iter().map(|v| v.to_bits()).collect();
    let translation: Vec<u64> = pose.translation().data().iter().map(|v| v.to_bits()).collect();
    Some(SerialisablePose { rotation, translation })
}

} // verus!
