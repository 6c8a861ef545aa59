//! The frame record assembler: pairs each decoded frame's timestamp with
//! its extracted pose records, accumulates the run's output in decode
//! order, and flushes it whole — also when a fatal decode failure ends
//! the run early, so that the frames gathered before the failure are
//! never discarded.

use crate::error::PipelineError;
use crate::pose::MarkerPose;
use vstd::prelude::*;

verus! {

/// One frame's worth of output: its position in decode order, its
/// presentation timestamp in ticks, and the ordered pose records.
pub struct FrameRecord {
    pub frame_idx: usize,
    pub pts: i64,
    pub poses: Vec<MarkerPose>,
}

/// The whole run's output: every assembled record, and the fatal failure
/// that cut the run short where one did.
pub struct RunOutput {
    pub records: Vec<FrameRecord>,
    pub failure: Option<PipelineError>,
}

/// Accumulates the run's records, one per decoded frame, in decode
/// order. Records are immutable once appended.
pub struct Assembler {
    pub records: Vec<FrameRecord>,
}

impl Assembler {
    /// Every record carries its own decode-order position.
    pub open spec fn wf(&self) -> bool {
        forall|i: int|
            0 <= i < self.records@.len() ==> (#[trigger] self.records@[i]).frame_idx == i
    }

    /// An assembler with nothing gathered yet.
    pub fn new() -> (a: Assembler)
        ensures
            a.wf(),
            a.records@.len() == 0,
    {
        Assembler { records: Vec::new() }
    }

    /// Appends one frame's record: the next decode-order index, the
    /// frame's timestamp ticks, and its pose records, after everything
    /// gathered so far. Nothing already appended changes.
    pub fn push_frame(&mut self, pts: i64, poses: Vec<MarkerPose>)
        requires
            old(self).wf(),
            old(self).records@.len() < usize::MAX,
        ensures
            final(self).wf(),
            final(self).records@ == old(self).records@.push(
                FrameRecord { frame_idx: old(self).records@.len() as usize, pts, poses },
            ),
    {
        let frame_idx = self.records.len();
        self.records.push(FrameRecord { frame_idx, pts, poses });
    }

    /// Flushes the run: the records are handed out exactly as gathered,
    /// whether the run completed or a fatal failure ended it — the
    /// best-effort partial-output policy. Never an empty document in
    /// place of gathered records.
    pub fn finish(self, failure: Option<PipelineError>) -> (out: RunOutput)
        ensures
            out.records == self.records,
            out.failure == failure,
    {
        RunOutput { records: self.records, failure }
    }
}

/// One step of a run as the frame source reported it: a decoded frame
/// with its pose records, or the fatal failure of the decoder session.
pub enum FrameEvent {
    Decoded { pts: i64, poses: Vec<MarkerPose> },
    Failed,
}

/// How many frames a run assembles: every event up to but excluding the
/// first fatal failure.
pub open spec fn frames_before_failure(events: Seq<FrameEvent>) -> nat
    decreases events.len(),
{
    if events.len() == 0 {
        0
    } else if events[0] is Failed {
        0
    } else {
        1 + frames_before_failure(events.drop_first())
    }
}

/// A run never assembles more records than the source yielded events:
/// one record per decoded frame at most.
pub proof fn lemma_frames_bounded(events: Seq<FrameEvent>)
    ensures
        frames_before_failure(events) <= events.len(),
    decreases events.len(),
{
    if events.len() > 0 && !(events[0] is Failed) {
        lemma_frames_bounded(events.drop_first());
    }
}

/// The record a decoded event assembles at position `idx`.
pub open spec fn record_of_event(event: FrameEvent, idx: int) -> FrameRecord {
    FrameRecord { frame_idx: idx as usize, pts: event->Decoded_pts, poses: event->Decoded_poses }
}

/// A run that ends with nothing decoded assembles no records and no
/// failure: an empty input yields a well-formed empty output, not an
/// error.
pub proof fn lemma_empty_run(events: Seq<FrameEvent>)
    requires
        events.len() == 0,
    ensures
        frames_before_failure(events) == 0,
{
}

/// If decoding fails after exactly `k` frames were assembled, the run
/// holds exactly those `k` records: not zero, not more.
pub proof fn lemma_partial_output(events: Seq<FrameEvent>, k: int)
    requires
        0 <= k < events.len(),
        events[k] is Failed,
        forall|i: int| 0 <= i < k ==> !((#[trigger] events[i]) is Failed),
    ensures
        frames_before_failure(events) == k,
    decreases k,
{
    if k == 0 {
    } else {
        let rest = events.drop_first();
        assert(forall|i: int| 0 <= i < k - 1 ==> !((#[trigger] rest[i]) is Failed));
        assert(rest[k - 1] is Failed);
        lemma_partial_output(rest, k - 1);
    }
}

/// Assembles a whole run from its events: one record per decoded frame
/// before the first fatal failure, in decode order and carrying its
/// position, timestamp ticks and pose records; the output never holds
/// more records than events were decoded. A fatal failure is reported
/// beside the records gathered so far — exactly then.
pub fn assemble_run(events: Vec<FrameEvent>) -> (out: RunOutput)
    ensures
        out.records@.len() == frames_before_failure(events@),
        forall|i: int|
            0 <= i < out.records@.len() ==> #[trigger] out.records@[i] == record_of_event(
                events@[i],
                i,
            ),
        out.failure == (if frames_before_failure(events@) < events@.len() {
            Some(PipelineError::DecodeFailure)
        } else {
            Option::<PipelineError>::None
        }),
{
    let ghost orig = events@;
    let mut rest = events;
    let total = rest.len();
    let mut assembler = Assembler::new();
    let mut done = false;
    while rest.len() > 0 && !done
        invariant
            assembler.wf(),
            orig.len() == total,
            rest@.len() <= orig.len(),
            !done ==> orig.skip(orig.len() - rest@.len()) == rest@,
            !done ==> assembler.records@.len() == orig.len() - rest@.len(),
            forall|i: int|
                0 <= i < assembler.records@.len() ==> #[trigger] assembler.records@[i]
                    == record_of_event(orig[i], i),
            !done ==> frames_before_failure(orig) == assembler.records@.len()
                + frames_before_failure(rest@),
            done ==> frames_before_failure(orig) == assembler.records@.len(),
            done ==> frames_before_failure(orig) < orig.len(),
        decreases rest@.len(),
    {
        let ghost k = orig.len() - rest@.len();
        proof {
            assert(orig[k] == orig.skip(k)[0]);
        }
        let next = rest.remove(0);
        proof {
            assert(next == orig[k]);
            assert(orig.skip(k + 1) =~= rest@);
        }
        match next {
            FrameEvent::Decoded { pts, poses } => {
                assembler.push_frame(pts, poses);
                proof {
                    assert(record_of_event(orig[k], k) == (FrameRecord {
                        frame_idx: k as usize,
                        pts,
                        poses,
                    }));
                }
            },
            FrameEvent::Failed => {
                done = true;
            },
        }
    }
    proof {
        if !done && rest@.len() == 0 {
            assert(frames_before_failure(rest@) == 0);
        }
    }
    let failure = if done {
        Some(PipelineError::DecodeFailure)
    } else {
        None
    };
    assembler.finish(failure)
}

} // verus!
