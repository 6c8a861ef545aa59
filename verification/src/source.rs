//! The frame source: selects the video stream of an input resource and
//! decides, pull by pull, what to do with each demuxed packet and each
//! decoder answer, so that the caller's pull loop yields the stream's
//! decoded frames one at a time, in decode order, until the input is
//! exhausted or the decoder session fails.
//!
//! Demuxing and decoding themselves are the external subroutine's work;
//! this module holds the decisions: which packets feed the decoder, what
//! each decoder answer means for the run, and how a frame's integer
//! timestamp ticks relate to seconds through the stream's rational time
//! base.

use crate::error::PipelineError;
use vstd::arithmetic::mul::lemma_mul_inequality;
use vstd::prelude::*;

verus! {

/// The rational scale turning a stream's integer timestamp ticks into
/// seconds: a frame at `pts` ticks sits at `pts * num / den` seconds.
#[derive(Debug)]
pub struct TimeBase {
    pub num: u32,
    pub den: u32,
}

impl TimeBase {
    /// A time base divides by its denominator.
    pub open spec fn wf(&self) -> bool {
        self.den >= 1
    }
}

/// A frame's timestamp in seconds is the rational `pts * num / den`.
/// Under one time base all timestamps share the positive denominator
/// `den`, so they compare exactly as these numerators do.
pub open spec fn timestamp_numerator(pts: i64, tb: TimeBase) -> int {
    pts * tb.num
}

/// Timestamps derived from non-decreasing ticks under one time base are
/// non-decreasing as rationals: the decode order of the stream carries
/// over to the emitted seconds.
pub proof fn lemma_timestamps_monotone(earlier: i64, later: i64, tb: TimeBase)
    requires
        tb.wf(),
        earlier <= later,
    ensures
        timestamp_numerator(earlier, tb) <= timestamp_numerator(later, tb),
{
    lemma_mul_inequality(earlier as int, later as int, tb.num as int);
}

/// Over a whole run under one time base: when the frames' ticks come in
/// non-decreasing order — as the decoder's decode order yields them — the
/// emitted timestamps are non-decreasing too, at every pair of positions.
pub proof fn lemma_timestamp_sequence_monotone(ticks: Seq<i64>, tb: TimeBase)
    requires
        tb.wf(),
        forall|i: int, j: int|
            0 <= i <= j < ticks.len() ==> #[trigger] ticks[i] <= #[trigger] ticks[j],
    ensures
        forall|i: int, j: int|
            0 <= i <= j < ticks.len() ==> #[trigger] timestamp_numerator(ticks[i], tb)
                <= #[trigger] timestamp_numerator(ticks[j], tb),
{
    assert forall|i: int, j: int|
        0 <= i <= j < ticks.len() implies #[trigger] timestamp_numerator(ticks[i], tb)
        <= #[trigger] timestamp_numerator(ticks[j], tb) by {
        lemma_timestamps_monotone(ticks[i], ticks[j], tb);
    }
}

/// One demuxed item: a packet tagged with the stream it belongs to, or
/// the end of the input.
pub enum PacketEvent {
    Packet { stream_index: usize },
    EndOfInput,
}

/// What to do with a demuxed item.
#[derive(Clone, Copy, Debug, PartialEq, Eq, Structural)]
pub enum PacketDirective {
    /// The packet belongs to the selected stream: feed it to the decoder.
    Feed,
    /// The packet belongs to another stream: discard it and pull on.
    Skip,
    /// The input is exhausted: the sequence ends without error.
    Finish,
}

/// What the decoder answered after being fed a packet.
pub enum DecodeOutcome {
    /// A frame is ready, with its native presentation timestamp in ticks
    /// where the stream knows one.
    Frame { pts: Option<i64> },
    /// No frame yet: the decoder needs more packets.
    NeedsMore,
    /// The decoder session became unusable.
    Fatal,
}

/// What one decoder answer means for the run.
#[derive(Clone, Copy, Debug, PartialEq, Eq, Structural)]
pub enum DecodeDirective {
    /// Emit a frame stamped with these ticks.
    Emit { pts: i64 },
    /// Keep pulling packets.
    Continue,
    /// The run's decoding has failed for good.
    Fail,
}

/// A missing native timestamp becomes tick zero rather than an error.
pub open spec fn pts_or_zero(pts: Option<i64>) -> i64 {
    if pts is Some {
        pts->0
    } else {
        0
    }
}

/// The frame source: the selected stream's identity and time base, fixed
/// when the input is opened and read-only for the rest of the run.
#[derive(Debug)]
pub struct FrameSource {
    pub stream_index: usize,
    pub time_base: TimeBase,
}

impl FrameSource {
    pub open spec fn wf(&self) -> bool {
        self.time_base.wf()
    }

    /// Opens the source over the demuxer's findings: the index of the
    /// best video stream where one exists, the stream's time base, and
    /// whether a decoder could be initialised for the stream's codec
    /// parameters. No stream is `NoVideoStream`; a stream whose decoder
    /// cannot be set up is `UnsupportedCodec`.
    pub fn open(
        stream: Option<usize>,
        time_base_num: u32,
        time_base_den: u32,
        decoder_ready: bool,
    ) -> (r: Result<FrameSource, PipelineError>)
        requires
            time_base_den >= 1,
        ensures
            r is Ok <==> stream is Some && decoder_ready,
            r is Ok ==> r->Ok_0 == (FrameSource {
                stream_index: stream->0,
                time_base: TimeBase { num: time_base_num, den: time_base_den },
            }),
            r is Ok ==> r->Ok_0.wf(),
            stream is None ==> r == Result::<FrameSource, PipelineError>::Err(
                PipelineError::NoVideoStream,
            ),
            stream is Some && !decoder_ready ==> r == Result::<FrameSource, PipelineError>::Err(
                PipelineError::UnsupportedCodec,
            ),
    {
        match stream {
            None => Err(PipelineError::NoVideoStream),
            Some(stream_index) => {
                if decoder_ready {
                    Ok(FrameSource {
                        stream_index,
                        time_base: TimeBase { num: time_base_num, den: time_base_den },
                    })
                } else {
                    Err(PipelineError::UnsupportedCodec)
                }
            },
        }
    }

    /// Decides what to do with one demuxed item: only packets of the
    /// selected stream reach the decoder, packets of other streams are
    /// discarded, and end of input ends the sequence without error.
    pub fn on_packet(&self, event: &PacketEvent) -> (d: PacketDirective)
        ensures
            event matches PacketEvent::Packet { stream_index } && stream_index
                == self.stream_index ==> d == PacketDirective::Feed,
            event matches PacketEvent::Packet { stream_index } && stream_index
                != self.stream_index ==> d == PacketDirective::Skip,
            event is EndOfInput ==> d == PacketDirective::Finish,
    {
        match event {
            PacketEvent::Packet { stream_index } => {
                if *stream_index == self.stream_index {
                    PacketDirective::Feed
                } else {
                    PacketDirective::Skip
                }
            },
            PacketEvent::EndOfInput => PacketDirective::Finish,
        }
    }

    /// Decides what one decoder answer yields: a ready frame is emitted
    /// with its native ticks — zero where the stream knows none — an
    /// undecided answer keeps the pull loop going, and an unusable
    /// decoder session fails the run for good.
    pub fn on_decode(&self, outcome: &DecodeOutcome) -> (d: DecodeDirective)
        ensures
            outcome matches DecodeOutcome::Frame { pts } ==> d == (DecodeDirective::Emit {
                pts: pts_or_zero(*pts),
            }),
            outcome is NeedsMore ==> d == DecodeDirective::Continue,
            outcome is Fatal ==> d == DecodeDirective::Fail,
    {
        match outcome {
            DecodeOutcome::Frame { pts } => {
                match pts {
                    Some(ticks) => DecodeDirective::Emit { pts: *ticks },
                    None => DecodeDirective::Emit { pts: 0 },
                }
            },
            DecodeOutcome::NeedsMore => DecodeDirective::Continue,
            DecodeOutcome::Fatal => DecodeDirective::Fail,
        }
    }
}

} // verus!
