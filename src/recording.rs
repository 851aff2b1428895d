//! The recording loop: how each event of a playing session moves the
//! muxer, and when the loop stops.

use vstd::prelude::*;
use crate::error::RecordError;
use crate::muxer::{
    audio_step, video_step, AudioFrame, MuxerModel, Mp4Writer, VideoFrame, VideoStreamInfo,
};

verus! {

/// What the loop can observe next: a unit from the stream, the end or a
/// failure of the stream, or the recording deadline.
#[derive(Debug, Clone, PartialEq, Eq)]
pub enum LoopEvent {
    /// A video frame, with what is known of its stream and the marker of
    /// the packet it started in.
    VideoFrame { stream: VideoStreamInfo, start_ctx: String, frame: VideoFrame },
    /// An audio frame, with the marker of its packet.
    AudioFrame { ctx: String, frame: AudioFrame },
    /// A control packet carrying a sender report; only logged.
    SenderReport { rtp_timestamp: i64, ntp_timestamp: u64 },
    /// Any other unit; ignored.
    Other,
    /// The stream ended without an error.
    EndOfStream,
    /// The stream could not be demultiplexed.
    DemuxFailed(String),
    /// The configured duration has elapsed.
    DeadlineElapsed,
}

/// What the loop does after an event.
#[derive(Debug, PartialEq, Eq)]
pub enum LoopStep {
    /// Wait for the next event.
    Continue,
    /// Leave the loop with this result.
    Stop(Result<(), RecordError>),
}

/// The muxer after `ev`, and what the loop does next.
pub open spec fn event_step(m: MuxerModel, ev: LoopEvent) -> (MuxerModel, LoopStep) {
    match ev {
        LoopEvent::VideoFrame { stream, start_ctx, frame } => {
            let (m2, r) = video_step(m, stream, frame);
            match r {
                Ok(_) => (m2, LoopStep::Continue),
                Err(e) => (m2, LoopStep::Stop(Err(RecordError::VideoFrame(start_ctx, e)))),
            }
        },
        LoopEvent::AudioFrame { ctx, frame } => {
            let (m2, r) = audio_step(m, frame);
            match r {
                Ok(_) => (m2, LoopStep::Continue),
                Err(e) => (m2, LoopStep::Stop(Err(RecordError::AudioFrame(ctx, e)))),
            }
        },
        LoopEvent::SenderReport { .. } => (m, LoopStep::Continue),
        LoopEvent::Other => (m, LoopStep::Continue),
        LoopEvent::EndOfStream => (m, LoopStep::Stop(Err(RecordError::UnexpectedEof))),
        LoopEvent::DemuxFailed(msg) => (m, LoopStep::Stop(Err(RecordError::Demux(msg)))),
        LoopEvent::DeadlineElapsed => (m, LoopStep::Stop(Ok(()))),
    }
}

/// The muxer after the events up to the first one that stops the loop, and
/// the loop's result if one of them did.
pub open spec fn run_events(m: MuxerModel, evs: Seq<LoopEvent>) -> (
    MuxerModel,
    Option<Result<(), RecordError>>,
)
    decreases evs.len(),
{
    if evs.len() == 0 {
        (m, None)
    } else {
        let (m2, st) = event_step(m, evs[0]);
        match st {
            LoopStep::Stop(r) => (m2, Some(r)),
            LoopStep::Continue => run_events(m2, evs.drop_first()),
        }
    }
}

/// Handles one event: frames go to the muxer, a refused frame stops the
/// loop with the frame's marker, the deadline stops it normally, and the
/// end or failure of the stream stops it with an error.
pub fn copy_step(mp4: &mut Mp4Writer, ev: &LoopEvent) -> (r: LoopStep)
    requires
        old(mp4)@.wf(),
    ensures
        final(mp4)@.wf(),
        (final(mp4)@, r) == event_step(old(mp4)@, *ev),
{
    match ev {
        LoopEvent::VideoFrame { stream, start_ctx, frame } => match mp4.video(stream, frame) {
            Ok(()) => LoopStep::Continue,
            Err(e) => LoopStep::Stop(Err(RecordError::VideoFrame(start_ctx.clone(), e))),
        },
        LoopEvent::AudioFrame { ctx, frame } => match mp4.audio(frame) {
            Ok(()) => LoopStep::Continue,
            Err(e) => LoopStep::Stop(Err(RecordError::AudioFrame(ctx.clone(), e))),
        },
        LoopEvent::SenderReport { .. } => LoopStep::Continue,
        LoopEvent::Other => LoopStep::Continue,
        LoopEvent::EndOfStream => LoopStep::Stop(Err(RecordError::UnexpectedEof)),
        LoopEvent::DemuxFailed(msg) => LoopStep::Stop(Err(RecordError::Demux(msg.clone()))),
        LoopEvent::DeadlineElapsed => LoopStep::Stop(Ok(())),
    }
}

/// Runs the loop over events in the order they arrived, until one stops
/// it. `None` when the events ran out first.
pub fn copy(mp4: &mut Mp4Writer, events: &Vec<LoopEvent>) -> (r: Option<Result<(), RecordError>>)
    requires
        old(mp4)@.wf(),
    ensures
        final(mp4)@.wf(),
        (final(mp4)@, r) == run_events(old(mp4)@, events@),
{
    let mut i: usize = 0;
    assert(events@.subrange(0, events@.len() as int) =~= events@);
    while i < events.len()
        invariant
            i <= events@.len(),
            mp4@.wf(),
            run_events(old(mp4)@, events@) == run_events(mp4@, events@.subrange(i as int, events@.len() as int)),
        decreases events@.len() - i,
    {
        let ghost rest = events@.subrange(i as int, events@.len() as int);
        assert(rest[0] == events@[i as int]);
        assert(rest.drop_first() =~= events@.subrange(i + 1, events@.len() as int));
        let st = copy_step(mp4, &events[i]);
        match st {
            LoopStep::Stop(res) => {
                return Some(res);
            },
            LoopStep::Continue => {},
        }
        i = i + 1;
    }
    assert(events@.subrange(i as int, events@.len() as int).len() == 0);
    None
}

/// When the deadline arrives before any event has stopped the loop, the
/// loop stops there, successfully.
pub proof fn lemma_deadline_ends_recording(m: MuxerModel, evs: Seq<LoopEvent>, k: int)
    requires
        0 <= k < evs.len(),
        evs[k] == LoopEvent::DeadlineElapsed,
        run_events(m, evs.take(k)).1.is_none(),
    ensures
        run_events(m, evs).1 == Some(Ok::<(), RecordError>(())),
        run_events(m, evs).0 == run_events(m, evs.take(k)).0,
    decreases k,
{
    if k > 0 {
        let (m2, st) = event_step(m, evs[0]);
        assert(evs.take(k)[0] == evs[0]);
        assert(evs.take(k).drop_first() =~= evs.drop_first().take(k - 1));
        match st {
            LoopStep::Stop(_) => {},
            LoopStep::Continue => {
                lemma_deadline_ends_recording(m2, evs.drop_first(), k - 1);
            },
        }
    }
}

} // verus!
