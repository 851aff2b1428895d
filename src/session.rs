//! The requests a recording sends before frames flow: which streams to set
//! up, how to play, and where to write.

use vstd::prelude::*;
use crate::error::RecordError;
use crate::negotiate::{first_audio, first_video, negotiate, setup_requests, StreamInfo};
use crate::options::{InitialTimestampPolicy, Mp4RecorderOptions, TransportMode};
use crate::publish::partial_path;

verus! {

/// Largest timestamp jump, in seconds, the session tolerates while playing.
pub const MAX_JUMP_SECS: u32 = 10;

/// The play request.
#[derive(Debug, Clone, Copy, PartialEq, Eq)]
pub struct PlayRequest {
    pub initial_timestamp: InitialTimestampPolicy,
    pub max_jump_secs: u32,
}

/// Everything to do with a described session before the recording loop.
#[derive(Debug, Clone, PartialEq, Eq)]
pub struct RecordingPlan {
    /// Stream indices to set up, in order.
    pub setups: Vec<usize>,
    /// Transport for each setup.
    pub transport: TransportMode,
    /// The selected video stream.
    pub video_stream: Option<usize>,
    /// The selected audio stream; its parameters go to the muxer.
    pub audio_stream: Option<usize>,
    pub play: PlayRequest,
    /// Where the recording is written while it runs.
    pub temp_path: String,
    /// Where a complete recording ends up.
    pub output: String,
    /// Seconds after which the loop stops, if bounded.
    pub deadline_secs: Option<u64>,
}

/// Plans the recording of a described session. When no stream qualifies it
/// fails before any setup or play request exists.
pub fn plan_recording(streams: &Vec<StreamInfo>, options: &Mp4RecorderOptions) -> (r: Result<
    RecordingPlan,
    RecordError,
>)
    ensures
        match r {
            Ok(p) => {
                &&& (options.no_video ==> p.video_stream.is_none())
                &&& (!options.no_video ==> first_video(streams@, p.video_stream))
                &&& (options.no_audio ==> p.audio_stream.is_none())
                &&& (!options.no_audio ==> first_audio(streams@, p.audio_stream))
                &&& (p.video_stream.is_some() || p.audio_stream.is_some())
                &&& p.setups@ == (match p.video_stream {
                    Some(v) => seq![v],
                    None => Seq::<usize>::empty(),
                }) + (match p.audio_stream {
                    Some(a) => seq![a],
                    None => Seq::<usize>::empty(),
                })
                &&& p.transport == options.transport
                &&& p.play == (PlayRequest {
                    initial_timestamp: options.initial_timestamp,
                    max_jump_secs: MAX_JUMP_SECS,
                })
                &&& p.temp_path@ == options.output@ + ".partial"@
                &&& p.output == options.output
                &&& p.deadline_secs == options.duration
            },
            Err(e) => e == RecordError::NoUsableStream && (options.no_video || forall|j: int|
                0 <= j < streams@.len() ==> !crate::negotiate::video_qualifies(
                    #[trigger] streams@[j],
                )) && (options.no_audio || forall|j: int|
                0 <= j < streams@.len() ==> !crate::negotiate::audio_qualifies(
                    #[trigger] streams@[j],
                )),
        },
{
    let sel = match negotiate(streams, options) {
        Ok(sel) => sel,
        Err(e) => {
            return Err(e);
        },
    };
    let setups = setup_requests(&sel);
    let output = options.output.clone();
    Ok(RecordingPlan {
        setups,
        transport: options.transport,
        video_stream: sel.video,
        audio_stream: sel.audio,
        play: PlayRequest {
            initial_timestamp: options.initial_timestamp,
            max_jump_secs: MAX_JUMP_SECS,
        },
        temp_path: partial_path(options.output.as_str()),
        output,
        deadline_secs: options.duration,
    })
}

/// Where a session stands.
#[derive(Debug, Clone, Copy, PartialEq, Eq)]
pub enum SessionState {
    /// Described: streams known, nothing set up or playing.
    Described,
    /// Playing: frames flow to the recording loop.
    Playing,
    /// The loop and publishing are over; the teardown request is pending.
    Closing,
}

/// The session's lifecycle, and the recording result it reports once torn
/// down.
#[derive(Debug, PartialEq, Eq)]
pub struct SessionLifecycle {
    state: SessionState,
    result: Option<Result<(), RecordError>>,
}

impl SessionLifecycle {
    pub closed spec fn state_spec(&self) -> SessionState {
        self.state
    }

    pub closed spec fn result_spec(&self) -> Option<Result<(), RecordError>> {
        self.result
    }

    /// A session that was just described.
    pub fn described() -> (r: SessionLifecycle)
        ensures
            r.state_spec() == SessionState::Described,
            r.result_spec().is_none(),
    {
        SessionLifecycle { state: SessionState::Described, result: None }
    }

    /// The play request succeeded.
    pub fn playing(&mut self)
        requires
            old(self).state_spec() == SessionState::Described,
        ensures
            final(self).state_spec() == SessionState::Playing,
            final(self).result_spec() == old(self).result_spec(),
    {
        self.state = SessionState::Playing;
    }

    /// The recording ended, before or after playing, with `result`; the
    /// teardown is now pending.
    pub fn closing(&mut self, result: Result<(), RecordError>)
        requires
            old(self).state_spec() == SessionState::Described || old(self).state_spec()
                == SessionState::Playing,
        ensures
            final(self).state_spec() == SessionState::Closing,
            final(self).result_spec() == Some(result),
    {
        self.state = SessionState::Closing;
        self.result = Some(result);
    }

    /// The pending teardown completed and the session is over; whether the
    /// teardown failed changes nothing in what is reported, which is the
    /// recording's own result.
    pub fn torn_down(self, teardown_ok: bool) -> (r: Result<(), RecordError>)
        requires
            self.state_spec() == SessionState::Closing,
            self.result_spec().is_some(),
        ensures
            r == self.result_spec().unwrap(),
    {
        match self.result {
            Some(r) => r,
            None => Ok(()),
        }
    }

    pub fn state(&self) -> (r: SessionState)
        ensures
            r == self.state_spec(),
    {
        self.state
    }
}

} // verus!
