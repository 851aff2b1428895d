//! Errors that end a recording.

use vstd::prelude::*;

verus! {

/// Why a recording failed. The variants that come from a single frame carry
/// the marker that identifies that frame.
#[derive(Debug, Clone, PartialEq, Eq)]
pub enum RecordError {
    /// Connecting to the source or describing its session failed.
    Describe(String),
    /// Neither a video nor an audio stream could be selected.
    NoUsableStream,
    /// A stream setup or play request failed.
    Setup(String),
    /// The muxer refused a video frame; the marker is its start context.
    VideoFrame(String, MuxError),
    /// The muxer refused an audio frame; the marker is its context.
    AudioFrame(String, MuxError),
    /// The stream ended while frames were still expected.
    UnexpectedEof,
    /// The stream could not be demultiplexed.
    Demux(String),
}

/// Why the container muxer refused an operation.
#[derive(Debug, Clone, Copy, PartialEq, Eq)]
pub enum MuxError {
    /// The video stream lacks the parameter sets its samples need.
    MissingParameters,
    /// An audio frame came but no audio track was set up.
    NoAudioTrack,
    /// The file would grow past what its offsets can address.
    TooLarge,
    /// No sample was accepted before finishing.
    EmptyRecording,
    /// The muxer was already finished.
    AlreadyFinished,
    /// The index cannot describe the samples: a video track without video
    /// parameters, timestamps going back, or a table too large.
    Unencodable,
}

} // verus!
