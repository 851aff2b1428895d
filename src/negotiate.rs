//! Choosing which streams of a described session to record.

use vstd::prelude::*;
use crate::error::RecordError;
use crate::options::Mp4RecorderOptions;
use crate::text::str_equal;

verus! {

/// What the described session says of one of its streams.
#[derive(Debug, Clone, PartialEq, Eq)]
pub struct StreamInfo {
    /// Media kind, such as "video" or "audio".
    pub media: String,
    /// Encoding name, such as "h264".
    pub encoding_name: String,
    /// The stream carries audio parameters from which an `.mp4` sample
    /// entry can be built without transcoding.
    pub audio_sample_entry: bool,
}

/// The streams chosen for one recording; at least one is present.
#[derive(Debug, Clone, Copy, PartialEq, Eq)]
pub struct StreamSelection {
    pub video: Option<usize>,
    pub audio: Option<usize>,
}

/// A video stream the container can hold: h264.
pub open spec fn video_qualifies(s: StreamInfo) -> bool {
    s.media@ == "video"@ && s.encoding_name@ == "h264"@
}

/// An audio stream the container can describe with a sample entry.
pub open spec fn audio_qualifies(s: StreamInfo) -> bool {
    s.audio_sample_entry
}

/// `r` is the first index of `streams` whose stream is a qualifying video
/// stream, or `None` when there is none.
pub open spec fn first_video(streams: Seq<StreamInfo>, r: Option<usize>) -> bool {
    match r {
        Some(i) => i < streams.len() && video_qualifies(streams[i as int]) && forall|j: int|
            0 <= j < i ==> !video_qualifies(#[trigger] streams[j]),
        None => forall|j: int| 0 <= j < streams.len() ==> !video_qualifies(#[trigger] streams[j]),
    }
}

/// As `first_video`, for audio.
pub open spec fn first_audio(streams: Seq<StreamInfo>, r: Option<usize>) -> bool {
    match r {
        Some(i) => i < streams.len() && audio_qualifies(streams[i as int]) && forall|j: int|
            0 <= j < i ==> !audio_qualifies(#[trigger] streams[j]),
        None => forall|j: int| 0 <= j < streams.len() ==> !audio_qualifies(#[trigger] streams[j]),
    }
}

/// Whether `s` is a video stream encoded as h264.
pub fn is_supported_video(s: &StreamInfo) -> (r: bool)
    ensures
        r == video_qualifies(*s),
{
    str_equal(s.media.as_str(), "video") && str_equal(s.encoding_name.as_str(), "h264")
}

/// The first h264 video stream, unless video is disabled.
pub fn select_video_stream(streams: &Vec<StreamInfo>, no_video: bool) -> (r: Option<usize>)
    ensures
        no_video ==> r.is_none(),
        !no_video ==> first_video(streams@, r),
{
    if no_video {
        return None;
    }
    let mut i: usize = 0;
    while i < streams.len()
        invariant
            i <= streams@.len(),
            !no_video,
            forall|j: int| 0 <= j < i ==> !video_qualifies(#[trigger] streams@[j]),
        decreases streams@.len() - i,
    {
        if is_supported_video(&streams[i]) {
            return Some(i);
        }
        i = i + 1;
    }
    None
}

/// The first audio stream that can be placed in the container without
/// transcoding, unless audio is disabled.
pub fn select_audio_stream(streams: &Vec<StreamInfo>, no_audio: bool) -> (r: Option<usize>)
    ensures
        no_audio ==> r.is_none(),
        !no_audio ==> first_audio(streams@, r),
{
    if no_audio {
        return None;
    }
    let mut i: usize = 0;
    while i < streams.len()
        invariant
            i <= streams@.len(),
            !no_audio,
            forall|j: int| 0 <= j < i ==> !audio_qualifies(#[trigger] streams@[j]),
        decreases streams@.len() - i,
    {
        if streams[i].audio_sample_entry {
            return Some(i);
        }
        i = i + 1;
    }
    None
}

/// The video and audio streams to record under `options`. Fails with
/// `NoUsableStream` when neither kind yields a stream, in which case no
/// stream is to be set up.
pub fn negotiate(streams: &Vec<StreamInfo>, options: &Mp4RecorderOptions) -> (r: Result<
    StreamSelection,
    RecordError,
>)
    ensures
        match r {
            Ok(sel) => {
                &&& (options.no_video ==> sel.video.is_none())
                &&& (!options.no_video ==> first_video(streams@, sel.video))
                &&& (options.no_audio ==> sel.audio.is_none())
                &&& (!options.no_audio ==> first_audio(streams@, sel.audio))
                &&& (sel.video.is_some() || sel.audio.is_some())
            },
            Err(e) => e == RecordError::NoUsableStream && (options.no_video || forall|j: int|
                0 <= j < streams@.len() ==> !video_qualifies(#[trigger] streams@[j])) && (
            options.no_audio || forall|j: int|
                0 <= j < streams@.len() ==> !audio_qualifies(#[trigger] streams@[j])),
        },
{
    let video = select_video_stream(streams, options.no_video);
    let audio = select_audio_stream(streams, options.no_audio);
    if video.is_none() && audio.is_none() {
        return Err(RecordError::NoUsableStream);
    }
    Ok(StreamSelection { video, audio })
}

/// The stream indices to send setup requests for, video first.
pub fn setup_requests(sel: &StreamSelection) -> (r: Vec<usize>)
    ensures
        r@ == (match sel.video {
            Some(v) => seq![v],
            None => Seq::<usize>::empty(),
        }) + (match sel.audio {
            Some(a) => seq![a],
            None => Seq::<usize>::empty(),
        }),
{
    let mut r: Vec<usize> = Vec::new();
    if let Some(v) = sel.video {
        r.push(v);
    }
    if let Some(a) = sel.audio {
        r.push(a);
    }
    proof {
        assert(r@ =~= (match sel.video {
            Some(v) => seq![v],
            None => Seq::<usize>::empty(),
        }) + (match sel.audio {
            Some(a) => seq![a],
            None => Seq::<usize>::empty(),
        }));
    }
    r
}

} // verus!
