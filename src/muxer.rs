//! The container muxer's bookkeeping: which samples were accepted into the
//! media data, where each one lies, and whether the file may be finished.

use vstd::prelude::*;
use crate::boxes::opt_view;
use crate::error::MuxError;
use crate::movie::{
    file_header, file_header_spec, moov_box, moov_spec, TrackHead, TrackHeadModel, HEADER_LEN,
    VIDEO_TIMESCALE,
};
use crate::tables::encodable;

verus! {

/// Audio parameters of the selected audio stream.
#[derive(Debug, Clone, PartialEq, Eq)]
pub struct AudioParams {
    /// Samples per second of the stream's timestamps.
    pub clock_rate: u32,
    /// The `.mp4` sample entry describing the codec.
    pub sample_entry: Vec<u8>,
}

/// Parameters of the selected video stream, as the container describes
/// them.
#[derive(Debug, Clone, PartialEq, Eq)]
pub struct VideoParams {
    /// The `.mp4` sample entry of the codec.
    pub sample_entry: Vec<u8>,
    pub width: u16,
    pub height: u16,
}

/// What the muxer needs to know of the stream a video frame came from.
#[derive(Debug, Clone, Copy, PartialEq, Eq)]
pub struct VideoStreamInfo {
    /// The stream's parameter sets (SPS/PPS) are known.
    pub has_parameters: bool,
}

/// One received video frame.
#[derive(Debug, Clone, Copy, PartialEq, Eq)]
pub struct VideoFrame {
    pub timestamp: i64,
    /// The frame can be decoded on its own (a sync sample).
    pub is_random_access: bool,
    /// Length of its payload in bytes.
    pub len: u64,
}

/// One received audio frame.
#[derive(Debug, Clone, Copy, PartialEq, Eq)]
pub struct AudioFrame {
    pub timestamp: i64,
    /// Length of its payload in bytes.
    pub len: u64,
}

/// Where an accepted sample lies in the media data, and what the index
/// records of it.
#[derive(Debug, Clone, Copy, PartialEq, Eq)]
pub struct SampleRecord {
    /// Offset of its first byte from the start of the media data.
    pub offset: u64,
    pub len: u64,
    pub timestamp: i64,
    pub sync: bool,
}

/// The muxer as a mathematical value.
pub struct MuxerModel {
    pub video: Seq<SampleRecord>,
    pub audio: Seq<SampleRecord>,
    /// Bytes of media data written so far.
    pub data_len: nat,
    pub has_audio: bool,
    /// The audio sample entry and clock rate, when `has_audio`.
    pub audio_entry: Seq<u8>,
    pub audio_rate: u32,
    pub allow_loss: bool,
    pub finished: bool,
}

/// Accumulates the sample index of one `.mp4` recording.
pub struct Mp4Writer {
    audio_params: Option<AudioParams>,
    allow_loss: bool,
    video_samples: Vec<SampleRecord>,
    audio_samples: Vec<SampleRecord>,
    data_len: u64,
    finished: bool,
}

impl View for Mp4Writer {
    type V = MuxerModel;

    closed spec fn view(&self) -> MuxerModel {
        MuxerModel {
            video: self.video_samples@,
            audio: self.audio_samples@,
            data_len: self.data_len as nat,
            has_audio: self.audio_params.is_some(),
            audio_entry: match &self.audio_params {
                Some(p) => p.sample_entry@,
                None => Seq::empty(),
            },
            audio_rate: match &self.audio_params {
                Some(p) => p.clock_rate,
                None => 0,
            },
            allow_loss: self.allow_loss,
            finished: self.finished,
        }
    }
}

/// Most bytes of media data one file holds; past it the offsets could not
/// be shifted by the file header.
pub const MAX_MEDIA_DATA: u64 = 0xffff_ffff_0000_0000;

/// Every sample of `s` lies within the first `data_len` bytes, and its
/// length fits a 32-bit size field.
pub open spec fn within(s: Seq<SampleRecord>, data_len: nat) -> bool {
    forall|i: int|
        0 <= i < s.len() ==> #[trigger] s[i].offset + s[i].len <= data_len && s[i].len <= u32::MAX
}

/// The record a sample appended at the end of `data_len` bytes gets.
pub open spec fn appended(data_len: nat, timestamp: i64, len: u64, sync: bool) -> SampleRecord {
    SampleRecord { offset: data_len as u64, len, timestamp, sync }
}

impl MuxerModel {
    /// The index is consistent: every sample lies in the media data.
    pub open spec fn wf(self) -> bool {
        &&& within(self.video, self.data_len)
        &&& within(self.audio, self.data_len)
        &&& self.data_len <= MAX_MEDIA_DATA
    }

    /// Number of samples accepted on both tracks.
    pub open spec fn sample_count(self) -> nat {
        self.video.len() + self.audio.len()
    }
}

/// What appending a video frame does to the muxer, and what it returns.
pub open spec fn video_step(m: MuxerModel, stream: VideoStreamInfo, frame: VideoFrame) -> (
    MuxerModel,
    Result<(), MuxError>,
) {
    if m.finished {
        (m, Err(MuxError::AlreadyFinished))
    } else if !stream.has_parameters {
        if m.allow_loss {
            (m, Ok(()))
        } else {
            (m, Err(MuxError::MissingParameters))
        }
    } else if frame.len > u32::MAX || m.data_len + frame.len > MAX_MEDIA_DATA {
        (m, Err(MuxError::TooLarge))
    } else {
        (
            MuxerModel {
                video: m.video.push(
                    appended(m.data_len, frame.timestamp, frame.len, frame.is_random_access),
                ),
                data_len: (m.data_len + frame.len) as nat,
                ..m
            },
            Ok(()),
        )
    }
}

/// What appending an audio frame does to the muxer, and what it returns.
pub open spec fn audio_step(m: MuxerModel, frame: AudioFrame) -> (MuxerModel, Result<(), MuxError>) {
    if m.finished {
        (m, Err(MuxError::AlreadyFinished))
    } else if !m.has_audio {
        (m, Err(MuxError::NoAudioTrack))
    } else if frame.len > u32::MAX || m.data_len + frame.len > MAX_MEDIA_DATA {
        (m, Err(MuxError::TooLarge))
    } else {
        (
            MuxerModel {
                audio: m.audio.push(appended(m.data_len, frame.timestamp, frame.len, true)),
                data_len: (m.data_len + frame.len) as nat,
                ..m
            },
            Ok(()),
        )
    }
}

/// What finishing does to the muxer, and what it returns.
pub open spec fn finish_step(m: MuxerModel) -> (MuxerModel, Result<(), MuxError>) {
    let done = MuxerModel { finished: true, ..m };
    if m.finished {
        (done, Err(MuxError::AlreadyFinished))
    } else if m.sample_count() == 0 {
        (done, Err(MuxError::EmptyRecording))
    } else {
        (done, Ok(()))
    }
}

/// The tracks of the finished file: a video track when video samples were
/// accepted, then an audio track when audio samples were.
pub open spec fn track_list(m: MuxerModel, video: Option<VideoParams>) -> Option<
    Seq<(TrackHeadModel, Seq<SampleRecord>)>,
> {
    let audio_id: u32 = if m.video.len() > 0 {
        2
    } else {
        1
    };
    let audio = if m.has_audio && m.audio.len() > 0 {
        seq![
            (
                TrackHeadModel {
                    track_id: audio_id,
                    is_video: false,
                    timescale: m.audio_rate,
                    width: 0,
                    height: 0,
                    sample_entry: m.audio_entry,
                },
                m.audio,
            ),
        ]
    } else {
        Seq::empty()
    };
    if m.video.len() == 0 {
        Some(audio)
    } else {
        match video {
            Some(p) => Some(
                seq![
                    (
                        TrackHeadModel {
                            track_id: 1,
                            is_video: true,
                            timescale: VIDEO_TIMESCALE,
                            width: p.width,
                            height: p.height,
                            sample_entry: p.sample_entry@,
                        },
                        m.video,
                    ),
                ] + audio,
            ),
            None => None,
        }
    }
}

/// The movie box of the file; `None` when its tracks cannot be described.
pub open spec fn movie_spec(m: MuxerModel, video: Option<VideoParams>) -> Option<Seq<u8>> {
    match track_list(m, video) {
        Some(t) => moov_spec(t),
        None => None,
    }
}

proof fn lemma_wf_encodable(s: Seq<SampleRecord>, data_len: nat)
    requires
        within(s, data_len),
        data_len <= MAX_MEDIA_DATA,
    ensures
        encodable(s, HEADER_LEN),
{
    assert forall|i: int| 0 <= i < s.len() implies #[trigger] s[i].len <= u32::MAX && HEADER_LEN
        + s[i].offset <= u64::MAX by {
        assert(s[i].offset + s[i].len <= data_len);
    }
}

fn copy_records(v: &Vec<SampleRecord>) -> (r: Vec<SampleRecord>)
    ensures
        r@ == v@,
{
    let mut r: Vec<SampleRecord> = Vec::new();
    let mut i: usize = 0;
    while i < v.len()
        invariant
            i <= v@.len(),
            r@ == v@.take(i as int),
        decreases v@.len() - i,
    {
        r.push(v[i]);
        assert(r@ =~= v@.take(i + 1));
        i = i + 1;
    }
    assert(v@.take(i as int) =~= v@);
    r
}

proof fn lemma_within_grows(s: Seq<SampleRecord>, a: nat, b: nat)
    requires
        within(s, a),
        a <= b,
    ensures
        within(s, b),
{
}

proof fn lemma_within_push(s: Seq<SampleRecord>, a: nat, r: SampleRecord)
    requires
        within(s, a),
        r.offset + r.len <= a,
        r.len <= u32::MAX,
    ensures
        within(s.push(r), a),
{
    assert forall|i: int| 0 <= i < s.push(r).len() implies #[trigger] s.push(r)[i].offset
        + s.push(r)[i].len <= a by {
        if i < s.len() {
            assert(s.push(r)[i] == s[i]);
        }
    }
}

impl Mp4Writer {
    /// A muxer with no samples; it has an audio track exactly when audio
    /// parameters are given.
    pub fn new(audio_params: Option<AudioParams>, allow_loss: bool) -> (r: Mp4Writer)
        ensures
            r@.wf(),
            r@.video.len() == 0,
            r@.audio.len() == 0,
            r@.data_len == 0,
            r@.has_audio == audio_params.is_some(),
            audio_params.is_some() ==> r@.audio_entry == audio_params.unwrap().sample_entry@
                && r@.audio_rate == audio_params.unwrap().clock_rate,
            r@.allow_loss == allow_loss,
            !r@.finished,
    {
        Mp4Writer {
            audio_params,
            allow_loss,
            video_samples: Vec::new(),
            audio_samples: Vec::new(),
            data_len: 0,
            finished: false,
        }
    }

    /// Appends one video sample at the end of the media data. A frame from
    /// a stream without parameter sets is refused, or skipped without
    /// touching the index when loss is tolerated.
    pub fn video(&mut self, stream: &VideoStreamInfo, frame: &VideoFrame) -> (r: Result<(), MuxError>)
        requires
            old(self)@.wf(),
        ensures
            final(self)@.wf(),
            (final(self)@, r) == video_step(old(self)@, *stream, *frame),
    {
        if self.finished {
            return Err(MuxError::AlreadyFinished);
        }
        if !stream.has_parameters {
            if self.allow_loss {
                return Ok(());
            }
            return Err(MuxError::MissingParameters);
        }
        if frame.len > 0xffff_ffffu64 || frame.len > MAX_MEDIA_DATA - self.data_len {
            return Err(MuxError::TooLarge);
        }
        let rec = SampleRecord {
            offset: self.data_len,
            len: frame.len,
            timestamp: frame.timestamp,
            sync: frame.is_random_access,
        };
        proof {
            let grown = (self.data_len + frame.len) as nat;
            lemma_within_grows(self.video_samples@, self.data_len as nat, grown);
            lemma_within_push(self.video_samples@, grown, rec);
            lemma_within_grows(self.audio_samples@, self.data_len as nat, grown);
        }
        self.video_samples.push(rec);
        self.data_len = self.data_len + frame.len;
        Ok(())
    }

    /// Appends one audio sample at the end of the media data; refused when
    /// the muxer has no audio track.
    pub fn audio(&mut self, frame: &AudioFrame) -> (r: Result<(), MuxError>)
        requires
            old(self)@.wf(),
        ensures
            final(self)@.wf(),
            (final(self)@, r) == audio_step(old(self)@, *frame),
    {
        if self.finished {
            return Err(MuxError::AlreadyFinished);
        }
        if self.audio_params.is_none() {
            return Err(MuxError::NoAudioTrack);
        }
        if frame.len > 0xffff_ffffu64 || frame.len > MAX_MEDIA_DATA - self.data_len {
            return Err(MuxError::TooLarge);
        }
        let rec = SampleRecord {
            offset: self.data_len,
            len: frame.len,
            timestamp: frame.timestamp,
            sync: true,
        };
        proof {
            let grown = (self.data_len + frame.len) as nat;
            lemma_within_grows(self.audio_samples@, self.data_len as nat, grown);
            lemma_within_push(self.audio_samples@, grown, rec);
            lemma_within_grows(self.video_samples@, self.data_len as nat, grown);
        }
        self.audio_samples.push(rec);
        self.data_len = self.data_len + frame.len;
        Ok(())
    }

    /// Closes the index. The first call finishes the muxer; it fails when
    /// no sample was accepted. Any later call fails.
    pub fn finish(&mut self) -> (r: Result<(), MuxError>)
        requires
            old(self)@.wf(),
        ensures
            final(self)@.wf(),
            (final(self)@, r) == finish_step(old(self)@),
    {
        if self.finished {
            return Err(MuxError::AlreadyFinished);
        }
        self.finished = true;
        if self.video_samples.len() == 0 && self.audio_samples.len() == 0 {
            return Err(MuxError::EmptyRecording);
        }
        Ok(())
    }

    /// The bytes before the media data: the file type and the media data
    /// header, sized for the data accepted so far.
    pub fn header(&self) -> (r: Vec<u8>)
        requires
            self@.wf(),
        ensures
            r@ == file_header_spec(self@.data_len as u64),
    {
        file_header(self.data_len)
    }

    /// The movie box that indexes the accepted samples, given the video
    /// stream's parameters.
    pub fn moov(&self, video: &Option<VideoParams>) -> (r: Option<Vec<u8>>)
        requires
            self@.wf(),
        ensures
            opt_view(r) == movie_spec(self@, *video),
    {
        let mut heads: Vec<TrackHead> = Vec::new();
        let mut samples: Vec<Vec<SampleRecord>> = Vec::new();
        proof {
            lemma_wf_encodable(self.video_samples@, self.data_len as nat);
            lemma_wf_encodable(self.audio_samples@, self.data_len as nat);
        }
        if self.video_samples.len() > 0 {
            match video {
                Some(p) => {
                    let entry = p.sample_entry.clone();
                    assert(entry@ =~= p.sample_entry@);
                    heads.push(TrackHead {
                        track_id: 1,
                        is_video: true,
                        timescale: VIDEO_TIMESCALE,
                        width: p.width,
                        height: p.height,
                        sample_entry: entry,
                    });
                    samples.push(copy_records(&self.video_samples));
                },
                None => {
                    return None;
                },
            }
        }
        let audio_id: u32 = if self.video_samples.len() > 0 {
            2
        } else {
            1
        };
        if self.audio_samples.len() > 0 {
            match &self.audio_params {
                Some(p) => {
                    let entry = p.sample_entry.clone();
                    assert(entry@ =~= p.sample_entry@);
                    heads.push(TrackHead {
                        track_id: audio_id,
                        is_video: false,
                        timescale: p.clock_rate,
                        width: 0,
                        height: 0,
                        sample_entry: entry,
                    });
                    samples.push(copy_records(&self.audio_samples));
                },
                None => {},
            }
        }
        let ghost tracks = Seq::new(heads@.len(), |i: int| (heads@[i]@, samples@[i]@));
        assert(track_list(self@, *video) == Some(tracks)) by {
            assert(tracks =~= track_list(self@, *video).unwrap());
        }
        moov_box(&heads, &samples)
    }

    /// The accepted video samples, in order of arrival.
    pub fn video_samples(&self) -> (r: &Vec<SampleRecord>)
        ensures
            r@ == self@.video,
    {
        &self.video_samples
    }

    /// The accepted audio samples, in order of arrival.
    pub fn audio_samples(&self) -> (r: &Vec<SampleRecord>)
        ensures
            r@ == self@.audio,
    {
        &self.audio_samples
    }

    /// Bytes of media data accepted so far.
    pub fn data_len(&self) -> (r: u64)
        ensures
            r == self@.data_len,
    {
        self.data_len
    }

    /// The audio parameters the muxer was made with.
    pub fn audio_params(&self) -> (r: &Option<AudioParams>)
        ensures
            r.is_some() == self@.has_audio,
    {
        &self.audio_params
    }
}

} // verus!
