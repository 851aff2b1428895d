//! The file header and the movie box that indexes the media data.

use vstd::prelude::*;
use crate::boxes::{
    be64, boxed_opt, boxed_opt_spec, cat, cat_spec, opt_view, push_u64, words, words_vec,
};
use crate::muxer::SampleRecord;
use crate::tables::{
    co64_box, co64_spec, encodable, stsc_box, stsc_spec, stsd_box, stsd_spec, stss_box,
    stss_spec, stsz_box, stsz_spec, stts_box, stts_spec,
};

verus! {

pub const FTYP: u32 = 0x66747970;
pub const MDAT: u32 = 0x6d646174;
pub const MOOV: u32 = 0x6d6f6f76;
pub const MVHD: u32 = 0x6d766864;
pub const TRAK: u32 = 0x7472616b;
pub const TKHD: u32 = 0x746b6864;
pub const MDIA: u32 = 0x6d646961;
pub const MDHD: u32 = 0x6d646864;
pub const HDLR: u32 = 0x68646c72;
pub const MINF: u32 = 0x6d696e66;
pub const VMHD: u32 = 0x766d6864;
pub const SMHD: u32 = 0x736d6864;
pub const DINF: u32 = 0x64696e66;
pub const DREF: u32 = 0x64726566;
pub const URL: u32 = 0x75726c20;
pub const STBL: u32 = 0x7374626c;
pub const VIDE: u32 = 0x76696465;
pub const SOUN: u32 = 0x736f756e;
pub const ISOM: u32 = 0x69736f6d;
pub const ISO2: u32 = 0x69736f32;
pub const AVC1: u32 = 0x61766331;
pub const MP41: u32 = 0x6d703431;

/// Bytes before the first byte of media data: the `ftyp` box and the
/// 16-byte `mdat` header.
pub const HEADER_LEN: u64 = 48;

/// Clock rate of h264 timestamps carried over RTP.
pub const VIDEO_TIMESCALE: u32 = 90000;

/// Units per second of the movie header's times.
pub const MOVIE_TIMESCALE: u32 = 1000;

/// The `ftyp` box followed by the header of an `mdat` box holding
/// `data_len` bytes, with a 64-bit size.
pub open spec fn file_header_spec(data_len: u64) -> Seq<u8> {
    words(seq![32u32, FTYP, ISOM, 0x200u32, ISOM, ISO2, AVC1, MP41, 1u32, MDAT]) + be64(
        (data_len + 16) as u64,
    )
}

pub open spec fn mvhd_spec(next_track_id: u32) -> Seq<u8> {
    words(
        seq![
            108u32, MVHD, 0u32, 0u32, 0u32, MOVIE_TIMESCALE, 0u32, 0x00010000u32, 0x01000000u32,
            0u32, 0u32, 0x00010000u32, 0u32, 0u32, 0u32, 0x00010000u32, 0u32, 0u32, 0u32,
            0x40000000u32, 0u32, 0u32, 0u32, 0u32, 0u32, 0u32, next_track_id,
        ],
    )
}

pub open spec fn tkhd_spec(track_id: u32, volume: u32, width: u16, height: u16) -> Seq<u8> {
    words(
        seq![
            92u32, TKHD, 3u32, 0u32, 0u32, track_id, 0u32, 0u32, 0u32, 0u32, 0u32, volume,
            0x00010000u32, 0u32, 0u32, 0u32, 0x00010000u32, 0u32, 0u32, 0u32, 0x40000000u32,
            (width as u32) << 16u32, (height as u32) << 16u32,
        ],
    )
}

pub open spec fn mdhd_spec(timescale: u32, duration: u32) -> Seq<u8> {
    words(seq![32u32, MDHD, 0u32, 0u32, 0u32, timescale, duration, 0x55c40000u32])
}

pub open spec fn hdlr_spec(handler: u32) -> Seq<u8> {
    words(seq![33u32, HDLR, 0u32, 0u32, handler, 0u32, 0u32, 0u32]) + seq![0u8]
}

/// The video or sound media header.
pub open spec fn media_header_spec(is_video: bool) -> Seq<u8> {
    if is_video {
        words(seq![20u32, VMHD, 1u32, 0u32, 0u32])
    } else {
        words(seq![16u32, SMHD, 0u32, 0u32])
    }
}

/// Data information: the media lies in this file.
pub open spec fn dinf_spec() -> Seq<u8> {
    words(seq![36u32, DINF, 28u32, DREF, 0u32, 1u32, 12u32, URL, 1u32])
}

/// Time from the first sample to the last, in the track's timescale.
pub open spec fn span(s: Seq<SampleRecord>) -> int {
    if s.len() == 0 {
        0
    } else {
        s.last().timestamp - s[0].timestamp
    }
}

pub open spec fn stbl_spec(entry: Seq<u8>, s: Seq<SampleRecord>, is_video: bool) -> Option<
    Seq<u8>,
> {
    boxed_opt_spec(
        STBL,
        cat_spec(
            stsd_spec(entry),
            cat_spec(
                stts_spec(s),
                cat_spec(
                    if is_video {
                        stss_spec(s)
                    } else {
                        Some(Seq::empty())
                    },
                    cat_spec(Some(stsc_spec()), cat_spec(stsz_spec(s), co64_spec(s, HEADER_LEN))),
                ),
            ),
        ),
    )
}

/// What a track is, besides its samples.
#[derive(Debug, Clone, PartialEq, Eq)]
pub struct TrackHead {
    pub track_id: u32,
    pub is_video: bool,
    pub timescale: u32,
    pub width: u16,
    pub height: u16,
    /// The codec's sample entry.
    pub sample_entry: Vec<u8>,
}

/// A track head as a mathematical value.
pub struct TrackHeadModel {
    pub track_id: u32,
    pub is_video: bool,
    pub timescale: u32,
    pub width: u16,
    pub height: u16,
    pub sample_entry: Seq<u8>,
}

impl View for TrackHead {
    type V = TrackHeadModel;

    open spec fn view(&self) -> TrackHeadModel {
        TrackHeadModel {
            track_id: self.track_id,
            is_video: self.is_video,
            timescale: self.timescale,
            width: self.width,
            height: self.height,
            sample_entry: self.sample_entry@,
        }
    }
}

/// One track box; `None` when its samples cannot be described.
pub open spec fn trak_spec(t: TrackHeadModel, s: Seq<SampleRecord>) -> Option<Seq<u8>> {
    if 0 <= span(s) <= u32::MAX {
        boxed_opt_spec(
            TRAK,
            cat_spec(
                Some(
                    tkhd_spec(
                        t.track_id,
                        if t.is_video {
                            0u32
                        } else {
                            0x01000000u32
                        },
                        t.width,
                        t.height,
                    ),
                ),
                boxed_opt_spec(
                    MDIA,
                    cat_spec(
                        Some(
                            mdhd_spec(t.timescale, span(s) as u32) + hdlr_spec(
                                if t.is_video {
                                    VIDE
                                } else {
                                    SOUN
                                },
                            ),
                        ),
                        boxed_opt_spec(
                            MINF,
                            cat_spec(
                                Some(media_header_spec(t.is_video) + dinf_spec()),
                                stbl_spec(t.sample_entry, s, t.is_video),
                            ),
                        ),
                    ),
                ),
            ),
        )
    } else {
        None
    }
}

/// The movie box for the given tracks.
pub open spec fn moov_spec(tracks: Seq<(TrackHeadModel, Seq<SampleRecord>)>) -> Option<Seq<u8>> {
    boxed_opt_spec(MOOV, cat_spec(Some(mvhd_spec((tracks.len() + 1) as u32)), traks_spec(tracks)))
}

/// The track boxes one after the other.
pub open spec fn traks_spec(tracks: Seq<(TrackHeadModel, Seq<SampleRecord>)>) -> Option<Seq<u8>>
    decreases tracks.len(),
{
    if tracks.len() == 0 {
        Some(Seq::empty())
    } else {
        cat_spec(traks_spec(tracks.drop_last()), trak_spec(tracks.last().0, tracks.last().1))
    }
}

/// The bytes before the media data, for `data_len` bytes of it.
pub fn file_header(data_len: u64) -> (r: Vec<u8>)
    requires
        data_len + 16 <= u64::MAX,
    ensures
        r@ == file_header_spec(data_len),
{
    let w = vec![32u32, FTYP, ISOM, 0x200u32, ISOM, ISO2, AVC1, MP41, 1u32, MDAT];
    assert(w@ =~= seq![32u32, FTYP, ISOM, 0x200u32, ISOM, ISO2, AVC1, MP41, 1u32, MDAT]);
    let mut out = words_vec(&w);
    push_u64(&mut out, data_len + 16);
    out
}

fn mvhd_box(next_track_id: u32) -> (r: Vec<u8>)
    ensures
        r@ == mvhd_spec(next_track_id),
{
    let w = vec![
        108u32, MVHD, 0u32, 0u32, 0u32, MOVIE_TIMESCALE, 0u32, 0x00010000u32, 0x01000000u32,
        0u32, 0u32, 0x00010000u32, 0u32, 0u32, 0u32, 0x00010000u32, 0u32, 0u32, 0u32,
        0x40000000u32, 0u32, 0u32, 0u32, 0u32, 0u32, 0u32, next_track_id,
    ];
    assert(w@ =~= seq![
        108u32, MVHD, 0u32, 0u32, 0u32, MOVIE_TIMESCALE, 0u32, 0x00010000u32, 0x01000000u32,
        0u32, 0u32, 0x00010000u32, 0u32, 0u32, 0u32, 0x00010000u32, 0u32, 0u32, 0u32,
        0x40000000u32, 0u32, 0u32, 0u32, 0u32, 0u32, 0u32, next_track_id,
    ]);
    words_vec(&w)
}

fn tkhd_box(track_id: u32, volume: u32, width: u16, height: u16) -> (r: Vec<u8>)
    ensures
        r@ == tkhd_spec(track_id, volume, width, height),
{
    let w = vec![
        92u32, TKHD, 3u32, 0u32, 0u32, track_id, 0u32, 0u32, 0u32, 0u32, 0u32, volume,
        0x00010000u32, 0u32, 0u32, 0u32, 0x00010000u32, 0u32, 0u32, 0u32, 0x40000000u32,
        (width as u32) << 16u32, (height as u32) << 16u32,
    ];
    assert(w@ =~= seq![
        92u32, TKHD, 3u32, 0u32, 0u32, track_id, 0u32, 0u32, 0u32, 0u32, 0u32, volume,
        0x00010000u32, 0u32, 0u32, 0u32, 0x00010000u32, 0u32, 0u32, 0u32, 0x40000000u32,
        (width as u32) << 16u32, (height as u32) << 16u32,
    ]);
    words_vec(&w)
}

/// The media and handler headers, one after the other.
fn mdhd_hdlr_boxes(timescale: u32, duration: u32, handler: u32) -> (r: Vec<u8>)
    ensures
        r@ == mdhd_spec(timescale, duration) + hdlr_spec(handler),
{
    let w = vec![
        32u32, MDHD, 0u32, 0u32, 0u32, timescale, duration, 0x55c40000u32,
        33u32, HDLR, 0u32, 0u32, handler, 0u32, 0u32, 0u32,
    ];
    let ghost a = seq![32u32, MDHD, 0u32, 0u32, 0u32, timescale, duration, 0x55c40000u32];
    let ghost b = seq![33u32, HDLR, 0u32, 0u32, handler, 0u32, 0u32, 0u32];
    assert(w@ =~= a + b);
    proof {
        crate::boxes::lemma_words_concat(a, b);
    }
    let mut out = words_vec(&w);
    out.push(0u8);
    assert(out@ =~= mdhd_spec(timescale, duration) + hdlr_spec(handler));
    out
}

/// The media header and the data information.
fn minf_head(is_video: bool) -> (r: Vec<u8>)
    ensures
        r@ == media_header_spec(is_video) + dinf_spec(),
{
    let dinf = vec![36u32, DINF, 28u32, DREF, 0u32, 1u32, 12u32, URL, 1u32];
    assert(dinf@ =~= seq![36u32, DINF, 28u32, DREF, 0u32, 1u32, 12u32, URL, 1u32]);
    let mut d = words_vec(&dinf);
    let mut out = if is_video {
        let h = vec![20u32, VMHD, 1u32, 0u32, 0u32];
        assert(h@ =~= seq![20u32, VMHD, 1u32, 0u32, 0u32]);
        words_vec(&h)
    } else {
        let h = vec![16u32, SMHD, 0u32, 0u32];
        assert(h@ =~= seq![16u32, SMHD, 0u32, 0u32]);
        words_vec(&h)
    };
    out.append(&mut d);
    out
}

/// The sample table box of one track.
pub fn stbl_box(entry: &Vec<u8>, s: &Vec<SampleRecord>, is_video: bool) -> (r: Option<Vec<u8>>)
    requires
        encodable(s@, HEADER_LEN),
    ensures
        opt_view(r) == stbl_spec(entry@, s@, is_video),
{
    let sync = if is_video {
        stss_box(s)
    } else {
        Some(Vec::new())
    };
    assert(opt_view(sync) == (if is_video {
        stss_spec(s@)
    } else {
        Some(Seq::<u8>::empty())
    }));
    let tail = cat(Some(stsc_box()), cat(stsz_box(s), co64_box(s, HEADER_LEN)));
    let body = cat(stsd_box(entry), cat(stts_box(s), cat(sync, tail)));
    boxed_opt(STBL, body)
}

/// One track box.
pub fn trak_box(t: &TrackHead, s: &Vec<SampleRecord>) -> (r: Option<Vec<u8>>)
    requires
        encodable(s@, HEADER_LEN),
    ensures
        opt_view(r) == trak_spec(t@, s@),
{
    let n = s.len();
    let d: i128 = if n == 0 {
        0
    } else {
        s[n - 1].timestamp as i128 - s[0].timestamp as i128
    };
    assert(d == span(s@));
    if d < 0 || d > 0xffff_ffffi128 {
        return None;
    }
    let volume: u32 = if t.is_video {
        0
    } else {
        0x01000000
    };
    let handler: u32 = if t.is_video {
        VIDE
    } else {
        SOUN
    };
    let minf = boxed_opt(MINF, cat(Some(minf_head(t.is_video)), stbl_box(&t.sample_entry, s, t.is_video)));
    let mdia = boxed_opt(MDIA, cat(Some(mdhd_hdlr_boxes(t.timescale, d as u32, handler)), minf));
    boxed_opt(TRAK, cat(Some(tkhd_box(t.track_id, volume, t.width, t.height)), mdia))
}

/// The movie box indexing `tracks`, numbered from one in order.
pub fn moov_box(heads: &Vec<TrackHead>, samples: &Vec<Vec<SampleRecord>>) -> (r: Option<Vec<u8>>)
    requires
        heads@.len() == samples@.len(),
        heads@.len() < u32::MAX,
        forall|i: int| 0 <= i < samples@.len() ==> encodable(#[trigger] samples@[i]@, HEADER_LEN),
    ensures
        opt_view(r) == moov_spec(
            Seq::new(heads@.len(), |i: int| (heads@[i]@, samples@[i]@)),
        ),
{
    let ghost tracks = Seq::new(heads@.len(), |i: int| (heads@[i]@, samples@[i]@));
    let mut acc: Option<Vec<u8>> = Some(Vec::new());
    let mut i: usize = 0;
    assert(tracks.take(0) =~= Seq::<(TrackHeadModel, Seq<SampleRecord>)>::empty());
    while i < heads.len()
        invariant
            i <= heads@.len(),
            heads@.len() == samples@.len(),
            tracks == Seq::new(heads@.len(), |i: int| (heads@[i]@, samples@[i]@)),
            forall|i: int| 0 <= i < samples@.len() ==> encodable(#[trigger] samples@[i]@, HEADER_LEN),
            opt_view(acc) == traks_spec(tracks.take(i as int)),
        decreases heads@.len() - i,
    {
        assert(encodable(samples@[i as int]@, HEADER_LEN));
        let t = trak_box(&heads[i], &samples[i]);
        proof {
            assert(tracks.take(i + 1).drop_last() =~= tracks.take(i as int));
            assert(tracks.take(i + 1).last() == (heads@[i as int]@, samples@[i as int]@));
        }
        acc = cat(acc, t);
        i = i + 1;
    }
    assert(tracks.take(i as int) =~= tracks);
    boxed_opt(MOOV, cat(Some(mvhd_box((heads.len() + 1) as u32)), acc))
}

} // verus!
