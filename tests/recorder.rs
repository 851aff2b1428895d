use camera_recorder::boxes::{boxed, boxed_opt, cat, push_u32, push_u64, words_vec};
use camera_recorder::command::{get_command, Command};
use camera_recorder::movie::{file_header, moov_box, trak_box, stbl_box, TrackHead, HEADER_LEN, MOOV};
use camera_recorder::tables::{co64_box, stsc_box, stsd_box, stss_box, stsz_box, stts_box};
use camera_recorder::error::{MuxError, RecordError};
use camera_recorder::muxer::{
    AudioFrame, AudioParams, Mp4Writer, SampleRecord, VideoFrame, VideoParams, VideoStreamInfo,
};
use camera_recorder::negotiate::{
    negotiate, select_audio_stream, select_video_stream, setup_requests, StreamInfo,
    StreamSelection,
};
use camera_recorder::options::{
    recording_file_name, Camera, InitialTimestampPolicy, Mp4RecorderOptions, OptionsError,
    Source, TeardownPolicy, TransportMode,
};
use camera_recorder::publish::{finish_recording, partial_path, publish_action, PublishAction};
use camera_recorder::recording::{copy, copy_step, LoopEvent, LoopStep};
use camera_recorder::session::{
    plan_recording, PlayRequest, SessionLifecycle, SessionState, MAX_JUMP_SECS,
};
use camera_recorder::text::{ends_with, joined, last_index_of, starts_with_char, str_equal};

fn stream(media: &str, encoding: &str, sample_entry: bool) -> StreamInfo {
    StreamInfo {
        media: media.to_string(),
        encoding_name: encoding.to_string(),
        audio_sample_entry: sample_entry,
    }
}

fn options(no_video: bool, no_audio: bool, duration: Option<u64>) -> Mp4RecorderOptions {
    Mp4RecorderOptions {
        source: Source {
            url: "rtsp://camera.local/stream1".to_string(),
            username: "admin".to_string(),
            password: "SECRET-REDACTED".to_string(),
        },
        initial_timestamp: InitialTimestampPolicy::Default,
        no_video,
        no_audio,
        allow_loss: false,
        teardown: TeardownPolicy::Always,
        duration,
        transport: TransportMode::Tcp,
        output: "out.mp4".to_string(),
    }
}

fn camera(url: &str, transport: &str) -> Camera {
    Camera {
        name: "door".to_string(),
        url: url.to_string(),
        username: "admin".to_string(),
        password: "SECRET-REDACTED".to_string(),
        no_audio: true,
        no_video: false,
        duration: 5,
        transport: transport.to_string(),
    }
}

fn video_event(has_parameters: bool, ts: i64, len: u64, key: bool) -> LoopEvent {
    LoopEvent::VideoFrame {
        stream: VideoStreamInfo { has_parameters },
        start_ctx: format!("packet {ts}"),
        frame: VideoFrame { timestamp: ts, is_random_access: key, len },
    }
}

fn audio_event(ts: i64, len: u64) -> LoopEvent {
    LoopEvent::AudioFrame { ctx: format!("audio {ts}"), frame: AudioFrame { timestamp: ts, len } }
}

fn avc() -> VideoParams {
    VideoParams { sample_entry: vec![0, 0, 0, 8, b'a', b'v', b'c', b'1'], width: 1280, height: 720 }
}

fn be32_at(b: &[u8], i: usize) -> u32 {
    u32::from_be_bytes([b[i], b[i + 1], b[i + 2], b[i + 3]])
}

fn count_kind(b: &[u8], kind: &[u8; 4]) -> usize {
    b.windows(4).filter(|w| *w == kind).count()
}

fn aac() -> AudioParams {
    AudioParams { clock_rate: 8000, sample_entry: vec![0, 0, 0, 8, b'm', b'p', b'4', b'a'] }
}

#[test]
fn scenario_a_video_and_audio_recorded() {
    let streams = vec![stream("video", "h264", false), stream("audio", "mpeg4-generic", true)];
    let opts = options(false, false, Some(5));
    let plan = plan_recording(&streams, &opts).unwrap();
    assert_eq!(plan.video_stream, Some(0));
    assert_eq!(plan.audio_stream, Some(1));
    assert_eq!(plan.setups, vec![0, 1]);
    assert_eq!(plan.deadline_secs, Some(5));
    assert_eq!(plan.temp_path, "out.mp4.partial");
    assert_eq!(
        plan.play,
        PlayRequest { initial_timestamp: InitialTimestampPolicy::Default, max_jump_secs: 10 }
    );

    let mut mp4 = Mp4Writer::new(Some(aac()), opts.allow_loss);
    let events = vec![
        video_event(true, 0, 1000, true),
        audio_event(0, 200),
        video_event(true, 3000, 400, false),
        LoopEvent::SenderReport { rtp_timestamp: 3000, ntp_timestamp: 77 },
        audio_event(1024, 210),
        LoopEvent::DeadlineElapsed,
        video_event(true, 6000, 500, false),
    ];
    assert_eq!(copy(&mut mp4, &events), Some(Ok(())));
    assert_eq!(mp4.video_samples().len(), 2);
    assert_eq!(mp4.audio_samples().len(), 2);
    assert_eq!(mp4.data_len(), 1810);
    let (action, finished, result) = finish_recording(&mut mp4, &Some(avc()), Ok(()));
    assert_eq!(action, PublishAction::Promote);
    let moov = finished.unwrap();
    assert_eq!(&moov[4..8], b"moov");
    assert_eq!(be32_at(&moov, 0) as usize, moov.len());
    assert_eq!(count_kind(&moov, b"trak"), 2);
    assert_eq!(count_kind(&moov, b"vide"), 1);
    assert_eq!(count_kind(&moov, b"soun"), 1);
    assert_eq!(result, Ok(()));
}

#[test]
fn scenario_b_nothing_selectable() {
    let streams = vec![stream("video", "h265", false)];
    let opts = options(true, true, Some(5));
    assert_eq!(plan_recording(&streams, &opts), Err(RecordError::NoUsableStream));
    assert_eq!(negotiate(&streams, &opts), Err(RecordError::NoUsableStream));
    // without the disables the h265 stream still does not qualify
    let opts = options(false, false, Some(5));
    assert_eq!(negotiate(&streams, &opts), Err(RecordError::NoUsableStream));
}

#[test]
fn scenario_c_append_error_on_tenth_frame() {
    let mut events = Vec::new();
    for k in 0..9 {
        events.push(video_event(true, k * 3000, 100, k == 0));
    }
    events.push(video_event(false, 27000, 100, false));
    events.push(LoopEvent::DeadlineElapsed);
    let mut mp4 = Mp4Writer::new(None, false);
    let outcome = copy(&mut mp4, &events).unwrap();
    assert_eq!(
        outcome,
        Err(RecordError::VideoFrame("packet 27000".to_string(), MuxError::MissingParameters))
    );
    assert_eq!(mp4.video_samples().len(), 9);
    let (action, finished, result) = finish_recording(&mut mp4, &Some(avc()), outcome);
    assert!(finished.is_ok());
    assert_eq!(action, PublishAction::Discard);
    assert_eq!(
        result,
        Err(RecordError::VideoFrame("packet 27000".to_string(), MuxError::MissingParameters))
    );
}

#[test]
fn first_qualifying_streams_are_chosen() {
    let streams = vec![
        stream("audio", "pcma", false),
        stream("video", "h265", false),
        stream("video", "h264", false),
        stream("audio", "mpeg4-generic", true),
        stream("video", "h264", false),
        stream("audio", "mpeg4-generic", true),
    ];
    assert_eq!(select_video_stream(&streams, false), Some(2));
    assert_eq!(select_audio_stream(&streams, false), Some(3));
    assert_eq!(select_video_stream(&streams, true), None);
    assert_eq!(select_audio_stream(&streams, true), None);
    assert_eq!(
        negotiate(&streams, &options(false, true, None)),
        Ok(StreamSelection { video: Some(2), audio: None })
    );
}

#[test]
fn audio_without_sample_entry_never_selected() {
    let streams = vec![stream("audio", "pcmu", false)];
    assert_eq!(select_audio_stream(&streams, false), None);
    assert_eq!(negotiate(&streams, &options(false, false, None)), Err(RecordError::NoUsableStream));
}

#[test]
fn empty_stream_list() {
    let streams: Vec<StreamInfo> = Vec::new();
    assert_eq!(select_video_stream(&streams, false), None);
    assert_eq!(select_audio_stream(&streams, false), None);
    assert_eq!(plan_recording(&streams, &options(false, false, None)), Err(RecordError::NoUsableStream));
}

#[test]
fn audio_only_plan() {
    let streams = vec![stream("video", "mjpeg", false), stream("audio", "mpeg4-generic", true)];
    let plan = plan_recording(&streams, &options(false, false, None)).unwrap();
    assert_eq!(plan.setups, vec![1]);
    assert_eq!(plan.video_stream, None);
    assert_eq!(plan.deadline_secs, None);
    assert_eq!(setup_requests(&StreamSelection { video: Some(4), audio: None }), vec![4]);
    assert_eq!(MAX_JUMP_SECS, 10);
}

#[test]
fn finish_with_no_samples_fails() {
    let mut mp4 = Mp4Writer::new(Some(aac()), false);
    assert_eq!(mp4.finish(), Err(MuxError::EmptyRecording));
    assert_eq!(mp4.finish(), Err(MuxError::AlreadyFinished));
    let mut mp4 = Mp4Writer::new(None, true);
    let (action, finished, result) = finish_recording(&mut mp4, &None, Ok(()));
    assert_eq!(finished, Err(MuxError::EmptyRecording));
    assert_eq!(action, PublishAction::Discard);
    assert_eq!(result, Ok(()));
}

#[test]
fn muxer_offsets_are_contiguous() {
    let mut mp4 = Mp4Writer::new(Some(aac()), false);
    let s = VideoStreamInfo { has_parameters: true };
    assert_eq!(mp4.video(&s, &VideoFrame { timestamp: 0, is_random_access: true, len: 10 }), Ok(()));
    assert_eq!(mp4.audio(&AudioFrame { timestamp: 5, len: 7 }), Ok(()));
    assert_eq!(mp4.video(&s, &VideoFrame { timestamp: 9, is_random_access: false, len: 3 }), Ok(()));
    let v = mp4.video_samples();
    assert_eq!((v[0].offset, v[0].len, v[0].sync), (0, 10, true));
    assert_eq!((v[1].offset, v[1].len, v[1].sync), (17, 3, false));
    assert_eq!(mp4.audio_samples()[0].offset, 10);
    assert_eq!(mp4.data_len(), 20);
    assert!(mp4.audio_params().is_some());
    assert_eq!(mp4.finish(), Ok(()));
    assert_eq!(mp4.video(&s, &VideoFrame { timestamp: 12, is_random_access: false, len: 3 }), Err(MuxError::AlreadyFinished));
    assert_eq!(mp4.audio(&AudioFrame { timestamp: 12, len: 3 }), Err(MuxError::AlreadyFinished));
}

#[test]
fn muxer_refusals() {
    let mut mp4 = Mp4Writer::new(None, false);
    assert_eq!(mp4.audio(&AudioFrame { timestamp: 0, len: 4 }), Err(MuxError::NoAudioTrack));
    let missing = VideoStreamInfo { has_parameters: false };
    let frame = VideoFrame { timestamp: 0, is_random_access: true, len: 4 };
    assert_eq!(mp4.video(&missing, &frame), Err(MuxError::MissingParameters));
    let ok = VideoStreamInfo { has_parameters: true };
    let huge = VideoFrame { timestamp: 0, is_random_access: true, len: u32::MAX as u64 + 1 };
    assert_eq!(mp4.video(&ok, &huge), Err(MuxError::TooLarge));
    assert_eq!(mp4.video(&ok, &frame), Ok(()));
    assert_eq!(mp4.data_len(), 4);

    let mut lossy = Mp4Writer::new(None, true);
    assert_eq!(lossy.video(&missing, &frame), Ok(()));
    assert_eq!(lossy.video_samples().len(), 0);
    assert_eq!(lossy.finish(), Err(MuxError::EmptyRecording));
}

#[test]
fn loop_events() {
    let mut mp4 = Mp4Writer::new(None, false);
    assert_eq!(copy_step(&mut mp4, &LoopEvent::Other), LoopStep::Continue);
    assert_eq!(copy_step(&mut mp4, &LoopEvent::EndOfStream), LoopStep::Stop(Err(RecordError::UnexpectedEof)));
    assert_eq!(
        copy_step(&mut mp4, &LoopEvent::DemuxFailed("bad rtp".to_string())),
        LoopStep::Stop(Err(RecordError::Demux("bad rtp".to_string())))
    );
    assert_eq!(
        copy_step(&mut mp4, &audio_event(0, 3)),
        LoopStep::Stop(Err(RecordError::AudioFrame("audio 0".to_string(), MuxError::NoAudioTrack)))
    );
    assert_eq!(copy_step(&mut mp4, &LoopEvent::DeadlineElapsed), LoopStep::Stop(Ok(())));
    assert_eq!(copy(&mut mp4, &vec![LoopEvent::Other, video_event(true, 0, 5, true)]), None);
    assert_eq!(copy(&mut mp4, &vec![LoopEvent::EndOfStream]), Some(Err(RecordError::UnexpectedEof)));
}

#[test]
fn publish_decisions() {
    assert_eq!(publish_action(true, true), PublishAction::Promote);
    assert_eq!(publish_action(false, true), PublishAction::Discard);
    assert_eq!(publish_action(true, false), PublishAction::Discard);
    assert_eq!(publish_action(false, false), PublishAction::Discard);
    assert_eq!(partial_path("/tmp/rec.mp4"), "/tmp/rec.mp4.partial");
}

#[test]
fn options_from_camera() {
    let opts = Mp4RecorderOptions::from_camera(camera("rtsp://10.0.0.2:554/stream1", "udp"), "r.mp4".to_string()).unwrap();
    assert_eq!(opts.transport, TransportMode::Udp);
    assert!(opts.allow_loss);
    assert_eq!(opts.duration, Some(5));
    assert_eq!(opts.teardown, TeardownPolicy::Always);
    assert!(opts.no_audio);
    assert_eq!(opts.source.url, "rtsp://10.0.0.2:554/stream1");
    assert_eq!(opts.output, "r.mp4");
    let tcp = Mp4RecorderOptions::from_camera(camera("rtsp://10.0.0.2/s", "tcp"), "r.mp4".to_string()).unwrap();
    assert_eq!(tcp.transport, TransportMode::Tcp);
    assert!(!tcp.allow_loss);
    assert_eq!(
        Mp4RecorderOptions::from_camera(camera("rtsp://10.0.0.2/s", "quic"), "r.mp4".to_string()),
        Err(OptionsError::InvalidTransport)
    );
    assert_eq!(
        Mp4RecorderOptions::from_camera(camera("not a url", "udp"), "r.mp4".to_string()),
        Err(OptionsError::InvalidUrl)
    );
    assert_eq!(recording_file_name("2024-01-01 10:00:00"), "recording_2024-01-01 10:00:00.mp4");
}

#[test]
fn commands() {
    assert_eq!(get_command("/camera_now", "camerabot", "/camera_now"), Some(Command::GetRecordNow));
    assert_eq!(get_command("/camera_now@camerabot", "camerabot", "/camera_now"), Some(Command::GetRecordNow));
    assert_eq!(get_command("/camera_now@otherbot", "camerabot", "/camera_now"), None);
    assert_eq!(get_command("camera_now", "camerabot", "/camera_now"), None);
    assert_eq!(get_command("/other", "camerabot", "/camera_now"), None);
    assert_eq!(get_command("", "camerabot", "/camera_now"), None);
    assert_eq!(get_command("/camerabot", "camerabot", "/camerabot"), Some(Command::GetRecordNow));
}

#[test]
fn text_helpers() {
    assert!(str_equal("abc", "abc"));
    assert!(!str_equal("abc", "abd"));
    assert!(starts_with_char("/x", '/'));
    assert!(!starts_with_char("", '/'));
    assert!(ends_with("a@bot", "bot"));
    assert!(!ends_with("ot", "bot"));
    assert_eq!(last_index_of("a@b@c", '@'), Some(3));
    assert_eq!(last_index_of("abc", '@'), None);
    assert_eq!(joined("ab", "cd"), "abcd");
}

#[test]
fn file_header_bytes() {
    let h = file_header(100);
    assert_eq!(h.len(), 48);
    assert_eq!(HEADER_LEN, 48);
    assert_eq!(&h[0..8], &[0, 0, 0, 32, b'f', b't', b'y', b'p']);
    assert_eq!(&h[8..12], b"isom");
    assert_eq!(be32_at(&h, 12), 0x200);
    assert_eq!(&h[16..32], b"isomiso2avc1mp41");
    assert_eq!(&h[32..40], &[0, 0, 0, 1, b'm', b'd', b'a', b't']);
    assert_eq!(&h[40..48], &[0, 0, 0, 0, 0, 0, 0, 116]);
    let mut mp4 = Mp4Writer::new(None, false);
    let s = VideoStreamInfo { has_parameters: true };
    mp4.video(&s, &VideoFrame { timestamp: 0, is_random_access: true, len: 300 }).unwrap();
    assert_eq!(mp4.header()[47], 60);
    assert_eq!(mp4.header()[46], 1);
}

#[test]
fn box_primitives() {
    let mut out = Vec::new();
    push_u32(&mut out, 0x01020304);
    push_u64(&mut out, 0x05060708090a0b0c);
    assert_eq!(out, vec![1, 2, 3, 4, 5, 6, 7, 8, 9, 10, 11, 12]);
    assert_eq!(boxed(0x66726565, vec![9, 9]), Some(vec![0, 0, 0, 10, b'f', b'r', b'e', b'e', 9, 9]));
    assert_eq!(cat(Some(vec![1]), Some(vec![2, 3])), Some(vec![1, 2, 3]));
    assert_eq!(cat(None, Some(vec![2, 3])), None);
    assert_eq!(boxed_opt(0x66726565, None), None);
    assert_eq!(words_vec(&vec![0x61626364, 1]), vec![b'a', b'b', b'c', b'd', 0, 0, 0, 1]);
}

fn rec(offset: u64, len: u64, timestamp: i64, sync: bool) -> SampleRecord {
    SampleRecord { offset, len, timestamp, sync }
}

#[test]
fn sample_tables() {
    let s = vec![rec(0, 10, 100, true), rec(10, 20, 130, false), rec(30, 5, 190, true)];
    let stsz = stsz_box(&s).unwrap();
    assert_eq!(stsz.len(), 20 + 12);
    assert_eq!(&stsz[4..8], b"stsz");
    assert_eq!((be32_at(&stsz, 16), be32_at(&stsz, 20), be32_at(&stsz, 24), be32_at(&stsz, 28)), (3, 10, 20, 5));
    let co64 = co64_box(&s, 48).unwrap();
    assert_eq!(co64.len(), 16 + 24);
    assert_eq!(be32_at(&co64, 12), 3);
    assert_eq!((be32_at(&co64, 20), be32_at(&co64, 28), be32_at(&co64, 36)), (48, 58, 78));
    let stss = stss_box(&s).unwrap();
    assert_eq!(stss.len(), 24);
    assert_eq!((be32_at(&stss, 12), be32_at(&stss, 16), be32_at(&stss, 20)), (2, 1, 3));
    let stts = stts_box(&s).unwrap();
    assert_eq!(stts.len(), 16 + 24);
    let entries: Vec<u32> = (0..6).map(|k| be32_at(&stts, 16 + 4 * k)).collect();
    assert_eq!(entries, vec![1, 30, 1, 60, 1, 0]);
    assert_eq!(stsc_box(), vec![0, 0, 0, 28, b's', b't', b's', b'c', 0, 0, 0, 0, 0, 0, 0, 1, 0, 0, 0, 1, 0, 0, 0, 1, 0, 0, 0, 1]);
    let stsd = stsd_box(&vec![7, 7]).unwrap();
    assert_eq!(stsd, vec![0, 0, 0, 18, b's', b't', b's', b'd', 0, 0, 0, 0, 0, 0, 0, 1, 7, 7]);
    let backwards = vec![rec(0, 10, 100, true), rec(10, 20, 90, false)];
    assert_eq!(stts_box(&backwards), None);
    let stbl = stbl_box(&vec![7, 7], &s, true).unwrap();
    assert_eq!(be32_at(&stbl, 0) as usize, stbl.len());
    assert_eq!(stbl.len(), 8 + 18 + 40 + 24 + 28 + 32 + 40);
    let audio_stbl = stbl_box(&vec![7, 7], &s, false).unwrap();
    assert_eq!(audio_stbl.len(), stbl.len() - 24);
}

#[test]
fn movie_boxes() {
    let s = vec![rec(0, 10, 100, true), rec(10, 20, 130, false)];
    let head = TrackHead { track_id: 1, is_video: true, timescale: 90000, width: 640, height: 480, sample_entry: vec![1, 2, 3] };
    let trak = trak_box(&head, &s).unwrap();
    assert_eq!(&trak[4..8], b"trak");
    assert_eq!(be32_at(&trak, 0) as usize, trak.len());
    // tkhd: track id and dimensions in 16.16 fixed point
    assert_eq!(&trak[12..16], b"tkhd");
    assert_eq!(be32_at(&trak, 8 + 20), 1);
    assert_eq!(be32_at(&trak, 8 + 84), 640 << 16);
    assert_eq!(be32_at(&trak, 8 + 88), 480 << 16);
    let moov = moov_box(&vec![head.clone()], &vec![s.clone()]).unwrap();
    assert_eq!(&moov[12..16], b"mvhd");
    assert_eq!(be32_at(&moov, 8), 108);
    assert_eq!(be32_at(&moov, 8 + 104), 2);
    assert_eq!(moov.len(), 8 + 108 + trak.len());
    assert_eq!(MOOV, u32::from_be_bytes(*b"moov"));
    let backwards = vec![rec(0, 10, 100, true), rec(10, 20, 90, false)];
    assert_eq!(trak_box(&head, &backwards), None);
}

#[test]
fn moov_needs_video_parameters() {
    let mut mp4 = Mp4Writer::new(None, false);
    let s = VideoStreamInfo { has_parameters: true };
    mp4.video(&s, &VideoFrame { timestamp: 0, is_random_access: true, len: 3 }).unwrap();
    assert_eq!(mp4.moov(&None), None);
    let (action, finished, result) = finish_recording(&mut mp4, &None, Ok(()));
    assert_eq!(finished, Err(MuxError::Unencodable));
    assert_eq!(action, PublishAction::Discard);
    assert_eq!(result, Ok(()));
    let mut audio_only = Mp4Writer::new(Some(aac()), false);
    audio_only.audio(&AudioFrame { timestamp: 0, len: 3 }).unwrap();
    let moov = audio_only.moov(&None).unwrap();
    assert_eq!(count_kind(&moov, b"trak"), 1);
    assert_eq!(count_kind(&moov, b"smhd"), 1);
    assert_eq!(count_kind(&moov, b"mp4a"), 1);
}

#[test]
fn session_lifecycle_reports_recording_result() {
    let mut life = SessionLifecycle::described();
    assert_eq!(life.state(), SessionState::Described);
    life.playing();
    assert_eq!(life.state(), SessionState::Playing);
    life.closing(Err(RecordError::UnexpectedEof));
    assert_eq!(life.state(), SessionState::Closing);
    assert_eq!(life.torn_down(false), Err(RecordError::UnexpectedEof));
    let mut ok = SessionLifecycle::described();
    ok.playing();
    ok.closing(Ok(()));
    assert_eq!(ok.torn_down(false), Ok(()));
}
