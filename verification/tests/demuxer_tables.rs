use cyanotype::{
    BuiltStream, CyanotypeError, MediaKind, PacketRoute, PacketStep, ShutdownStep, StreamDescriptor,
    StreamRole, StreamTable, SubtitleCodec,
};
use std::cell::RefCell;

fn desc(media: MediaKind, decoder: Option<&str>) -> StreamDescriptor {
    StreamDescriptor { media, decoder_name: decoder.map(|d| d.to_string()) }
}

/// Opens every stream as a string naming what was opened, records the calls,
/// and fails at one chosen index.
struct Recorder {
    calls: RefCell<Vec<String>>,
    fail_at: Option<usize>,
}

impl Recorder {
    fn new(fail_at: Option<usize>) -> Self {
        Recorder { calls: RefCell::new(Vec::new()), fail_at }
    }

    fn open(&self, index: usize, what: String) -> Result<String, CyanotypeError> {
        self.calls.borrow_mut().push(what.clone());
        if self.fail_at == Some(index) {
            Err(CyanotypeError::FFmpegError(format!("cannot open stream {}", index)))
        } else {
            Ok(what)
        }
    }

    fn calls(&self) -> Vec<String> {
        self.calls.borrow().clone()
    }
}

fn build_with(
    descs: &Vec<StreamDescriptor>,
    recorder: &Recorder,
) -> Result<StreamTable<String, String, String>, CyanotypeError> {
    StreamTable::build(
        descs,
        |i: usize| recorder.open(i, format!("video {}", i)),
        |i: usize, codec: SubtitleCodec| recorder.open(i, format!("subtitle {} {:?}", i, codec)),
        |i: usize| recorder.open(i, format!("data {}", i)),
    )
}

fn container() -> Vec<StreamDescriptor> {
    vec![
        desc(MediaKind::Video, Some("h264")),
        desc(MediaKind::Subtitle, Some("ass")),
        desc(MediaKind::Audio, Some("aac")),
        desc(MediaKind::Subtitle, None),
        desc(MediaKind::Other, None),
        desc(MediaKind::Subtitle, Some("srt")),
    ]
}

fn sorted_keys<V>(m: &std::collections::HashMap<usize, V>) -> Vec<usize> {
    let mut keys: Vec<usize> = m.keys().copied().collect();
    keys.sort();
    keys
}

#[test]
fn classify_follows_media_kind_and_decoder() {
    assert_eq!(desc(MediaKind::Video, None).classify(), Some(StreamRole::Video));
    assert_eq!(desc(MediaKind::Audio, Some("aac")).classify(), Some(StreamRole::Data));
    assert_eq!(desc(MediaKind::Other, None).classify(), Some(StreamRole::Data));
    assert_eq!(
        desc(MediaKind::Subtitle, Some("ssa")).classify(),
        Some(StreamRole::Subtitle(SubtitleCodec::Ssa))
    );
    assert_eq!(
        desc(MediaKind::Subtitle, Some("ass")).classify(),
        Some(StreamRole::Subtitle(SubtitleCodec::Ssa))
    );
    assert_eq!(
        desc(MediaKind::Subtitle, Some("srt")).classify(),
        Some(StreamRole::Subtitle(SubtitleCodec::Srt))
    );
    assert_eq!(
        desc(MediaKind::Subtitle, Some("mov_text")).classify(),
        Some(StreamRole::Subtitle(SubtitleCodec::Unknown))
    );
    assert_eq!(desc(MediaKind::Subtitle, None).classify(), None);
}

#[test]
fn subtitle_codec_names_are_matched_exactly() {
    assert_eq!(SubtitleCodec::from_decoder_name(&"SRT".to_string()), SubtitleCodec::Unknown);
    assert_eq!(SubtitleCodec::from_decoder_name(&"srt ".to_string()), SubtitleCodec::Unknown);
    assert_eq!(SubtitleCodec::from_decoder_name(&"".to_string()), SubtitleCodec::Unknown);
}

#[test]
fn build_opens_each_stream_in_the_table_of_its_role() {
    let builder = Recorder::new(None);
    let table = build_with(&container(), &builder).unwrap();
    assert_eq!(sorted_keys(&table.video_streams), vec![0]);
    assert_eq!(sorted_keys(&table.subtitle_streams), vec![1, 5]);
    assert_eq!(sorted_keys(&table.data_streams), vec![2, 4]);
    assert_eq!(table.subtitle_streams[&1], "subtitle 1 Ssa");
    assert_eq!(table.subtitle_streams[&5], "subtitle 5 Srt");
    assert_eq!(
        builder.calls(),
        vec!["video 0", "subtitle 1 Ssa", "data 2", "data 4", "subtitle 5 Srt"]
    );
}

#[test]
fn build_stops_at_the_first_stream_that_fails() {
    let builder = Recorder::new(Some(2));
    let result = build_with(&container(), &builder);
    assert_eq!(
        result.err(),
        Some(CyanotypeError::FFmpegError("cannot open stream 2".to_string()))
    );
    assert_eq!(builder.calls(), vec!["video 0", "subtitle 1 Ssa", "data 2"]);
}

#[test]
fn build_of_an_empty_container_is_empty() {
    let builder = Recorder::new(None);
    let table = build_with(&Vec::new(), &builder).unwrap();
    assert!(table.video_streams.is_empty());
    assert!(table.subtitle_streams.is_empty());
    assert!(table.data_streams.is_empty());
    assert!(builder.calls().is_empty());
}

#[test]
fn packets_follow_the_role_of_their_stream() {
    let builder = Recorder::new(None);
    let table = build_with(&container(), &builder).unwrap();
    assert_eq!(table.route(0), PacketRoute::Video);
    assert_eq!(table.route(1), PacketRoute::Subtitle);
    assert_eq!(table.route(2), PacketRoute::Data);
    assert_eq!(table.route(3), PacketRoute::Discard);
    assert_eq!(table.route(4), PacketRoute::Data);
    assert_eq!(table.route(5), PacketRoute::Subtitle);
    assert_eq!(table.route(6), PacketRoute::Discard);
    assert_eq!(table.route(usize::MAX), PacketRoute::Discard);
}

#[test]
fn route_prefers_video_then_subtitle_then_data() {
    let mut table: StreamTable<u8, u8, u8> = StreamTable::new();
    table.insert(7, BuiltStream::Data(3));
    assert_eq!(table.route(7), PacketRoute::Data);
    table.insert(7, BuiltStream::Subtitle(2));
    assert_eq!(table.route(7), PacketRoute::Subtitle);
    table.insert(7, BuiltStream::Video(1));
    assert_eq!(table.route(7), PacketRoute::Video);
}

#[test]
fn lookups_find_only_opened_streams() {
    let builder = Recorder::new(None);
    let table = build_with(&container(), &builder).unwrap();
    assert_eq!(table.video(0), Some(&"video 0".to_string()));
    assert_eq!(table.video(1), None);
    assert_eq!(table.subtitle(5), Some(&"subtitle 5 Srt".to_string()));
    assert_eq!(table.subtitle(3), None);
    assert_eq!(table.data(4), Some(&"data 4".to_string()));
    assert_eq!(table.data(0), None);
}

#[test]
fn insert_replaces_a_stream_of_the_same_kind() {
    let mut table: StreamTable<u8, u8, u8> = StreamTable::new();
    table.insert(1, BuiltStream::Video(10));
    table.insert(1, BuiltStream::Video(11));
    assert_eq!(table.video(1), Some(&11));
    assert_eq!(table.video_streams.len(), 1);
    assert!(table.subtitle_streams.is_empty());
    assert!(table.data_streams.is_empty());
}

#[test]
fn shutdown_finishes_videos_then_closes_subtitles_then_data() {
    let builder = Recorder::new(None);
    let mut descs = container();
    descs.push(desc(MediaKind::Video, Some("hevc")));
    let table = build_with(&descs, &builder).unwrap();
    let steps = table.shutdown_steps();
    assert_eq!(steps.len(), 6);
    let section = |from: usize, to: usize| {
        let mut part: Vec<ShutdownStep> = steps[from..to].to_vec();
        part.sort_by_key(|s| format!("{:?}", s));
        part
    };
    assert_eq!(section(0, 2), vec![ShutdownStep::FinishVideo(0), ShutdownStep::FinishVideo(6)]);
    assert_eq!(
        section(2, 4),
        vec![ShutdownStep::CloseSubtitle(1), ShutdownStep::CloseSubtitle(5)]
    );
    assert_eq!(section(4, 6), vec![ShutdownStep::CloseData(2), ShutdownStep::CloseData(4)]);
}

#[test]
fn shutdown_of_an_empty_table_has_no_step() {
    let table: StreamTable<u8, u8, u8> = StreamTable::new();
    assert!(table.shutdown_steps().is_empty());
}

#[test]
fn build_passes_a_subtitle_error_on_unchanged() {
    let builder = Recorder::new(Some(5));
    let result = build_with(&container(), &builder);
    assert_eq!(
        result.err(),
        Some(CyanotypeError::FFmpegError("cannot open stream 5".to_string()))
    );
    assert_eq!(
        builder.calls(),
        vec!["video 0", "subtitle 1 Ssa", "data 2", "data 4", "subtitle 5 Srt"]
    );
}

#[test]
fn build_opens_nothing_after_a_failing_first_stream() {
    let builder = Recorder::new(Some(0));
    let result = build_with(&container(), &builder);
    assert_eq!(
        result.err(),
        Some(CyanotypeError::FFmpegError("cannot open stream 0".to_string()))
    );
    assert_eq!(builder.calls(), vec!["video 0"]);
}

#[test]
fn a_stream_without_role_is_never_opened() {
    let builder = Recorder::new(Some(3));
    let table = build_with(&container(), &builder).unwrap();
    assert_eq!(table.route(3), PacketRoute::Discard);
    assert!(!builder.calls().iter().any(|c| c.contains(" 3")));
}

#[test]
fn build_files_an_audio_video_srt_container() {
    let descs = vec![
        desc(MediaKind::Audio, Some("aac")),
        desc(MediaKind::Video, Some("h264")),
        desc(MediaKind::Subtitle, Some("srt")),
    ];
    let builder = Recorder::new(None);
    let table = build_with(&descs, &builder).unwrap();
    assert_eq!(sorted_keys(&table.video_streams), vec![1]);
    assert_eq!(sorted_keys(&table.subtitle_streams), vec![2]);
    assert_eq!(sorted_keys(&table.data_streams), vec![0]);
}

#[test]
fn packet_steps_decode_video_and_push_the_rest() {
    let builder = Recorder::new(None);
    let table = build_with(&container(), &builder).unwrap();
    assert_eq!(
        table.packet_steps(0),
        vec![PacketStep::PushVideo(0), PacketStep::RunVideo(0)]
    );
    assert_eq!(table.packet_steps(1), vec![PacketStep::PushSubtitle(1)]);
    assert_eq!(table.packet_steps(2), vec![PacketStep::PushData(2)]);
    assert!(table.packet_steps(3).is_empty());
    assert!(table.packet_steps(42).is_empty());
}
