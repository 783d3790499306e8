use gst_screencapturekit::element::{element_metadata, element_type_name, src_pad_name};
use gst_screencapturekit::meta::{
    copies_on_transform, core_media_meta_fields, core_video_meta_fields, registration, MetaKind,
};
use gst_screencapturekit::source::{
    buffer_pts, forwards_frame, is_seekable, take_capture_display, FrameStatus, LatencyAnswer,
    QueryKind, SourceError, Stage, State, SAMPLE_QUEUE_LEN,
};

#[test]
fn new_state_is_stopped_and_empty() {
    let state: State<&str, u8, u16> = State::new("config");
    assert_eq!(state.latency, None);
    assert_eq!(state.last_sampling, None);
    assert_eq!(state.configuration, "config");
    assert_eq!(state.count, 0);
    assert_eq!(state.stage, Stage::Stopped);
    assert!(state.receiver.is_none());
    assert!(state.stream.is_none());
    assert_eq!(Stage::default(), Stage::Stopped);
}

#[test]
fn start_and_stop_need_a_stream() {
    let state: State<(), u8, u16> = State::new(());
    assert_eq!(state.start(), Err(SourceError::NoStream));
    assert_eq!(state.stop(), Err(SourceError::NoStream));
    assert_eq!(SourceError::NoStream.message(), "Could not get stream");
    let state: State<(), u8, u16> = State::with_stream((), 5, 6);
    assert_eq!(state.start(), Ok(&5));
    assert_eq!(state.stop(), Ok(&5));
    assert_eq!(*state.receiver(), 6);
    assert_eq!(state.stage, Stage::Stopped);
}

#[test]
fn latency_query_is_answered() {
    let mut state: State<(), (), ()> = State::new(());
    assert_eq!(
        state.query(QueryKind::Latency),
        Some(LatencyAnswer { live: true, min: 0, max: None })
    );
    assert_eq!(state.query(QueryKind::Other), None);
    state.latency = Some(33_000_000);
    assert_eq!(
        state.query(QueryKind::Latency),
        Some(LatencyAnswer { live: true, min: 33_000_000, max: Some(33_000_000) })
    );
}

#[test]
fn only_complete_frames_are_forwarded() {
    assert!(forwards_frame(FrameStatus::Complete));
    for status in [
        FrameStatus::Idle,
        FrameStatus::Blank,
        FrameStatus::Suspended,
        FrameStatus::Started,
        FrameStatus::Stopped,
        FrameStatus::Unknown,
    ] {
        assert!(!forwards_frame(status));
    }
}

#[test]
fn source_is_not_seekable() {
    assert!(!is_seekable());
    assert_eq!(SAMPLE_QUEUE_LEN, 2);
}

#[test]
fn last_display_is_captured() {
    let mut displays = vec![(1920u32, 1080u32), (2560, 1440), (1280, 800)];
    assert_eq!(take_capture_display(&mut displays), (1280, 800));
    assert_eq!(displays, vec![(1920, 1080), (2560, 1440)]);
}

#[test]
fn buffer_pts_reads_value_unsigned() {
    assert_eq!(buffer_pts(0), 0);
    assert_eq!(buffer_pts(1_000_000_000), 1_000_000_000);
    assert_eq!(buffer_pts(i64::MAX), i64::MAX as u64);
    assert_eq!(buffer_pts(-2), u64::MAX - 1);
    assert_eq!(buffer_pts(i64::MIN), 1u64 << 63);
}

#[test]
fn meta_registrations() {
    let r = registration(MetaKind::CoreMedia);
    assert_eq!((r.api_name, r.impl_name), ("GstCoreMediaMetaAPI", "GstCoreMediaMeta"));
    assert_eq!(r.tags, vec!["memory"]);
    let r = registration(MetaKind::SampleBuffer);
    assert_eq!((r.api_name, r.impl_name), ("MySCGstMetaAPI", "MySCGstMeta"));
    assert!(r.tags.is_empty());
    let r = registration(MetaKind::CoreVideo);
    assert_eq!((r.api_name, r.impl_name), ("GstCoreVideoMetaAPI", "GstCoreVideoMeta"));
    assert_eq!(r.tags, vec!["memory"]);
}

#[test]
fn metas_follow_copies() {
    assert!(copies_on_transform(MetaKind::SampleBuffer, true));
    assert!(copies_on_transform(MetaKind::SampleBuffer, false));
    assert!(copies_on_transform(MetaKind::CoreMedia, false));
    assert!(!copies_on_transform(MetaKind::CoreMedia, true));
    assert!(copies_on_transform(MetaKind::CoreVideo, false));
    assert!(!copies_on_transform(MetaKind::CoreVideo, true));
}

#[test]
fn meta_fields() {
    let f = core_media_meta_fields(1usize, Some(2), Some(3));
    assert_eq!((f.sample_buf, f.image_buf, f.pixel_buf, f.block_buf), (1, Some(2), Some(3), None));
    let f = core_media_meta_fields(1usize, None, Some(3));
    assert_eq!((f.sample_buf, f.image_buf, f.pixel_buf, f.block_buf), (1, None, None, None));
    let f = core_video_meta_fields(9usize);
    assert_eq!((f.cvbuf, f.pixbuf), (9, 9));
}

#[test]
fn element_description() {
    let m = element_metadata();
    assert_eq!(m.long_name, "ScreenCaptureKit Source");
    assert_eq!(m.classification, "Source/ScreenCapture");
    assert_eq!(m.description, "Generates media from ScreenCaptureKit");
    assert_eq!(m.author, "Per Johansson <per@doom.fish>");
    assert_eq!(element_type_name(), "ScreenCaptureKitSrc");
    assert_eq!(src_pad_name(), "src");
}
