use audio_player::buffer::SampleBuf;
use audio_player::time::{TimeBase, Timestamp};
use audio_player::track::{
    CodecKind, CodecParams, DecodedTrack, DecoderError, MetaTag, MetadataSnapshot, PacketData,
    TagKind, Track, TrackDetails, VisualInfo, VisualKind,
};

fn tag(kind: TagKind, text: Option<&str>) -> MetaTag {
    MetaTag { kind, text: text.map(|s| s.to_string()) }
}

fn visual(kind: VisualKind, media_type: &str, data: Vec<u8>) -> VisualInfo {
    VisualInfo { kind, media_type: media_type.to_string(), data }
}

fn snapshot(tags: Vec<MetaTag>, visuals: Vec<VisualInfo>) -> MetadataSnapshot {
    MetadataSnapshot { tags, visuals }
}

fn params_with(time_base: Option<TimeBase>, n_frames: Option<u64>) -> CodecParams {
    CodecParams {
        sample_rate: Some(44100),
        channels: Some(2),
        max_frames_per_packet: Some(1024),
        codec: CodecKind::Other,
        time_base,
        start_ts: 0,
        n_frames,
    }
}

#[test]
fn calc_time_converts_ticks_exactly() {
    let ms = TimeBase { numer: 1, denom: 1000 };
    assert_eq!(ms.calc_time(1500), Timestamp::new(1, 500_000_000));
    let cd = TimeBase { numer: 1, denom: 44100 };
    assert_eq!(cd.calc_time(44100), Timestamp::new(1, 0));
    assert_eq!(cd.calc_time(22050), Timestamp::new(0, 500_000_000));
    let thirds = TimeBase { numer: 1, denom: 3 };
    assert_eq!(thirds.calc_time(1), Timestamp::new(0, 333_333_333));
    assert_eq!(thirds.calc_time(4), Timestamp::new(1, 333_333_333));
}

#[test]
fn calc_time_saturates_at_the_largest_timestamp() {
    let tb = TimeBase { numer: u32::MAX, denom: 1 };
    assert_eq!(tb.calc_time(u64::MAX), Timestamp::new(u64::MAX, 999_999_999));
}

#[test]
fn calc_time_zero_ticks_is_the_origin() {
    let tb = TimeBase { numer: 1, denom: 90000 };
    assert_eq!(tb.calc_time(0), Timestamp::new(0, 0));
}

#[test]
fn read_metadata_keeps_last_matching_tag() {
    let m = snapshot(
        vec![
            tag(TagKind::Title, Some("first")),
            tag(TagKind::Artist, Some("someone")),
            tag(TagKind::Title, Some("second")),
            tag(TagKind::Other, Some("ignored")),
        ],
        vec![],
    );
    let d = TrackDetails::read_metadata(&m);
    assert_eq!(d.title().map(|s| s.as_str()), Some("second"));
    assert_eq!(d.artist().map(|s| s.as_str()), Some("someone"));
    assert!(d.duration().is_none());
}

#[test]
fn read_metadata_clears_title_on_non_text_value() {
    let m = snapshot(
        vec![tag(TagKind::Title, Some("textual")), tag(TagKind::Title, None)],
        vec![],
    );
    let d = TrackDetails::read_metadata(&m);
    assert!(d.title().is_none());
}

#[test]
fn read_metadata_picks_first_front_cover() {
    let m = snapshot(
        vec![],
        vec![
            visual(VisualKind::Other, "image/png", vec![9]),
            visual(VisualKind::FrontCover, "image/jpeg", vec![1, 2, 3]),
            visual(VisualKind::FrontCover, "image/png", vec![4]),
        ],
    );
    let d = TrackDetails::read_metadata(&m);
    let cover = d.cover().unwrap();
    assert_eq!(cover.media_type.as_str(), "image/jpeg");
    assert_eq!(cover.data, vec![1, 2, 3]);
}

#[test]
fn details_prefer_container_metadata() {
    let container = snapshot(vec![tag(TagKind::Title, Some("from container"))], vec![]);
    let stream = snapshot(vec![tag(TagKind::Title, Some("from stream"))], vec![]);
    let d = TrackDetails::new(Some(&container), Some(&stream), None);
    assert_eq!(d.title().map(|s| s.as_str()), Some("from container"));
}

#[test]
fn details_fall_back_to_stream_title_and_cover() {
    let container = snapshot(vec![tag(TagKind::Artist, Some("someone"))], vec![]);
    let stream = snapshot(
        vec![tag(TagKind::Title, Some("from stream"))],
        vec![visual(VisualKind::FrontCover, "image/png", vec![5, 6])],
    );
    let d = TrackDetails::new(Some(&container), Some(&stream), None);
    assert_eq!(d.title().map(|s| s.as_str()), Some("from stream"));
    assert_eq!(d.cover().unwrap().data, vec![5, 6]);
}

#[test]
fn details_do_not_fall_back_for_artist() {
    let container = snapshot(vec![], vec![]);
    let stream = snapshot(vec![tag(TagKind::Artist, Some("stream artist"))], vec![]);
    let d = TrackDetails::new(Some(&container), Some(&stream), None);
    assert!(d.artist().is_none());
}

#[test]
fn details_duration_comes_from_codec_parameters() {
    let p = params_with(Some(TimeBase { numer: 1, denom: 44100 }), Some(88200));
    let d = TrackDetails::new(None, None, Some(&p));
    assert_eq!(d.duration(), Some(&Timestamp::new(2, 0)));
    let without_frames = params_with(Some(TimeBase { numer: 1, denom: 44100 }), None);
    assert!(TrackDetails::new(None, None, Some(&without_frames)).duration().is_none());
    assert!(TrackDetails::new(None, None, None).duration().is_none());
}

#[test]
fn decoded_track_starts_at_the_codec_start_timestamp() {
    let mut p = params_with(Some(TimeBase { numer: 1, denom: 1000 }), None);
    p.start_ts = 2500;
    let t = DecodedTrack::new(p);
    assert_eq!(t.progress(), Ok(Timestamp::new(2, 500_000_000)));
}

#[test]
fn progress_fails_without_a_time_base() {
    let t = DecodedTrack::new(params_with(None, None));
    assert_eq!(t.progress(), Err(DecoderError::ProgressUnavailable));
}

#[test]
fn seek_lookahead_moves_progress_immediately() {
    let mut t = DecodedTrack::new(params_with(Some(TimeBase { numer: 1, denom: 1000 }), None));
    let packet = PacketData {
        ts: 60_000,
        samples: SampleBuf::with_buffer(vec![vec![1, 2], vec![3, 4]]),
    };
    t.cache_lookahead(packet);
    assert_eq!(t.progress(), Ok(Timestamp::new(60, 0)));
    let replay = t.take_lookahead().unwrap();
    assert_eq!(replay.ts, 60_000);
    assert_eq!(replay.samples.samples(0).unwrap(), &vec![1, 2]);
    assert!(t.take_lookahead().is_none());
    assert_eq!(t.progress(), Ok(Timestamp::new(60, 0)));
}

#[test]
fn record_progress_follows_fetched_packets() {
    let mut t = DecodedTrack::new(params_with(Some(TimeBase { numer: 1, denom: 1000 }), None));
    t.record_progress(1000);
    assert_eq!(t.progress(), Ok(Timestamp::new(1, 0)));
    t.record_progress(2000);
    assert_eq!(t.progress(), Ok(Timestamp::new(2, 0)));
}

#[test]
fn track_bundles_decoded_state_and_details() {
    let decoded = DecodedTrack::new(params_with(None, None));
    let details = TrackDetails::read_metadata(&snapshot(
        vec![tag(TagKind::Title, Some("bundled"))],
        vec![],
    ));
    let track = Track::new(decoded, details);
    assert_eq!(track.details().title().map(|s| s.as_str()), Some("bundled"));
}
