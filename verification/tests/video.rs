use artie::models::{
    AudioCodec, AudioTrack, ContainerType, MediaLocation, MediaType, Reference, SpecialFeatureType,
    SubtitleCodec, SubtitleTrack, Title, Video, VideoCodec, VideoSource, VideoTrack,
};
use artie::video::{video_columns, video_from_row, VideoRow, VideoRowError};

fn test_checksum() -> [u8; 32] {
    *blake3::hash(b"test video data").as_bytes()
}

fn make_row() -> VideoRow {
    VideoRow {
        id: 7,
        location_path: String::from("movies/test.mkv"),
        checksum: blake3::hash(b"test video data").to_hex().to_string(),
        container: 0,
        copy_operation_id: Some(3),
        transcode_operation_id: None,
        duration: 7200,
        title_id: 5,
        title_index: 1,
        media_type: 0,
        title: String::from("Test Movie"),
        year: 2024,
        season: 0,
        episode_number: 0,
        episode_count: 0,
        special_feature_kind: 0,
        special_feature_name: String::new(),
        version: String::new(),
        disc: 1,
        location: String::from("shelf-a"),
        memo: String::new(),
    }
}

fn make_video() -> Video {
    Video {
        id: 0,
        location: MediaLocation::Inbox(String::from("movies/test.mkv")),
        checksum: test_checksum(),
        container: ContainerType::MKV,
        video_tracks: vec![],
        audio_tracks: vec![],
        subtitle_tracks: vec![],
        source: VideoSource::CopyOperation(Reference { id: 3, value: None }),
        title: Reference { id: 5, value: None },
        duration_secs: 7200,
    }
}

#[test]
fn video_from_row_reads_the_video_and_its_title() {
    let tracks = vec![VideoTrack {
        index: 1,
        codec: VideoCodec::H264,
        size: String::from("1920x1080"),
        aspect_ratio: String::from("16:9"),
    }];
    let audio = vec![AudioTrack {
        index: 1,
        name: String::from("Surround 5.1"),
        codec: AudioCodec::AC3,
        encode_method: None,
        language: String::from("eng"),
        channel_count: 6,
        channel_layout: String::from("5.1"),
    }];
    let subtitles = vec![SubtitleTrack { index: 1, codec: SubtitleCodec::PGS, language: String::from("eng") }];
    let video = video_from_row(make_row(), tracks, audio, subtitles).expect("row is a video");
    assert_eq!(video.id, 7);
    assert!(matches!(&video.location, MediaLocation::Inbox(p) if p == "movies/test.mkv"));
    assert_eq!(video.checksum, test_checksum());
    assert_eq!(video.container, ContainerType::MKV);
    assert_eq!(video.video_tracks.len(), 1);
    assert_eq!(video.audio_tracks[0].language, "eng");
    assert_eq!(video.subtitle_tracks[0].codec, SubtitleCodec::PGS);
    assert!(matches!(&video.source, VideoSource::CopyOperation(r) if r.id == 3 && r.value.is_none()));
    assert_eq!(video.duration_secs, 7200);
    assert_eq!(video.title.id, 5);
    let title: &Title = video.title.value.as_ref().expect("title value should be populated");
    assert_eq!(title.title, "Test Movie");
    assert_eq!(title.media_type, MediaType::Movie);
    assert_eq!(title.year, 2024);
    assert_eq!(title.disc, 1);
    assert_eq!(title.location, "shelf-a");
    assert!(title.special_feature.is_none());
    assert!(title.videos.is_none());
}

#[test]
fn video_from_row_transcode_source_and_special_feature() {
    let row = VideoRow {
        copy_operation_id: None,
        transcode_operation_id: Some(9),
        container: 1,
        media_type: 1,
        special_feature_kind: 10,
        special_feature_name: String::from("Teaser"),
        ..make_row()
    };
    let video = video_from_row(row, vec![], vec![], vec![]).unwrap();
    assert_eq!(video.container, ContainerType::MP4);
    assert!(matches!(&video.source, VideoSource::TranscodeOperation(r) if r.id == 9));
    let title = video.title.value.unwrap();
    assert_eq!(title.media_type, MediaType::Show);
    let feature = title.special_feature.unwrap();
    assert_eq!(feature.kind, SpecialFeatureType::Trailers);
    assert_eq!(feature.name, "Teaser");
}

#[test]
fn video_from_row_copy_source_wins_over_transcode() {
    let row = VideoRow { transcode_operation_id: Some(9), ..make_row() };
    let video = video_from_row(row, vec![], vec![], vec![]).unwrap();
    assert!(matches!(&video.source, VideoSource::CopyOperation(r) if r.id == 3));
}

#[test]
fn video_from_row_accepts_upper_case_checksum() {
    let row = VideoRow { checksum: make_row().checksum.to_uppercase(), ..make_row() };
    let video = video_from_row(row, vec![], vec![], vec![]).unwrap();
    assert_eq!(video.checksum, test_checksum());
}

#[test]
fn video_from_row_bad_checksum() {
    let short = VideoRow { checksum: String::from("abcd"), ..make_row() };
    assert!(matches!(video_from_row(short, vec![], vec![], vec![]), Err(VideoRowError::Checksum(_))));
    let mut text = make_row().checksum;
    text.replace_range(0..1, "g");
    let bad_digit = VideoRow { checksum: text, container: 9, ..make_row() };
    assert!(matches!(
        video_from_row(bad_digit, vec![], vec![], vec![]),
        Err(VideoRowError::Checksum(_))
    ));
}

#[test]
fn video_from_row_bad_container() {
    let row = VideoRow { container: 2, media_type: 7, ..make_row() };
    assert!(matches!(
        video_from_row(row, vec![], vec![], vec![]),
        Err(VideoRowError::ContainerType { code: 2 })
    ));
}

#[test]
fn video_from_row_no_source() {
    let row = VideoRow { copy_operation_id: None, transcode_operation_id: None, ..make_row() };
    assert!(matches!(
        video_from_row(row, vec![], vec![], vec![]),
        Err(VideoRowError::VideoSource { copy_operation: None, transcode_operation: None })
    ));
}

#[test]
fn video_from_row_bad_media_type() {
    let row = VideoRow { media_type: 2, special_feature_kind: 11, ..make_row() };
    assert!(matches!(
        video_from_row(row, vec![], vec![], vec![]),
        Err(VideoRowError::MediaType { code: 2 })
    ));
}

#[test]
fn video_from_row_bad_special_feature() {
    let row = VideoRow { special_feature_kind: 11, ..make_row() };
    assert!(matches!(
        video_from_row(row, vec![], vec![], vec![]),
        Err(VideoRowError::SpecialFeature { code: 11 })
    ));
}

#[test]
fn video_columns_of_a_copied_video() {
    let columns = video_columns(&make_video());
    assert_eq!(columns.location_area, 1);
    assert_eq!(columns.location_path, "movies/test.mkv");
    assert_eq!(columns.checksum, blake3::hash(b"test video data").to_hex().to_string());
    assert_eq!(columns.checksum.len(), 64);
    assert_eq!(columns.container, 0);
    assert_eq!(columns.copy_operation_id, Some(3));
    assert_eq!(columns.transcode_operation_id, None);
    assert_eq!(columns.title_id, 5);
    assert_eq!(columns.duration, 7200);
}

#[test]
fn video_columns_of_a_library_transcode() {
    let video = Video {
        location: MediaLocation::Library(String::from("movies/test.mkv")),
        source: VideoSource::TranscodeOperation(Reference { id: 4, value: None }),
        container: ContainerType::MP4,
        checksum: [0xab; 32],
        ..make_video()
    };
    let columns = video_columns(&video);
    assert_eq!(columns.location_area, 2);
    assert_eq!(columns.copy_operation_id, None);
    assert_eq!(columns.transcode_operation_id, Some(4));
    assert_eq!(columns.container, 1);
    assert_eq!(columns.checksum, "ab".repeat(32));
}

#[test]
fn stored_video_is_read_back() {
    let video = make_video();
    let columns = video_columns(&video);
    let row = VideoRow {
        location_path: columns.location_path.clone(),
        checksum: columns.checksum.clone(),
        container: columns.container,
        copy_operation_id: columns.copy_operation_id,
        transcode_operation_id: columns.transcode_operation_id,
        title_id: columns.title_id,
        duration: columns.duration,
        ..make_row()
    };
    let read = video_from_row(row, vec![], vec![], vec![]).unwrap();
    assert_eq!(read.checksum, video.checksum);
    assert_eq!(read.container, video.container);
    assert_eq!(read.duration_secs, video.duration_secs);
    assert_eq!(read.title.id, video.title.id);
    assert!(matches!(&read.location, MediaLocation::Inbox(p) if p == "movies/test.mkv"));
}
