//! Videos as the database stores them: the values written for a video, and the video read
//! back from a row of the inbox query.
//!
//! A video's checksum is stored as its hexadecimal text; the decoding and encoding of that text
//! are BLAKE3's own.

use vstd::prelude::*;

use crate::conv::{
    container_type_code, container_type_from_sql, media_location_code, media_location_path,
    media_location_to_sql, media_type_code, media_type_from_sql, special_feature_code,
    special_feature_from_sql, container_type_to_sql,
};
use crate::models::{
    AudioTrack, ContainerType, MediaLocation, Reference, SubtitleTrack, Title, Video, VideoSource,
    VideoTrack,
};

verus! {

#[verifier::external_type_specification]
#[verifier::external_body]
pub struct ExHexError(blake3::HexError);

/// A character of hexadecimal text, in either case.
pub open spec fn is_hex_char(c: char) -> bool {
    ||| ('0' as int <= c as int && c as int <= '9' as int)
    ||| ('a' as int <= c as int && c as int <= 'f' as int)
    ||| ('A' as int <= c as int && c as int <= 'F' as int)
}

/// The value of a hexadecimal digit.
pub open spec fn hex_char_value(c: char) -> int {
    if '0' as int <= c as int && c as int <= '9' as int {
        c as int - '0' as int
    } else if 'a' as int <= c as int && c as int <= 'f' as int {
        c as int - 'a' as int + 10
    } else {
        c as int - 'A' as int + 10
    }
}

/// The text is the hexadecimal text of a checksum: 64 hexadecimal digits.
pub open spec fn is_checksum_text(s: Seq<char>) -> bool {
    &&& s.len() == 64
    &&& forall|i: int| 0 <= i < 64 ==> is_hex_char(#[trigger] s[i])
}

/// The 32 bytes that a checksum's hexadecimal text gives, two digits a byte, the high digit
/// first.
pub open spec fn checksum_of_text(s: Seq<char>) -> Seq<u8> {
    Seq::new(32, |i: int| (16 * hex_char_value(s[2 * i]) + hex_char_value(s[2 * i + 1])) as u8)
}

/// The lower case hexadecimal digit of a value below sixteen.
pub open spec fn lower_hex_char(d: int) -> char {
    if d == 0 { '0' }
    else if d == 1 { '1' }
    else if d == 2 { '2' }
    else if d == 3 { '3' }
    else if d == 4 { '4' }
    else if d == 5 { '5' }
    else if d == 6 { '6' }
    else if d == 7 { '7' }
    else if d == 8 { '8' }
    else if d == 9 { '9' }
    else if d == 10 { 'a' }
    else if d == 11 { 'b' }
    else if d == 12 { 'c' }
    else if d == 13 { 'd' }
    else if d == 14 { 'e' }
    else { 'f' }
}

/// The lower case hexadecimal text of bytes, two digits a byte, the high digit first.
pub open spec fn checksum_text(b: Seq<u8>) -> Seq<char> {
    Seq::new(
        2 * b.len(),
        |i: int|
            if i % 2 == 0 {
                lower_hex_char((b[i / 2] / 16) as int)
            } else {
                lower_hex_char((b[i / 2] % 16) as int)
            },
    )
}

/// Wraps `blake3::Hash::from_hex`, taking the bytes of the hash it decodes.
///
/// Claimed, as its source shows: the text is decoded exactly when its bytes are 64
/// hexadecimal digits of either case (a character outside ASCII puts a byte above 0x7f in the
/// text, which is no digit), and then byte `i` of the hash is sixteen times the value of digit
/// `2 * i` plus the value of digit `2 * i + 1`.
#[verifier::external_body]
fn checksum_from_text(text: &str) -> (r: Result<[u8; 32], blake3::HexError>)
    ensures
        r is Ok <==> is_checksum_text(text@),
        r matches Ok(b) ==> b@ == checksum_of_text(text@),
{
    match blake3::Hash::from_hex(text) {
        Ok(hash) => Ok(*hash.as_bytes()),
        Err(error) => Err(error),
    }
}

/// Wraps `blake3::Hash::from_bytes` and `Hash::to_hex`: the hexadecimal text of a checksum.
///
/// Claimed, as its source shows: two lower case digits for each byte, in order, the high digit
/// first.
#[verifier::external_body]
fn checksum_to_text(bytes: [u8; 32]) -> (s: String)
    ensures
        s@ == checksum_text(bytes@),
{
    blake3::Hash::from_bytes(bytes).to_hex().to_string()
}

/// The values stored for a video, but for its tracks, which the caller stores as JSON.
#[derive(Debug)]
pub struct VideoColumns {
    pub location_area: u8,
    pub location_path: String,
    pub checksum: String,
    pub container: u8,
    pub copy_operation_id: Option<u32>,
    pub transcode_operation_id: Option<u32>,
    pub title_id: u32,
    pub duration: u64,
}

/// The operation columns of a source: the id of the copy operation or of the transcode
/// operation that made the video, the other one empty.
pub open spec fn source_ids(s: VideoSource) -> (Option<u32>, Option<u32>) {
    match s {
        VideoSource::CopyOperation(r) => (Some(r.id), None),
        VideoSource::TranscodeOperation(r) => (None, Some(r.id)),
    }
}

/// The columns are those stored for the video.
pub open spec fn columns_of_video(c: VideoColumns, v: Video) -> bool {
    &&& c.location_area == media_location_code(v.location)
    &&& c.location_path@ == media_location_path(v.location)
    &&& c.checksum@ == checksum_text(v.checksum@)
    &&& c.container == container_type_code(v.container)
    &&& (c.copy_operation_id, c.transcode_operation_id) == source_ids(v.source)
    &&& c.title_id == v.title.id
    &&& c.duration == v.duration_secs
}

/// The values to store for a new video, but for its tracks.
pub fn video_columns(video: &Video) -> (c: VideoColumns)
    ensures
        columns_of_video(c, *video),
{
    let (location_area, location_path) = media_location_to_sql(&video.location);
    let (copy_operation_id, transcode_operation_id) = match &video.source {
        VideoSource::CopyOperation(reference) => (Some(reference.id), None),
        VideoSource::TranscodeOperation(reference) => (None, Some(reference.id)),
    };
    VideoColumns {
        location_area,
        location_path,
        checksum: checksum_to_text(video.checksum),
        container: container_type_to_sql(&video.container),
        copy_operation_id,
        transcode_operation_id,
        title_id: video.title.id,
        duration: video.duration_secs,
    }
}

/// The text of a checksum is read back as the checksum.
pub proof fn lemma_checksum_text_roundtrip(b: Seq<u8>)
    requires
        b.len() == 32,
    ensures
        is_checksum_text(checksum_text(b)),
        checksum_of_text(checksum_text(b)) == b,
{
    let t = checksum_text(b);
    assert forall|d: int| 0 <= d < 16 implies is_hex_char(#[trigger] lower_hex_char(d))
        && hex_char_value(lower_hex_char(d)) == d by {
    }
    assert forall|i: int| 0 <= i < 64 implies is_hex_char(#[trigger] t[i]) by {
        assert(0 <= b[i / 2] / 16 < 16);
        assert(0 <= b[i / 2] % 16 < 16);
    }
    assert forall|i: int| 0 <= i < 32 implies #[trigger] checksum_of_text(t)[i] == b[i] by {
        assert(t[2 * i] == lower_hex_char((b[i] / 16) as int));
        assert(t[2 * i + 1] == lower_hex_char((b[i] % 16) as int));
        assert(0 <= b[i] / 16 < 16);
        assert(0 <= b[i] % 16 < 16);
        assert(16 * (b[i] / 16) + b[i] % 16 == b[i]);
    }
    assert(checksum_of_text(t) =~= b);
}

/// The columns of a row of the inbox query: the video's own columns (but for its tracks,
/// which are stored as JSON and decoded by the caller) and those of its title.
#[derive(Debug)]
pub struct VideoRow {
    pub id: u32,
    pub location_path: String,
    pub checksum: String,
    pub container: u8,
    pub copy_operation_id: Option<u32>,
    pub transcode_operation_id: Option<u32>,
    pub duration: u64,
    pub title_id: u32,
    pub title_index: u8,
    pub media_type: u8,
    pub title: String,
    pub year: u16,
    pub season: u16,
    pub episode_number: u16,
    pub episode_count: u16,
    pub special_feature_kind: u8,
    pub special_feature_name: String,
    pub version: String,
    pub disc: u16,
    pub location: String,
    pub memo: String,
}

/// Why a row of the inbox query is no video.
#[derive(Debug)]
pub enum VideoRowError {
    /// The checksum column is not the hexadecimal text of a checksum.
    Checksum(blake3::HexError),
    /// The container column holds no container type's code.
    ContainerType { code: u8 },
    /// The video names neither a copy operation nor a transcode operation as its source.
    VideoSource { copy_operation: Option<u32>, transcode_operation: Option<u32> },
    /// The title's media type column holds no media type's code.
    MediaType { code: u8 },
    /// The title's special feature column holds no special feature type's code.
    SpecialFeature { code: u8 },
}

/// The source that the operation columns name: the copy operation when there is one, else the
/// transcode operation, neither of them loaded.
pub open spec fn source_matches(s: VideoSource, copy: Option<u32>, transcode: Option<u32>) -> bool {
    match copy {
        Some(id) => s matches VideoSource::CopyOperation(r) && r.id == id && r.value is None,
        None => match transcode {
            Some(id) => s matches VideoSource::TranscodeOperation(r) && r.id == id
                && r.value is None,
            None => false,
        },
    }
}

/// The title is the one of the row's title columns.
pub open spec fn title_matches_row(t: Title, row: VideoRow) -> bool {
    &&& t.id == row.title_id
    &&& t.index == row.title_index
    &&& media_type_code(t.media_type) == row.media_type
    &&& t.title@ == row.title@
    &&& t.year == row.year
    &&& t.season == row.season
    &&& t.episode_number == row.episode_number
    &&& t.episode_count == row.episode_count
    &&& (if row.special_feature_kind == 0 {
        t.special_feature is None
    } else {
        t.special_feature matches Some(f) && special_feature_code(f.kind)
            == row.special_feature_kind && f.name@ == row.special_feature_name@
    })
    &&& t.version@ == row.version@
    &&& t.disc == row.disc
    &&& t.location@ == row.location@
    &&& t.memo@ == row.memo@
    &&& t.videos is None
}

/// The row is a video: its checksum text decodes, its codes are codes, and it names a source.
pub open spec fn row_is_video(row: VideoRow) -> bool {
    &&& is_checksum_text(row.checksum@)
    &&& row.container <= 1
    &&& (row.copy_operation_id is Some || row.transcode_operation_id is Some)
    &&& row.media_type <= 1
    &&& row.special_feature_kind <= 10
}

/// The error of a row that is no video: the first of the checks, in the order of the
/// checksum, the container, the source, the media type and the special feature, that fails.
pub open spec fn row_error_matches(e: VideoRowError, row: VideoRow) -> bool {
    if !is_checksum_text(row.checksum@) {
        e is Checksum
    } else if row.container > 1 {
        e matches VideoRowError::ContainerType { code } && code == row.container
    } else if row.copy_operation_id is None && row.transcode_operation_id is None {
        e matches VideoRowError::VideoSource { copy_operation, transcode_operation }
            && copy_operation is None && transcode_operation is None
    } else if row.media_type > 1 {
        e matches VideoRowError::MediaType { code } && code == row.media_type
    } else {
        e matches VideoRowError::SpecialFeature { code } && code == row.special_feature_kind
    }
}

/// The video is the one of the row, in the inbox, with the given tracks.
pub open spec fn video_matches_row(
    v: Video,
    row: VideoRow,
    video_tracks: Vec<VideoTrack>,
    audio_tracks: Vec<AudioTrack>,
    subtitle_tracks: Vec<SubtitleTrack>,
) -> bool {
    &&& v.id == row.id
    &&& v.location matches MediaLocation::Inbox(p) && p@ == row.location_path@
    &&& v.checksum@ == checksum_of_text(row.checksum@)
    &&& container_type_code(v.container) == row.container
    &&& v.video_tracks == video_tracks
    &&& v.audio_tracks == audio_tracks
    &&& v.subtitle_tracks == subtitle_tracks
    &&& source_matches(v.source, row.copy_operation_id, row.transcode_operation_id)
    &&& v.title.id == row.title_id
    &&& v.title.value matches Some(t) && title_matches_row(*t, row)
    &&& v.duration_secs == row.duration
}

/// The video of a row of the inbox query, given its decoded tracks; the video is in the inbox,
/// at the row's path, and carries its title.
pub fn video_from_row(
    row: VideoRow,
    video_tracks: Vec<VideoTrack>,
    audio_tracks: Vec<AudioTrack>,
    subtitle_tracks: Vec<SubtitleTrack>,
) -> (r: Result<Video, VideoRowError>)
    ensures
        r is Ok <==> row_is_video(row),
        r matches Ok(v) ==> video_matches_row(v, row, video_tracks, audio_tracks, subtitle_tracks),
        r matches Err(e) ==> row_error_matches(e, row),
{
    let checksum = match checksum_from_text(row.checksum.as_str()) {
        Ok(bytes) => bytes,
        Err(error) => return Err(VideoRowError::Checksum(error)),
    };
    let container = match container_type_from_sql(row.container) {
        Some(c) => c,
        None => return Err(VideoRowError::ContainerType { code: row.container }),
    };
    let source = match row.copy_operation_id {
        Some(id) => VideoSource::CopyOperation(Reference { id, value: None }),
        None => match row.transcode_operation_id {
            Some(id) => VideoSource::TranscodeOperation(Reference { id, value: None }),
            None => {
                return Err(
                    VideoRowError::VideoSource {
                        copy_operation: row.copy_operation_id,
                        transcode_operation: row.transcode_operation_id,
                    },
                )
            },
        },
    };
    let media_type = match media_type_from_sql(row.media_type) {
        Some(m) => m,
        None => return Err(VideoRowError::MediaType { code: row.media_type }),
    };
    let special_feature = match special_feature_from_sql(
        row.special_feature_kind,
        row.special_feature_name,
    ) {
        Ok(f) => f,
        Err(()) => return Err(VideoRowError::SpecialFeature { code: row.special_feature_kind }),
    };
    let title = Title {
        id: row.title_id,
        index: row.title_index,
        media_type,
        title: row.title,
        year: row.year,
        season: row.season,
        episode_number: row.episode_number,
        episode_count: row.episode_count,
        special_feature,
        version: row.version,
        disc: row.disc,
        location: row.location,
        memo: row.memo,
        videos: None,
    };
    Ok(
        Video {
            id: row.id,
            location: MediaLocation::Inbox(row.location_path),
            checksum,
            container,
            video_tracks,
            audio_tracks,
            subtitle_tracks,
            source,
            title: Reference { id: row.title_id, value: Some(Box::new(title)) },
            duration_secs: row.duration,
        },
    )
}

/// What is stored for a video in the inbox is read back as the video: a row that carries the
/// stored columns (and any valid title columns) is a video, with the same path, checksum,
/// container, source, title id and duration.
pub proof fn lemma_stored_video_read_back(
    v: Video,
    c: VideoColumns,
    row: VideoRow,
    w: Video,
    video_tracks: Vec<VideoTrack>,
    audio_tracks: Vec<AudioTrack>,
    subtitle_tracks: Vec<SubtitleTrack>,
)
    requires
        columns_of_video(c, v),
        v.location is Inbox,
        row.location_path@ == c.location_path@,
        row.checksum@ == c.checksum@,
        row.container == c.container,
        row.copy_operation_id == c.copy_operation_id,
        row.transcode_operation_id == c.transcode_operation_id,
        row.title_id == c.title_id,
        row.duration == c.duration,
        row.media_type <= 1,
        row.special_feature_kind <= 10,
    ensures
        row_is_video(row),
        video_matches_row(w, row, video_tracks, audio_tracks, subtitle_tracks) ==> {
            &&& w.location matches MediaLocation::Inbox(p) && p@ == media_location_path(v.location)
            &&& w.checksum@ == v.checksum@
            &&& w.container == v.container
            &&& source_ids(w.source) == source_ids(v.source)
            &&& w.title.id == v.title.id
            &&& w.duration_secs == v.duration_secs
        },
{
    lemma_checksum_text_roundtrip(v.checksum@);
}

} // verus!
