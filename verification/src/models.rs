//! Shared data models.

use vstd::prelude::*;

use crate::text::{is_blank, is_blank_str};

verus! {

/// The first year a feature film was released; release years before it are input errors.
pub const FIRST_RELEASE_YEAR: u16 = 1909;

/// Specifies the various audio codecs.
#[derive(Clone, Copy, Debug, PartialEq, Eq, Structural)]
pub enum AudioCodec {
    AAC,
    AC3,
    ALAC16,
    ALAC24,
    DTS,
    DTSHD,
    EAC3,
    Flac16,
    Flac24,
    MP2,
    MP3,
    Opus,
    TrueHD,
    Vorbis,
}

/// Specifies the methods of audio track encoding when transcoding.
#[derive(Clone, Copy, Debug, PartialEq, Eq, Structural)]
pub enum AudioEncodeMethod {
    /// Audio track is passed thru without modification.
    Copy,
    /// Audio track is re-encoded into AAC.
    AAC,
}

/// Media container types.
#[derive(Clone, Copy, Debug, PartialEq, Eq, Structural)]
pub enum ContainerType {
    MKV,
    MP4,
}

/// Location of a media file; the path is relative to the root folder of its area.
#[derive(Clone, Debug)]
pub enum MediaLocation {
    Inbox(String),
    Library(String),
    Archive(String),
    Deleted,
}

/// Specifies the different types of media.
#[derive(Clone, Copy, Debug, PartialEq, Eq, Structural)]
pub enum MediaType {
    Movie,
    Show,
}

impl MediaType {
    /// The text shown for the media type.
    pub fn as_str(&self) -> (s: &'static str)
        ensures
            s@ == self.label(),
    {
        proof {
            reveal_strlit("Movie");
            reveal_strlit("Show");
        }
        match self {
            MediaType::Movie => "Movie",
            MediaType::Show => "Show",
        }
    }

    pub open spec fn label(self) -> Seq<char> {
        match self {
            MediaType::Movie => seq!['M', 'o', 'v', 'i', 'e'],
            MediaType::Show => seq!['S', 'h', 'o', 'w'],
        }
    }
}

impl Default for MediaType {
    fn default() -> (m: MediaType)
        ensures
            m == MediaType::Movie,
    {
        MediaType::Movie
    }
}

/// Specifies the states of an operation (e.g. copy or transcode).
#[derive(Clone, Debug)]
pub enum OperationState {
    Requested,
    Running,
    Completed,
    Cancelled,
    Failed { reason: String },
}

/// Specifies the different types of movie and show extras.
#[derive(Clone, Copy, Debug, PartialEq, Eq, Structural)]
pub enum SpecialFeatureType {
    NotSpecial,
    BehindTheScenes,
    DeletedScenes,
    Interviews,
    Scenes,
    Samples,
    Shorts,
    Featurettes,
    Clips,
    Extras,
    Trailers,
}

/// Specifies the various subtitle codecs.
#[derive(Clone, Copy, Debug, PartialEq, Eq, Structural)]
pub enum SubtitleCodec {
    CC,
    PGS,
}

/// Specifies the various video codecs.
#[derive(Clone, Copy, Debug, PartialEq, Eq, Structural)]
pub enum VideoCodec {
    H264,
    H265,
    MPEG2,
    MPEG4,
    Theora,
    VP8,
    VP9,
}

/// Represents a relationship to another model.
#[derive(Debug)]
pub struct Reference<T> {
    /// The reference id (foreign key).
    pub id: u32,
    /// The reference data, when the query loaded it.
    pub value: Option<Box<T>>,
}

/// Represents an audio track in a video; indexes start at 1.
#[derive(Debug)]
pub struct AudioTrack {
    pub index: u8,
    pub name: String,
    pub codec: AudioCodec,
    pub encode_method: Option<AudioEncodeMethod>,
    pub language: String,
    pub channel_count: u8,
    pub channel_layout: String,
}

/// Represents a specific computer an operation was performed on.
#[derive(Clone, Debug)]
pub struct Host {
    pub id: u32,
    pub hostname: String,
}

/// Represents an optical drive as stored in the database.
#[derive(Debug)]
pub struct OpticalDrive {
    pub id: u32,
    pub serial_number: String,
}

/// Represents a special feature in a DVD or Blu-ray.
#[derive(Debug)]
pub struct SpecialFeature {
    pub kind: SpecialFeatureType,
    pub name: String,
}

/// Represents a subtitle track; indexes start at 1.
#[derive(Debug)]
pub struct SubtitleTrack {
    pub index: u8,
    pub codec: SubtitleCodec,
    pub language: String,
}

/// Represents a video track; indexes start at 1.
#[derive(Debug)]
pub struct VideoTrack {
    pub index: u8,
    pub codec: VideoCodec,
    pub size: String,
    pub aspect_ratio: String,
}

/// Represents a title: a movie, a show episode, or a special feature.
#[derive(Debug)]
pub struct Title {
    pub id: u32,
    pub index: u8,
    pub media_type: MediaType,
    pub title: String,
    pub year: u16,
    pub season: u16,
    pub episode_number: u16,
    pub episode_count: u16,
    pub special_feature: Option<SpecialFeature>,
    pub version: String,
    pub disc: u16,
    pub location: String,
    pub memo: String,
    /// The videos of the title, when the query loaded them.
    pub videos: Option<Vec<Video>>,
}

/// Represents a copy operation.
///
/// Times are seconds since the Unix epoch (UTC).
#[derive(Debug)]
pub struct CopyOperation {
    pub id: u32,
    pub started: i64,
    pub completed: i64,
    pub state: OperationState,
    pub media_type: MediaType,
    pub title: String,
    pub year: u16,
    pub disc: u16,
    pub disc_uuid: String,
    pub season: u16,
    pub location: String,
    pub memo: String,
    pub metadata: String,
    pub drive: Reference<OpticalDrive>,
    pub info_log: String,
    pub copy_log: String,
    pub host: Reference<Host>,
    pub titles: Option<Vec<Title>>,
    /// The videos created from the operation, when the query loaded them.
    pub videos: Option<Vec<Video>>,
}

impl CopyOperation {
    /// Holds when every field has the value of a freshly created operation record.
    pub open spec fn is_blank_record(&self) -> bool {
        &&& self.id == 0
        &&& self.started == 0
        &&& self.completed == 0
        &&& self.state is Requested
        &&& self.disc_uuid@.len() == 0
        &&& self.metadata@.len() == 0
        &&& self.drive.id == 0
        &&& self.drive.value is None
        &&& self.info_log@.len() == 0
        &&& self.copy_log@.len() == 0
        &&& self.host.id == 0
        &&& self.host.value is None
        &&& self.titles is None
        &&& self.videos is None
    }

    /// Creates a copy operation record from the parameters chosen by the user.
    pub fn from_params(params: &CopyParameters) -> (op: CopyOperation)
        ensures
            op.is_blank_record(),
            op.media_type == params.media_type,
            op.title@ == params.title@,
            op.year == params.release_year,
            op.season == params.season_number,
            op.disc == params.disc_number,
            op.location@ == params.location@,
            op.memo@ == params.memo@,
    {
        let base = CopyOperation::default();
        CopyOperation {
            media_type: params.media_type,
            title: params.title.clone(),
            year: params.release_year,
            season: params.season_number,
            disc: params.disc_number,
            location: params.location.clone(),
            memo: params.memo.clone(),
            ..base
        }
    }
}

impl Default for CopyOperation {
    fn default() -> (op: CopyOperation)
        ensures
            op.is_blank_record(),
            op.media_type == MediaType::Movie,
            op.title@.len() == 0,
            op.year == 0,
            op.disc == 0,
            op.season == 0,
            op.location@.len() == 0,
            op.memo@.len() == 0,
    {
        CopyOperation {
            id: 0,
            started: 0,
            completed: 0,
            state: OperationState::Requested,
            media_type: MediaType::Movie,
            title: String::new(),
            year: 0,
            disc: 0,
            disc_uuid: String::new(),
            season: 0,
            location: String::new(),
            memo: String::new(),
            metadata: String::new(),
            drive: Reference { id: 0, value: None },
            info_log: String::new(),
            copy_log: String::new(),
            host: Reference { id: 0, value: None },
            titles: None,
            videos: None,
        }
    }
}

/// The parameters for a copy operation.
#[derive(Clone, Debug)]
pub struct CopyParameters {
    pub media_type: MediaType,
    pub title: String,
    pub release_year: u16,
    pub season_number: u16,
    pub disc_number: u16,
    pub location: String,
    pub memo: String,
}

/// Represents a transcode operation.
///
/// Times are seconds since the Unix epoch (UTC).
#[derive(Debug)]
pub struct TranscodeOperation {
    pub id: u32,
    pub started: i64,
    pub completed: i64,
    pub state: OperationState,
    pub episode_number: u16,
    pub episode_count: u16,
    pub special_feature: Option<SpecialFeature>,
    pub version: String,
    pub audio_tracks: Vec<AudioTrack>,
    pub subtitle_tracks: Vec<SubtitleTrack>,
    pub command_log: String,
    pub host: Reference<Host>,
    pub title: Reference<Title>,
}

/// Specifies the different sources of a video file's creation.
#[derive(Debug)]
pub enum VideoSource {
    /// Video was created by copying a title from a DVD or Blu-ray.
    CopyOperation(Reference<CopyOperation>),
    /// Video was created by transcoding another video.
    TranscodeOperation(Reference<TranscodeOperation>),
}

/// Represents an individual video file.
#[derive(Debug)]
pub struct Video {
    pub id: u32,
    pub location: MediaLocation,
    /// The BLAKE3 checksum of the file.
    pub checksum: [u8; 32],
    pub container: ContainerType,
    pub video_tracks: Vec<VideoTrack>,
    pub audio_tracks: Vec<AudioTrack>,
    pub subtitle_tracks: Vec<SubtitleTrack>,
    pub source: VideoSource,
    pub title: Reference<Title>,
    /// The video's runtime in seconds.
    pub duration_secs: u64,
}

/// Specifies the errors of invalid arguments.
#[derive(Debug, PartialEq, Eq, Structural)]
pub enum ValidationError {
    /// The argument is empty or white space alone.
    EmptyString,
}

/// Checks that an argument holds more than white space.
pub fn check_not_blank(value: &str) -> (r: Result<(), ValidationError>)
    ensures
        r is Ok <==> !is_blank(value@),
        r matches Err(e) ==> e == ValidationError::EmptyString,
{
    if is_blank_str(value) {
        Err(ValidationError::EmptyString)
    } else {
        Ok(())
    }
}

/// The name of the application's configuration file.
pub fn get_config_path() -> (p: String)
    ensures
        p@ == "artie.toml"@,
{
    "artie.toml".to_owned()
}

/// Wraps `SystemTime::now().duration_since(UNIX_EPOCH)`: the time of the system clock since the
/// Unix epoch, as whole seconds and the nanoseconds beyond them, or nothing when the clock is set
/// before the epoch. Which time depends on the clock; claimed is only what `Duration` documents,
/// that the nanoseconds are fewer than a billion.
#[verifier::external_body]
fn time_since_epoch() -> (r: Option<(u64, u32)>)
    ensures
        r matches Some((_, nanos)) ==> nanos < 1_000_000_000,
{
    match std::time::SystemTime::now().duration_since(std::time::UNIX_EPOCH) {
        Ok(d) => Some((d.as_secs(), d.subsec_nanos())),
        Err(_) => None,
    }
}

/// The UTC year of a Unix timestamp, as chrono's `DateTime::from_timestamp` and
/// `Datelike::year` compute it, or nothing for a timestamp chrono does not represent.
pub uninterp spec fn utc_year_of_timestamp(secs: i64, nanos: u32) -> Option<i32>;

/// Wraps chrono's `DateTime::from_timestamp` and `Datelike::year` of the result: the UTC year of
/// the timestamp. Claimed: the result is a function of the timestamp, and a year reached at or
/// after the Unix epoch (a timestamp not below zero) is 1970 or later.
#[verifier::external_body]
fn utc_year(secs: i64, nanos: u32) -> (r: Option<i32>)
    ensures
        r == utc_year_of_timestamp(secs, nanos),
        0 <= secs ==> (r matches Some(year) ==> 1970 <= year),
{
    match chrono::DateTime::from_timestamp(secs, nanos) {
        Some(time) => Some(chrono::Datelike::year(&time)),
        None => None,
    }
}

impl CopyParameters {
    /// The checks of the parameters that do not depend on the date: a title and a location that
    /// are not blank, a release year no earlier than the first feature film, a disc number, and a
    /// season number for shows.
    pub open spec fn well_formed(&self) -> bool {
        &&& !is_blank(self.title@)
        &&& !is_blank(self.location@)
        &&& FIRST_RELEASE_YEAR <= self.release_year
        &&& self.disc_number > 0
        &&& self.media_type == MediaType::Show ==> self.season_number > 0
    }

    /// The parameters are valid in the given year when they are well formed and the release
    /// year is not after it.
    pub open spec fn valid_for_year(&self, current_year: int) -> bool {
        self.well_formed() && self.release_year <= current_year
    }

    /// Returns true if the parameters are valid in the year `current_year`.
    pub fn valid_in_year(&self, current_year: i32) -> (b: bool)
        ensures
            b == self.valid_for_year(current_year as int),
    {
        if is_blank_str(self.title.as_str()) {
            return false;
        }
        if is_blank_str(self.location.as_str()) {
            return false;
        }
        if !(FIRST_RELEASE_YEAR as i32 <= self.release_year as i32 && self.release_year as i32
            <= current_year) {
            return false;
        }
        if self.disc_number <= 0 {
            return false;
        }
        if self.media_type == MediaType::Show && self.season_number <= 0 {
            return false;
        }
        true
    }

    /// Returns true if the parameters are valid in the current year (UTC) or false otherwise.
    ///
    /// The year is read from the system clock at each call; what is decided for each year is
    /// [`CopyParameters::valid_in_year`]. When the clock gives no year (it is set before the Unix
    /// epoch, or beyond the dates that can be represented), no upper limit is put on the release
    /// year. Parameters that are well formed and released in 1970 or earlier are valid whatever
    /// the clock says.
    pub fn valid(&self) -> (b: bool)
        ensures
            b ==> self.well_formed(),
            self.well_formed() && self.release_year <= 1970 ==> b,
    {
        let year = match time_since_epoch() {
            Some((secs, nanos)) => if secs <= 0x7fff_ffff_ffff_ffff {
                utc_year(secs as i64, nanos)
            } else {
                None
            },
            None => None,
        };
        match year {
            Some(year) => self.valid_in_year(year),
            None => self.valid_in_year(i32::MAX),
        }
    }
}

} // verus!
