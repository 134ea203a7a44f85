//! Parsing of the messages that MakeMKV prints in robot mode.
//!
//! Each line of MakeMKV's output is a message of the form `KEY:DATA`, where the key names the
//! message type and the data is a comma separated list of fields.

use vstd::prelude::*;

use crate::text::{chars_of, parse_i32, parse_i32_range, trim_quotes, trim_quotes_range};

verus! {

/// The information attribute types that MakeMKV's 'info' command reports for the disc, its
/// titles and their streams.
#[derive(Clone, Copy, Debug, PartialEq, Eq, Structural)]
pub enum Attribute {
    Unknown,
    Type,
    Name,
    LangCode,
    LangName,
    CodecId,
    CodecShort,
    CodecLong,
    ChapterCount,
    Duration,
    DiskSize,
    DiskSizeBytes,
    StreamTypeExtension,
    Bitrate,
    AudioChannelsCount,
    AngleInfo,
    SourceFileName,
    AudioSampleRate,
    AudioSampleSize,
    VideoSize,
    VideoAspectRatio,
    VideoFrameRate,
    StreamFlags,
    DateTime,
    OriginalTitleId,
    SegmentsCount,
    SegmentsMap,
    OutputFileName,
    MetadataLanguageCode,
    MetadataLanguageName,
    TreeInfo,
    PanelTitle,
    VolumeName,
    OrderWeight,
    OutputFormat,
    OutputFormatDescription,
    SeamlessInfo,
    PanelText,
    MkvFlags,
    MkvFlagsText,
    AudioChannelLayoutName,
    OutputCodecShort,
    OutputConversionType,
    OutputAudioSampleRate,
    OutputAudioSampleSize,
    OutputAudioChannelsCount,
    OutputAudioChannelLayoutName,
    OutputAudioChannelLayout,
    OutputAudioMixDescription,
    Comment,
    OffsetSequenceId,
}

/// The number by which MakeMKV identifies an attribute.
pub open spec fn attribute_code(a: Attribute) -> int {
    match a {
        Attribute::Unknown => 0,
        Attribute::Type => 1,
        Attribute::Name => 2,
        Attribute::LangCode => 3,
        Attribute::LangName => 4,
        Attribute::CodecId => 5,
        Attribute::CodecShort => 6,
        Attribute::CodecLong => 7,
        Attribute::ChapterCount => 8,
        Attribute::Duration => 9,
        Attribute::DiskSize => 10,
        Attribute::DiskSizeBytes => 11,
        Attribute::StreamTypeExtension => 12,
        Attribute::Bitrate => 13,
        Attribute::AudioChannelsCount => 14,
        Attribute::AngleInfo => 15,
        Attribute::SourceFileName => 16,
        Attribute::AudioSampleRate => 17,
        Attribute::AudioSampleSize => 18,
        Attribute::VideoSize => 19,
        Attribute::VideoAspectRatio => 20,
        Attribute::VideoFrameRate => 21,
        Attribute::StreamFlags => 22,
        Attribute::DateTime => 23,
        Attribute::OriginalTitleId => 24,
        Attribute::SegmentsCount => 25,
        Attribute::SegmentsMap => 26,
        Attribute::OutputFileName => 27,
        Attribute::MetadataLanguageCode => 28,
        Attribute::MetadataLanguageName => 29,
        Attribute::TreeInfo => 30,
        Attribute::PanelTitle => 31,
        Attribute::VolumeName => 32,
        Attribute::OrderWeight => 33,
        Attribute::OutputFormat => 34,
        Attribute::OutputFormatDescription => 35,
        Attribute::SeamlessInfo => 36,
        Attribute::PanelText => 37,
        Attribute::MkvFlags => 38,
        Attribute::MkvFlagsText => 39,
        Attribute::AudioChannelLayoutName => 40,
        Attribute::OutputCodecShort => 41,
        Attribute::OutputConversionType => 42,
        Attribute::OutputAudioSampleRate => 43,
        Attribute::OutputAudioSampleSize => 44,
        Attribute::OutputAudioChannelsCount => 45,
        Attribute::OutputAudioChannelLayoutName => 46,
        Attribute::OutputAudioChannelLayout => 47,
        Attribute::OutputAudioMixDescription => 48,
        Attribute::Comment => 49,
        Attribute::OffsetSequenceId => 50,
    }
}

/// The attribute that MakeMKV identifies by `n`, if any.
pub open spec fn attribute_of(n: int) -> Option<Attribute> {
    if n == 0 {
        Some(Attribute::Unknown)
    } else if n == 1 {
        Some(Attribute::Type)
    } else if n == 2 {
        Some(Attribute::Name)
    } else if n == 3 {
        Some(Attribute::LangCode)
    } else if n == 4 {
        Some(Attribute::LangName)
    } else if n == 5 {
        Some(Attribute::CodecId)
    } else if n == 6 {
        Some(Attribute::CodecShort)
    } else if n == 7 {
        Some(Attribute::CodecLong)
    } else if n == 8 {
        Some(Attribute::ChapterCount)
    } else if n == 9 {
        Some(Attribute::Duration)
    } else if n == 10 {
        Some(Attribute::DiskSize)
    } else if n == 11 {
        Some(Attribute::DiskSizeBytes)
    } else if n == 12 {
        Some(Attribute::StreamTypeExtension)
    } else if n == 13 {
        Some(Attribute::Bitrate)
    } else if n == 14 {
        Some(Attribute::AudioChannelsCount)
    } else if n == 15 {
        Some(Attribute::AngleInfo)
    } else if n == 16 {
        Some(Attribute::SourceFileName)
    } else if n == 17 {
        Some(Attribute::AudioSampleRate)
    } else if n == 18 {
        Some(Attribute::AudioSampleSize)
    } else if n == 19 {
        Some(Attribute::VideoSize)
    } else if n == 20 {
        Some(Attribute::VideoAspectRatio)
    } else if n == 21 {
        Some(Attribute::VideoFrameRate)
    } else if n == 22 {
        Some(Attribute::StreamFlags)
    } else if n == 23 {
        Some(Attribute::DateTime)
    } else if n == 24 {
        Some(Attribute::OriginalTitleId)
    } else if n == 25 {
        Some(Attribute::SegmentsCount)
    } else if n == 26 {
        Some(Attribute::SegmentsMap)
    } else if n == 27 {
        Some(Attribute::OutputFileName)
    } else if n == 28 {
        Some(Attribute::MetadataLanguageCode)
    } else if n == 29 {
        Some(Attribute::MetadataLanguageName)
    } else if n == 30 {
        Some(Attribute::TreeInfo)
    } else if n == 31 {
        Some(Attribute::PanelTitle)
    } else if n == 32 {
        Some(Attribute::VolumeName)
    } else if n == 33 {
        Some(Attribute::OrderWeight)
    } else if n == 34 {
        Some(Attribute::OutputFormat)
    } else if n == 35 {
        Some(Attribute::OutputFormatDescription)
    } else if n == 36 {
        Some(Attribute::SeamlessInfo)
    } else if n == 37 {
        Some(Attribute::PanelText)
    } else if n == 38 {
        Some(Attribute::MkvFlags)
    } else if n == 39 {
        Some(Attribute::MkvFlagsText)
    } else if n == 40 {
        Some(Attribute::AudioChannelLayoutName)
    } else if n == 41 {
        Some(Attribute::OutputCodecShort)
    } else if n == 42 {
        Some(Attribute::OutputConversionType)
    } else if n == 43 {
        Some(Attribute::OutputAudioSampleRate)
    } else if n == 44 {
        Some(Attribute::OutputAudioSampleSize)
    } else if n == 45 {
        Some(Attribute::OutputAudioChannelsCount)
    } else if n == 46 {
        Some(Attribute::OutputAudioChannelLayoutName)
    } else if n == 47 {
        Some(Attribute::OutputAudioChannelLayout)
    } else if n == 48 {
        Some(Attribute::OutputAudioMixDescription)
    } else if n == 49 {
        Some(Attribute::Comment)
    } else if n == 50 {
        Some(Attribute::OffsetSequenceId)
    } else {
        None
    }
}

/// Converts the number MakeMKV uses for an attribute to the attribute, or `None` if `n` is no
/// attribute's number.
pub fn get_attribute(n: i32) -> (r: Option<Attribute>)
    ensures
        r == attribute_of(n as int),
{
    match n {
        0 => Some(Attribute::Unknown),
        1 => Some(Attribute::Type),
        2 => Some(Attribute::Name),
        3 => Some(Attribute::LangCode),
        4 => Some(Attribute::LangName),
        5 => Some(Attribute::CodecId),
        6 => Some(Attribute::CodecShort),
        7 => Some(Attribute::CodecLong),
        8 => Some(Attribute::ChapterCount),
        9 => Some(Attribute::Duration),
        10 => Some(Attribute::DiskSize),
        11 => Some(Attribute::DiskSizeBytes),
        12 => Some(Attribute::StreamTypeExtension),
        13 => Some(Attribute::Bitrate),
        14 => Some(Attribute::AudioChannelsCount),
        15 => Some(Attribute::AngleInfo),
        16 => Some(Attribute::SourceFileName),
        17 => Some(Attribute::AudioSampleRate),
        18 => Some(Attribute::AudioSampleSize),
        19 => Some(Attribute::VideoSize),
        20 => Some(Attribute::VideoAspectRatio),
        21 => Some(Attribute::VideoFrameRate),
        22 => Some(Attribute::StreamFlags),
        23 => Some(Attribute::DateTime),
        24 => Some(Attribute::OriginalTitleId),
        25 => Some(Attribute::SegmentsCount),
        26 => Some(Attribute::SegmentsMap),
        27 => Some(Attribute::OutputFileName),
        28 => Some(Attribute::MetadataLanguageCode),
        29 => Some(Attribute::MetadataLanguageName),
        30 => Some(Attribute::TreeInfo),
        31 => Some(Attribute::PanelTitle),
        32 => Some(Attribute::VolumeName),
        33 => Some(Attribute::OrderWeight),
        34 => Some(Attribute::OutputFormat),
        35 => Some(Attribute::OutputFormatDescription),
        36 => Some(Attribute::SeamlessInfo),
        37 => Some(Attribute::PanelText),
        38 => Some(Attribute::MkvFlags),
        39 => Some(Attribute::MkvFlagsText),
        40 => Some(Attribute::AudioChannelLayoutName),
        41 => Some(Attribute::OutputCodecShort),
        42 => Some(Attribute::OutputConversionType),
        43 => Some(Attribute::OutputAudioSampleRate),
        44 => Some(Attribute::OutputAudioSampleSize),
        45 => Some(Attribute::OutputAudioChannelsCount),
        46 => Some(Attribute::OutputAudioChannelLayoutName),
        47 => Some(Attribute::OutputAudioChannelLayout),
        48 => Some(Attribute::OutputAudioMixDescription),
        49 => Some(Attribute::Comment),
        50 => Some(Attribute::OffsetSequenceId),
        _ => None,
    }
}

/// A message printed by MakeMKV.
#[derive(Debug)]
pub enum Message {
    /// An attribute of the disc.
    Cinfo { id: Attribute, code: i32, value: String },
    /// Information about an optical drive.
    Drv {
        index: i32,
        state: i32,
        unknown: i32,
        media_flags: i32,
        drive_name: String,
        disc_name: String,
        device_path: String,
    },
    /// A general information message.
    Msg { code: i32, flags: i32, count: i32, message: String, format: String, args: Vec<String> },
    /// The name of the current suboperation.
    Prgc { code: i32, id: i32, name: String },
    /// The name of the current operation.
    Prgt { code: i32, id: i32, name: String },
    /// The progress of the current operation and suboperation, out of `max`.
    Prgv { suboperation: i32, operation: i32, max: i32 },
    /// An attribute of a stream of a title.
    Sinfo { title_index: i32, stream_index: i32, id: Attribute, code: i32, value: String },
    /// The number of titles on the disc.
    Tcount { count: i32 },
    /// An attribute of a title.
    Tinfo { title_index: i32, id: Attribute, code: i32, value: String },
}

/// A message with its texts as character sequences.
pub enum MessageView {
    Cinfo { id: Attribute, code: i32, value: Seq<char> },
    Drv {
        index: i32,
        state: i32,
        unknown: i32,
        media_flags: i32,
        drive_name: Seq<char>,
        disc_name: Seq<char>,
        device_path: Seq<char>,
    },
    Msg {
        code: i32,
        flags: i32,
        count: i32,
        message: Seq<char>,
        format: Seq<char>,
        args: Seq<Seq<char>>,
    },
    Prgc { code: i32, id: i32, name: Seq<char> },
    Prgt { code: i32, id: i32, name: Seq<char> },
    Prgv { suboperation: i32, operation: i32, max: i32 },
    Sinfo { title_index: i32, stream_index: i32, id: Attribute, code: i32, value: Seq<char> },
    Tcount { count: i32 },
    Tinfo { title_index: i32, id: Attribute, code: i32, value: Seq<char> },
}

impl View for Message {
    type V = MessageView;

    open spec fn view(&self) -> MessageView {
        match self {
            Message::Cinfo { id, code, value } => MessageView::Cinfo {
                id: *id,
                code: *code,
                value: value@,
            },
            Message::Drv { index, state, unknown, media_flags, drive_name, disc_name, device_path } =>
                MessageView::Drv {
                index: *index,
                state: *state,
                unknown: *unknown,
                media_flags: *media_flags,
                drive_name: drive_name@,
                disc_name: disc_name@,
                device_path: device_path@,
            },
            Message::Msg { code, flags, count, message, format, args } => MessageView::Msg {
                code: *code,
                flags: *flags,
                count: *count,
                message: message@,
                format: format@,
                args: args@.map_values(|a: String| a@),
            },
            Message::Prgc { code, id, name } => MessageView::Prgc { code: *code, id: *id, name: name@ },
            Message::Prgt { code, id, name } => MessageView::Prgt { code: *code, id: *id, name: name@ },
            Message::Prgv { suboperation, operation, max } => MessageView::Prgv {
                suboperation: *suboperation,
                operation: *operation,
                max: *max,
            },
            Message::Sinfo { title_index, stream_index, id, code, value } => MessageView::Sinfo {
                title_index: *title_index,
                stream_index: *stream_index,
                id: *id,
                code: *code,
                value: value@,
            },
            Message::Tcount { count } => MessageView::Tcount { count: *count },
            Message::Tinfo { title_index, id, code, value } => MessageView::Tinfo {
                title_index: *title_index,
                id: *id,
                code: *code,
                value: value@,
            },
        }
    }
}

/// Why a line of MakeMKV output is not a message.
#[derive(Debug)]
pub enum MessageError {
    /// The line has no `:` separating the key from the data.
    InvalidMessageFormat { msg: String },
    /// A field of the data is missing or malformed; `error` says which.
    InvalidMessageData { key: String, data: String, error: String },
    /// The key names no known message type.
    UnknownMessageType { key: String, data: String },
}

/// A message error with its texts as character sequences.
pub enum MessageErrorView {
    InvalidMessageFormat { msg: Seq<char> },
    InvalidMessageData { key: Seq<char>, data: Seq<char>, error: Seq<char> },
    UnknownMessageType { key: Seq<char>, data: Seq<char> },
}

impl View for MessageError {
    type V = MessageErrorView;

    open spec fn view(&self) -> MessageErrorView {
        match self {
            MessageError::InvalidMessageFormat { msg } => MessageErrorView::InvalidMessageFormat {
                msg: msg@,
            },
            MessageError::InvalidMessageData { key, data, error } =>
                MessageErrorView::InvalidMessageData { key: key@, data: data@, error: error@ },
            MessageError::UnknownMessageType { key, data } => MessageErrorView::UnknownMessageType {
                key: key@,
                data: data@,
            },
        }
    }
}

/// The outcome of parsing, with texts as character sequences.
pub type Outcome = Result<MessageView, MessageErrorView>;

/// The outcome of a parse result.
pub open spec fn outcome_of(r: Result<Message, MessageError>) -> Outcome {
    match r {
        Ok(m) => Ok(m@),
        Err(e) => Err(e@),
    }
}

/// The fields of a message's data: the text cut at every comma, as `str::split(',')` cuts it.
/// The empty text has one empty field.
pub open spec fn split_commas(s: Seq<char>) -> Seq<Seq<char>>
    decreases s.len(),
{
    if s.len() == 0 {
        seq![Seq::empty()]
    } else {
        let prev = split_commas(s.drop_last());
        if s.last() == ',' {
            prev.push(Seq::empty())
        } else {
            prev.update(prev.len() - 1, prev.last().push(s.last()))
        }
    }
}

/// The index of the first `:` of a line, if it has one.
pub open spec fn key_end(s: Seq<char>) -> Option<int> {
    if exists|i: int| is_key_end(s, i) {
        Some(choose|i: int| is_key_end(s, i))
    } else {
        None
    }
}

/// `i` is the index of the first `:` of `s`.
pub open spec fn is_key_end(s: Seq<char>, i: int) -> bool {
    &&& 0 <= i < s.len()
    &&& s[i] == ':'
    &&& forall|j: int| 0 <= j < i ==> s[j] != ':'
}

/// The error for a missing or malformed field of a message.
pub open spec fn data_error(key: &str, data: Seq<char>, error: &str) -> Outcome {
    Err(MessageErrorView::InvalidMessageData { key: key@, data, error: error@ })
}

/// The integer in field `k`, if the field is there and holds one.
pub open spec fn int_field(p: Seq<Seq<char>>, k: int) -> Option<i32> {
    if k < p.len() {
        parse_i32(p[k])
    } else {
        None
    }
}

/// The attribute whose number is in field `k`, if there is one.
pub open spec fn attribute_field(p: Seq<Seq<char>>, k: int) -> Option<Attribute> {
    match int_field(p, k) {
        Some(n) => attribute_of(n as int),
        None => None,
    }
}

/// The outcome of parsing the data of a CINFO message: `<id>,<code>,<value>`.
pub open spec fn cinfo_outcome(data: Seq<char>) -> Outcome {
    let p = split_commas(data);
    if p.len() < 1 {
        data_error("CINFO", data, "missing 'id' field")
    } else if attribute_field(p, 0) is None {
        data_error("CINFO", data, "failed to convert 'id' to int")
    } else if p.len() < 2 {
        data_error("CINFO", data, "missing 'code' field")
    } else if int_field(p, 1) is None {
        data_error("CINFO", data, "failed to convert 'code' to int")
    } else if p.len() < 3 {
        data_error("CINFO", data, "missing 'value' field")
    } else {
        Ok(
            MessageView::Cinfo {
                id: attribute_field(p, 0)->0,
                code: int_field(p, 1)->0,
                value: trim_quotes(p[2]),
            },
        )
    }
}

/// The outcome of parsing the data of a DRV message:
/// `<index>,<state>,<unknown>,<media_flags>,<drive_name>,<disc_name>,<device_path>`.
pub open spec fn drv_outcome(data: Seq<char>) -> Outcome {
    let p = split_commas(data);
    if p.len() < 1 {
        data_error("DRV", data, "missing 'index' field")
    } else if int_field(p, 0) is None {
        data_error("DRV", data, "failed to convert 'index' to int")
    } else if p.len() < 2 {
        data_error("DRV", data, "missing 'state' field")
    } else if int_field(p, 1) is None {
        data_error("DRV", data, "failed to convert 'state' to int")
    } else if p.len() < 3 {
        data_error("DRV", data, "missing 'unknown' field")
    } else if int_field(p, 2) is None {
        data_error("DRV", data, "failed to convert 'unknown' to int")
    } else if p.len() < 4 {
        data_error("DRV", data, "missing 'media_flags' field")
    } else if int_field(p, 3) is None {
        data_error("DRV", data, "failed to convert 'media_flags' to int")
    } else if p.len() < 5 {
        data_error("DRV", data, "missing 'drive_name' field")
    } else if p.len() < 6 {
        data_error("DRV", data, "missing 'drive_name' field")
    } else if p.len() < 7 {
        data_error("DRV", data, "missing 'disc_name' field")
    } else {
        Ok(
            MessageView::Drv {
                index: int_field(p, 0)->0,
                state: int_field(p, 1)->0,
                unknown: int_field(p, 2)->0,
                media_flags: int_field(p, 3)->0,
                drive_name: trim_quotes(p[4]),
                disc_name: trim_quotes(p[5]),
                device_path: trim_quotes(p[6]),
            },
        )
    }
}

/// The outcome of parsing the data of a MSG message:
/// `<code>,<flags>,<count>,<message>,<format>,<args..>`.
pub open spec fn msg_outcome(data: Seq<char>) -> Outcome {
    let p = split_commas(data);
    if p.len() < 1 {
        data_error("MSG", data, "missing 'code' field")
    } else if int_field(p, 0) is None {
        data_error("MSG", data, "failed to convert 'code' to int")
    } else if p.len() < 2 {
        data_error("MSG", data, "missing 'flags' field")
    } else if int_field(p, 1) is None {
        data_error("MSG", data, "failed to convert 'flags' to int")
    } else if p.len() < 3 {
        data_error("MSG", data, "missing 'count' field")
    } else if int_field(p, 2) is None {
        data_error("MSG", data, "failed to convert 'count' to int")
    } else if p.len() < 4 {
        data_error("MSG", data, "missing 'message' field")
    } else if p.len() < 5 {
        data_error("MSG", data, "missing 'format' field")
    } else {
        Ok(
            MessageView::Msg {
                code: int_field(p, 0)->0,
                flags: int_field(p, 1)->0,
                count: int_field(p, 2)->0,
                message: trim_quotes(p[3]),
                format: trim_quotes(p[4]),
                args: p.skip(5),
            },
        )
    }
}

/// The outcome of parsing the data of a PRGC or PRGT message: `<code>,<id>,<name>`.
pub open spec fn progress_title_outcome(key: &str, data: Seq<char>, current: bool) -> Outcome {
    let p = split_commas(data);
    if p.len() < 1 {
        data_error(key, data, "missing 'code' field")
    } else if int_field(p, 0) is None {
        data_error(key, data, "failed to convert 'code' to int")
    } else if p.len() < 2 {
        data_error(key, data, "missing 'id' field")
    } else if int_field(p, 1) is None {
        data_error(key, data, "failed to convert 'id' to int")
    } else if p.len() < 3 {
        data_error(key, data, "missing 'name' field")
    } else if current {
        Ok(MessageView::Prgc { code: int_field(p, 0)->0, id: int_field(p, 1)->0, name: trim_quotes(p[2]) })
    } else {
        Ok(MessageView::Prgt { code: int_field(p, 0)->0, id: int_field(p, 1)->0, name: trim_quotes(p[2]) })
    }
}

/// The outcome of parsing the data of a PRGV message: `<suboperation>,<operation>,<max>`.
pub open spec fn prgv_outcome(data: Seq<char>) -> Outcome {
    let p = split_commas(data);
    if p.len() < 1 {
        data_error("PRGV", data, "missing 'suboperation' field")
    } else if int_field(p, 0) is None {
        data_error("PRGV", data, "failed to convert 'suboperation' to int")
    } else if p.len() < 2 {
        data_error("PRGV", data, "missing 'operation' field")
    } else if int_field(p, 1) is None {
        data_error("PRGV", data, "failed to convert 'operation' to int")
    } else if p.len() < 3 {
        data_error("PRGV", data, "missing 'max' field")
    } else if int_field(p, 2) is None {
        data_error("PRGV", data, "failed to convert 'max' to int")
    } else {
        Ok(
            MessageView::Prgv {
                suboperation: int_field(p, 0)->0,
                operation: int_field(p, 1)->0,
                max: int_field(p, 2)->0,
            },
        )
    }
}

/// The outcome of parsing the data of a SINFO message:
/// `<title_index>,<stream_index>,<id>,<code>,<value>`.
pub open spec fn sinfo_outcome(data: Seq<char>) -> Outcome {
    let p = split_commas(data);
    if p.len() < 1 {
        data_error("SINFO", data, "missing 'title_index' field")
    } else if int_field(p, 0) is None {
        data_error("SINFO", data, "failed to convert 'title_index' to int")
    } else if p.len() < 2 {
        data_error("SINFO", data, "missing 'stream_index' field")
    } else if int_field(p, 1) is None {
        data_error("SINFO", data, "failed to convert 'stream_index' to int")
    } else if p.len() < 3 {
        data_error("SINFO", data, "missing 'id' field")
    } else if attribute_field(p, 2) is None {
        data_error("SINFO", data, "failed to convert 'id' to int")
    } else if p.len() < 4 {
        data_error("SINFO", data, "missing 'code' field")
    } else if int_field(p, 3) is None {
        data_error("SINFO", data, "failed to convert 'code' to int")
    } else if p.len() < 5 {
        data_error("SINFO", data, "missing 'value' field")
    } else {
        Ok(
            MessageView::Sinfo {
                title_index: int_field(p, 0)->0,
                stream_index: int_field(p, 1)->0,
                id: attribute_field(p, 2)->0,
                code: int_field(p, 3)->0,
                value: trim_quotes(p[4]),
            },
        )
    }
}

/// The outcome of parsing the data of a TCOUNT message: `<count>`, the whole data.
pub open spec fn tcount_outcome(data: Seq<char>) -> Outcome {
    match parse_i32(data) {
        Some(count) => Ok(MessageView::Tcount { count }),
        None => data_error("TCOUNT", data, "failed to convert data to int"),
    }
}

/// The outcome of parsing the data of a TINFO message: `<title_index>,<id>,<code>,<value>`.
pub open spec fn tinfo_outcome(data: Seq<char>) -> Outcome {
    let p = split_commas(data);
    if p.len() < 1 {
        data_error("TINFO", data, "missing 'title_index' field")
    } else if int_field(p, 0) is None {
        data_error("TINFO", data, "failed to convert 'title_index' to int")
    } else if p.len() < 2 {
        data_error("TINFO", data, "missing 'id' field")
    } else if attribute_field(p, 1) is None {
        data_error("TINFO", data, "failed to convert 'id' to int")
    } else if p.len() < 3 {
        data_error("TINFO", data, "missing 'code' field")
    } else if int_field(p, 2) is None {
        data_error("TINFO", data, "failed to convert 'code' to int")
    } else if p.len() < 4 {
        data_error("TINFO", data, "missing 'value' field")
    } else {
        Ok(
            MessageView::Tinfo {
                title_index: int_field(p, 0)->0,
                id: attribute_field(p, 1)->0,
                code: int_field(p, 2)->0,
                value: trim_quotes(p[3]),
            },
        )
    }
}

/// The outcome of parsing a line of MakeMKV output.
pub open spec fn message_outcome(raw: Seq<char>) -> Outcome {
    match key_end(raw) {
        None => Err(MessageErrorView::InvalidMessageFormat { msg: raw }),
        Some(i) => {
            let key = raw.take(i);
            let data = raw.skip(i + 1);
            if key == "CINFO"@ {
                cinfo_outcome(data)
            } else if key == "DRV"@ {
                drv_outcome(data)
            } else if key == "MSG"@ {
                msg_outcome(data)
            } else if key == "PRGC"@ {
                progress_title_outcome("PRGC", data, true)
            } else if key == "PRGT"@ {
                progress_title_outcome("PRGT", data, false)
            } else if key == "PRGV"@ {
                prgv_outcome(data)
            } else if key == "SINFO"@ {
                sinfo_outcome(data)
            } else if key == "TCOUNT"@ {
                tcount_outcome(data)
            } else if key == "TINFO"@ {
                tinfo_outcome(data)
            } else {
                Err(MessageErrorView::UnknownMessageType { key, data })
            }
        },
    }
}

/// The fields of a text, given by their bounds in its characters.
pub open spec fn fields_match(cs: Seq<char>, bounds: Seq<(usize, usize)>, parts: Seq<Seq<char>>) -> bool {
    &&& bounds.len() == parts.len()
    &&& forall|k: int|
        0 <= k < bounds.len() ==> {
            &&& (#[trigger] bounds[k]).0 <= bounds[k].1 <= cs.len()
            &&& parts[k] == cs.subrange(bounds[k].0 as int, bounds[k].1 as int)
        }
}

/// Cuts the characters at every comma, giving the bounds of each field.
fn split_fields(cs: &Vec<char>) -> (bounds: Vec<(usize, usize)>)
    ensures
        fields_match(cs@, bounds@, split_commas(cs@)),
{
    let mut bounds: Vec<(usize, usize)> = Vec::new();
    let mut start: usize = 0;
    let mut i: usize = 0;
    assert(cs@.take(0) =~= Seq::<char>::empty());
    assert(cs@.subrange(0, 0) =~= Seq::<char>::empty());
    while i < cs.len()
        invariant
            start <= i <= cs.len(),
            fields_match(
                cs@,
                bounds@.push((start, i)),
                split_commas(cs@.take(i as int)),
            ),
        decreases cs.len() - i,
    {
        let ghost before = split_commas(cs@.take(i as int));
        assert(cs@.take(i + 1).drop_last() =~= cs@.take(i as int));
        assert(cs@.take(i + 1).last() == cs@[i as int]);
        if cs[i] == ',' {
            bounds.push((start, i));
            start = i + 1;
            i = i + 1;
            assert(cs@.subrange(start as int, i as int) =~= Seq::<char>::empty());
            assert(split_commas(cs@.take(i as int)) == before.push(Seq::empty()));
            assert(fields_match(cs@, bounds@.push((start, i)), split_commas(cs@.take(i as int))));
        } else {
            let ghost old_bounds = bounds@;
            let ghost ob = old_bounds.push((start, i));
            assert(ob[old_bounds.len() as int] == (start, i));
            assert(before.last() == cs@.subrange(start as int, i as int));
            i = i + 1;
            assert(cs@.subrange(start as int, i as int) =~= cs@.subrange(start as int, i - 1).push(
                cs@[i - 1],
            ));
            assert(split_commas(cs@.take(i as int)) == before.update(
                before.len() - 1,
                before.last().push(cs@[i - 1]),
            ));
            assert(split_commas(cs@.take(i as int)) =~= before.update(
                before.len() - 1,
                cs@.subrange(start as int, i as int),
            ));
            assert(old_bounds.push((start, i)) =~= old_bounds.push((start, (i - 1) as usize)).update(
                old_bounds.len() as int,
                (start, i),
            ));
        }
    }
    assert(cs@.take(cs.len() as int) =~= cs@);
    bounds.push((start, i));
    bounds
}


/// Returns whether `cs[start..end]` spells `lit`.
fn range_is(cs: &Vec<char>, start: usize, end: usize, lit: &str) -> (b: bool)
    requires
        start <= end <= cs.len(),
    ensures
        b == (cs@.subrange(start as int, end as int) == lit@),
{
    let l = chars_of(lit);
    if end - start != l.len() {
        return false;
    }
    let mut k: usize = 0;
    while k < l.len()
        invariant
            start <= end <= cs.len(),
            end - start == l.len(),
            l@ == lit@,
            k <= l.len(),
            forall|j: int| 0 <= j < k ==> cs@[start + j] == l@[j],
        decreases l.len() - k,
    {
        if cs[start + k] != l[k] {
            assert(cs@.subrange(start as int, end as int)[k as int] != lit@[k as int]);
            return false;
        }
        k = k + 1;
    }
    assert(cs@.subrange(start as int, end as int) =~= lit@);
    true
}

/// The error result for a missing or malformed field.
fn data_err(key: &str, data: &str, error: &str) -> (r: Result<Message, MessageError>)
    ensures
        outcome_of(r) == data_error(key, data@, error),
{
    Err(
        MessageError::InvalidMessageData {
            key: key.to_owned(),
            data: data.to_owned(),
            error: error.to_owned(),
        },
    )
}

/// The integer in field `k` of the data, if it holds one.
fn int_at(cs: &Vec<char>, bounds: &Vec<(usize, usize)>, k: usize) -> (r: Option<i32>)
    requires
        fields_match(cs@, bounds@, split_commas(cs@)),
        k < bounds.len(),
    ensures
        r == int_field(split_commas(cs@), k as int),
{
    let b = bounds[k];
    assert(b == bounds@[k as int]);
    parse_i32_range(cs, b.0, b.1)
}

/// The attribute whose number is in field `k` of the data, if there is one.
fn attribute_at(cs: &Vec<char>, bounds: &Vec<(usize, usize)>, k: usize) -> (r: Option<Attribute>)
    requires
        fields_match(cs@, bounds@, split_commas(cs@)),
        k < bounds.len(),
    ensures
        r == attribute_field(split_commas(cs@), k as int),
{
    match int_at(cs, bounds, k) {
        Some(n) => get_attribute(n),
        None => None,
    }
}

/// Field `k` of the data with its surrounding double quotes removed.
fn text_at(data: &str, cs: &Vec<char>, bounds: &Vec<(usize, usize)>, k: usize) -> (t: String)
    requires
        cs@ == data@,
        fields_match(cs@, bounds@, split_commas(cs@)),
        k < bounds.len(),
    ensures
        t@ == trim_quotes(split_commas(cs@)[k as int]),
{
    let b = bounds[k];
    assert(b == bounds@[k as int]);
    let (from, to) = trim_quotes_range(cs, b.0, b.1);
    data.substring_char(from, to).to_owned()
}

/// The fields of the data from field `k` on, as they are.
fn fields_from(data: &str, cs: &Vec<char>, bounds: &Vec<(usize, usize)>, k: usize) -> (v: Vec<String>)
    requires
        cs@ == data@,
        fields_match(cs@, bounds@, split_commas(cs@)),
        k <= bounds.len(),
    ensures
        v@.map_values(|a: String| a@) == split_commas(cs@).skip(k as int),
{
    let ghost p = split_commas(cs@);
    let mut v: Vec<String> = Vec::new();
    let mut j = k;
    while j < bounds.len()
        invariant
            cs@ == data@,
            fields_match(cs@, bounds@, p),
            p == split_commas(cs@),
            k <= j <= bounds.len(),
            v@.map_values(|a: String| a@) == p.subrange(k as int, j as int),
        decreases bounds.len() - j,
    {
        let b = bounds[j];
        assert(b == bounds@[j as int]);
        let f = data.substring_char(b.0, b.1).to_owned();
        let ghost before = v@;
        v.push(f);
        assert(v@.map_values(|a: String| a@) =~= before.map_values(|a: String| a@).push(f@));
        assert(p.subrange(k as int, j + 1) =~= p.subrange(k as int, j as int).push(p[j as int]));
        j = j + 1;
    }
    assert(p.subrange(k as int, bounds.len() as int) =~= p.skip(k as int));
    v
}

/// Parses the data of a CINFO message.
fn parse_cinfo(data: &str, cs: &Vec<char>, bounds: &Vec<(usize, usize)>) -> (r: Result<Message, MessageError>)
    requires
        cs@ == data@,
        fields_match(cs@, bounds@, split_commas(cs@)),
    ensures
        outcome_of(r) == cinfo_outcome(data@),
{
    let key = "CINFO";
    if bounds.len() < 1 {
        return data_err(key, data, "missing 'id' field");
    }
    let id = match attribute_at(cs, bounds, 0) {
        Some(a) => a,
        None => return data_err(key, data, "failed to convert 'id' to int"),
    };
    if bounds.len() < 2 {
        return data_err(key, data, "missing 'code' field");
    }
    let code = match int_at(cs, bounds, 1) {
        Some(n) => n,
        None => return data_err(key, data, "failed to convert 'code' to int"),
    };
    if bounds.len() < 3 {
        return data_err(key, data, "missing 'value' field");
    }
    let value = text_at(data, cs, bounds, 2);
    Ok(Message::Cinfo { id, code, value })
}

/// Parses the data of a DRV message.
fn parse_drv(data: &str, cs: &Vec<char>, bounds: &Vec<(usize, usize)>) -> (r: Result<Message, MessageError>)
    requires
        cs@ == data@,
        fields_match(cs@, bounds@, split_commas(cs@)),
    ensures
        outcome_of(r) == drv_outcome(data@),
{
    let key = "DRV";
    if bounds.len() < 1 {
        return data_err(key, data, "missing 'index' field");
    }
    let index = match int_at(cs, bounds, 0) {
        Some(n) => n,
        None => return data_err(key, data, "failed to convert 'index' to int"),
    };
    if bounds.len() < 2 {
        return data_err(key, data, "missing 'state' field");
    }
    let state = match int_at(cs, bounds, 1) {
        Some(n) => n,
        None => return data_err(key, data, "failed to convert 'state' to int"),
    };
    if bounds.len() < 3 {
        return data_err(key, data, "missing 'unknown' field");
    }
    let unknown = match int_at(cs, bounds, 2) {
        Some(n) => n,
        None => return data_err(key, data, "failed to convert 'unknown' to int"),
    };
    if bounds.len() < 4 {
        return data_err(key, data, "missing 'media_flags' field");
    }
    let media_flags = match int_at(cs, bounds, 3) {
        Some(n) => n,
        None => return data_err(key, data, "failed to convert 'media_flags' to int"),
    };
    if bounds.len() < 5 {
        return data_err(key, data, "missing 'drive_name' field");
    }
    let drive_name = text_at(data, cs, bounds, 4);
    if bounds.len() < 6 {
        return data_err(key, data, "missing 'drive_name' field");
    }
    let disc_name = text_at(data, cs, bounds, 5);
    if bounds.len() < 7 {
        return data_err(key, data, "missing 'disc_name' field");
    }
    let device_path = text_at(data, cs, bounds, 6);
    Ok(Message::Drv { index, state, unknown, media_flags, drive_name, disc_name, device_path })
}

/// Parses the data of a MSG message.
fn parse_msg(data: &str, cs: &Vec<char>, bounds: &Vec<(usize, usize)>) -> (r: Result<Message, MessageError>)
    requires
        cs@ == data@,
        fields_match(cs@, bounds@, split_commas(cs@)),
    ensures
        outcome_of(r) == msg_outcome(data@),
{
    let key = "MSG";
    if bounds.len() < 1 {
        return data_err(key, data, "missing 'code' field");
    }
    let code = match int_at(cs, bounds, 0) {
        Some(n) => n,
        None => return data_err(key, data, "failed to convert 'code' to int"),
    };
    if bounds.len() < 2 {
        return data_err(key, data, "missing 'flags' field");
    }
    let flags = match int_at(cs, bounds, 1) {
        Some(n) => n,
        None => return data_err(key, data, "failed to convert 'flags' to int"),
    };
    if bounds.len() < 3 {
        return data_err(key, data, "missing 'count' field");
    }
    let count = match int_at(cs, bounds, 2) {
        Some(n) => n,
        None => return data_err(key, data, "failed to convert 'count' to int"),
    };
    if bounds.len() < 4 {
        return data_err(key, data, "missing 'message' field");
    }
    let message = text_at(data, cs, bounds, 3);
    if bounds.len() < 5 {
        return data_err(key, data, "missing 'format' field");
    }
    let format = text_at(data, cs, bounds, 4);
    let args = fields_from(data, cs, bounds, 5);
    Ok(Message::Msg { code, flags, count, message, format, args })
}

/// Parses the data of a PRGC message (`current`) or of a PRGT message.
fn parse_progress_title(
    key: &str,
    data: &str,
    cs: &Vec<char>,
    bounds: &Vec<(usize, usize)>,
    current: bool,
) -> (r: Result<Message, MessageError>)
    requires
        cs@ == data@,
        fields_match(cs@, bounds@, split_commas(cs@)),
    ensures
        outcome_of(r) == progress_title_outcome(key, data@, current),
{
    if bounds.len() < 1 {
        return data_err(key, data, "missing 'code' field");
    }
    let code = match int_at(cs, bounds, 0) {
        Some(n) => n,
        None => return data_err(key, data, "failed to convert 'code' to int"),
    };
    if bounds.len() < 2 {
        return data_err(key, data, "missing 'id' field");
    }
    let id = match int_at(cs, bounds, 1) {
        Some(n) => n,
        None => return data_err(key, data, "failed to convert 'id' to int"),
    };
    if bounds.len() < 3 {
        return data_err(key, data, "missing 'name' field");
    }
    let name = text_at(data, cs, bounds, 2);
    if current {
        Ok(Message::Prgc { code, id, name })
    } else {
        Ok(Message::Prgt { code, id, name })
    }
}

/// Parses the data of a PRGV message.
fn parse_prgv(data: &str, cs: &Vec<char>, bounds: &Vec<(usize, usize)>) -> (r: Result<Message, MessageError>)
    requires
        cs@ == data@,
        fields_match(cs@, bounds@, split_commas(cs@)),
    ensures
        outcome_of(r) == prgv_outcome(data@),
{
    let key = "PRGV";
    if bounds.len() < 1 {
        return data_err(key, data, "missing 'suboperation' field");
    }
    let suboperation = match int_at(cs, bounds, 0) {
        Some(n) => n,
        None => return data_err(key, data, "failed to convert 'suboperation' to int"),
    };
    if bounds.len() < 2 {
        return data_err(key, data, "missing 'operation' field");
    }
    let operation = match int_at(cs, bounds, 1) {
        Some(n) => n,
        None => return data_err(key, data, "failed to convert 'operation' to int"),
    };
    if bounds.len() < 3 {
        return data_err(key, data, "missing 'max' field");
    }
    let max = match int_at(cs, bounds, 2) {
        Some(n) => n,
        None => return data_err(key, data, "failed to convert 'max' to int"),
    };
    Ok(Message::Prgv { suboperation, operation, max })
}

/// Parses the data of a SINFO message.
fn parse_sinfo(data: &str, cs: &Vec<char>, bounds: &Vec<(usize, usize)>) -> (r: Result<Message, MessageError>)
    requires
        cs@ == data@,
        fields_match(cs@, bounds@, split_commas(cs@)),
    ensures
        outcome_of(r) == sinfo_outcome(data@),
{
    let key = "SINFO";
    if bounds.len() < 1 {
        return data_err(key, data, "missing 'title_index' field");
    }
    let title_index = match int_at(cs, bounds, 0) {
        Some(n) => n,
        None => return data_err(key, data, "failed to convert 'title_index' to int"),
    };
    if bounds.len() < 2 {
        return data_err(key, data, "missing 'stream_index' field");
    }
    let stream_index = match int_at(cs, bounds, 1) {
        Some(n) => n,
        None => return data_err(key, data, "failed to convert 'stream_index' to int"),
    };
    if bounds.len() < 3 {
        return data_err(key, data, "missing 'id' field");
    }
    let id = match attribute_at(cs, bounds, 2) {
        Some(a) => a,
        None => return data_err(key, data, "failed to convert 'id' to int"),
    };
    if bounds.len() < 4 {
        return data_err(key, data, "missing 'code' field");
    }
    let code = match int_at(cs, bounds, 3) {
        Some(n) => n,
        None => return data_err(key, data, "failed to convert 'code' to int"),
    };
    if bounds.len() < 5 {
        return data_err(key, data, "missing 'value' field");
    }
    let value = text_at(data, cs, bounds, 4);
    Ok(Message::Sinfo { title_index, stream_index, id, code, value })
}

/// Parses the data of a TCOUNT message.
fn parse_tcount(data: &str, cs: &Vec<char>) -> (r: Result<Message, MessageError>)
    requires
        cs@ == data@,
    ensures
        outcome_of(r) == tcount_outcome(data@),
{
    assert(cs@.subrange(0, cs.len() as int) =~= cs@);
    match parse_i32_range(cs, 0, cs.len()) {
        Some(count) => Ok(Message::Tcount { count }),
        None => data_err("TCOUNT", data, "failed to convert data to int"),
    }
}

/// Parses the data of a TINFO message.
fn parse_tinfo(data: &str, cs: &Vec<char>, bounds: &Vec<(usize, usize)>) -> (r: Result<Message, MessageError>)
    requires
        cs@ == data@,
        fields_match(cs@, bounds@, split_commas(cs@)),
    ensures
        outcome_of(r) == tinfo_outcome(data@),
{
    let key = "TINFO";
    if bounds.len() < 1 {
        return data_err(key, data, "missing 'title_index' field");
    }
    let title_index = match int_at(cs, bounds, 0) {
        Some(n) => n,
        None => return data_err(key, data, "failed to convert 'title_index' to int"),
    };
    if bounds.len() < 2 {
        return data_err(key, data, "missing 'id' field");
    }
    let id = match attribute_at(cs, bounds, 1) {
        Some(a) => a,
        None => return data_err(key, data, "failed to convert 'id' to int"),
    };
    if bounds.len() < 3 {
        return data_err(key, data, "missing 'code' field");
    }
    let code = match int_at(cs, bounds, 2) {
        Some(n) => n,
        None => return data_err(key, data, "failed to convert 'code' to int"),
    };
    if bounds.len() < 4 {
        return data_err(key, data, "missing 'value' field");
    }
    let value = text_at(data, cs, bounds, 3);
    Ok(Message::Tinfo { title_index, id, code, value })
}

/// Parses a line of MakeMKV output.
///
/// The line is `KEY:DATA`: the key, up to the first `:`, names the message type, and the data is
/// a comma separated list of fields whose layout depends on the type. A line without `:` is an
/// [`MessageError::InvalidMessageFormat`], an unknown key an [`MessageError::UnknownMessageType`],
/// and a missing or malformed field an [`MessageError::InvalidMessageData`] that names the first
/// such field.
pub fn parse_message(raw_message: &str) -> (r: Result<Message, MessageError>)
    ensures
        outcome_of(r) == message_outcome(raw_message@),
{
    let cs = chars_of(raw_message);
    let mut i: usize = 0;
    while i < cs.len() && cs[i] != ':'
        invariant
            cs@ == raw_message@,
            i <= cs.len(),
            forall|j: int| 0 <= j < i ==> cs@[j] != ':',
        decreases cs.len() - i,
    {
        i = i + 1;
    }
    if i == cs.len() {
        assert(!exists|k: int| is_key_end(raw_message@, k));
        return Err(MessageError::InvalidMessageFormat { msg: raw_message.to_owned() });
    }
    assert(is_key_end(raw_message@, i as int));
    assert(key_end(raw_message@) == Some(i as int));
    let n = cs.len();
    let data = raw_message.substring_char(i + 1, n);
    assert(data@ == raw_message@.skip(i + 1));
    let dcs = chars_of(data);
    let bounds = split_fields(&dcs);
    if range_is(&cs, 0, i, "CINFO") {
        parse_cinfo(data, &dcs, &bounds)
    } else if range_is(&cs, 0, i, "DRV") {
        parse_drv(data, &dcs, &bounds)
    } else if range_is(&cs, 0, i, "MSG") {
        parse_msg(data, &dcs, &bounds)
    } else if range_is(&cs, 0, i, "PRGC") {
        parse_progress_title("PRGC", data, &dcs, &bounds, true)
    } else if range_is(&cs, 0, i, "PRGT") {
        parse_progress_title("PRGT", data, &dcs, &bounds, false)
    } else if range_is(&cs, 0, i, "PRGV") {
        parse_prgv(data, &dcs, &bounds)
    } else if range_is(&cs, 0, i, "SINFO") {
        parse_sinfo(data, &dcs, &bounds)
    } else if range_is(&cs, 0, i, "TCOUNT") {
        parse_tcount(data, &dcs)
    } else if range_is(&cs, 0, i, "TINFO") {
        parse_tinfo(data, &dcs, &bounds)
    } else {
        let key = raw_message.substring_char(0, i);
        assert(key@ == raw_message@.take(i as int));
        Err(MessageError::UnknownMessageType { key: key.to_owned(), data: data.to_owned() })
    }
}

/// A line `KEY:DATA` whose key holds no colon is cut at the colon after the key.
proof fn lemma_key_split(key: Seq<char>, data: Seq<char>)
    requires
        forall|j: int| 0 <= j < key.len() ==> key[j] != ':',
    ensures
        key_end(key + seq![':'] + data) == Some(key.len() as int),
        (key + seq![':'] + data).take(key.len() as int) == key,
        (key + seq![':'] + data).skip(key.len() + 1int) == data,
{
    let line = key + seq![':'] + data;
    let n = key.len() as int;
    assert(line[n] == ':');
    assert forall|j: int| 0 <= j < n implies line[j] != ':' by {
        assert(line[j] == key[j]);
    }
    assert(is_key_end(line, n));
    assert forall|i: int| is_key_end(line, i) implies i == n by {
        if i < n {
            assert(line[i] == key[i]);
        }
    }
    assert(line.take(n) =~= key);
    assert(line.skip(n + 1) =~= data);
}

/// A line with the key `MSG` is parsed field by field, the data cut at its commas as
/// `str::split(',')` cuts it: it is a message exactly when it has at least five fields of which
/// the first three are integers, and then the code, the flags and the count are the integers of
/// the first, second and third fields, the message and its format are the fourth and fifth
/// fields without their quotes, and the remaining fields are the format's arguments.
pub proof fn lemma_msg_fields(data: Seq<char>)
    ensures
        ({
            let p = split_commas(data);
            let r = message_outcome("MSG:"@ + data);
            &&& (r is Ok <==> p.len() >= 5 && parse_i32(p[0]) is Some && parse_i32(p[1]) is Some
                && parse_i32(p[2]) is Some)
            &&& (r matches Ok(m) ==> m == MessageView::Msg {
                code: parse_i32(p[0])->0,
                flags: parse_i32(p[1])->0,
                count: parse_i32(p[2])->0,
                message: trim_quotes(p[3]),
                format: trim_quotes(p[4]),
                args: p.skip(5),
            })
        }),
{
    reveal_strlit("MSG:");
    reveal_strlit("MSG");
    reveal_strlit("CINFO");
    reveal_strlit("DRV");
    assert("MSG:"@ =~= "MSG"@ + seq![':']);
    lemma_key_split("MSG"@, data);
    lemma_split_join(data);
    assert("MSG"@[0] != "DRV"@[0]);
}

/// A line with the key `CINFO` is an attribute of the disc when its data has at least three
/// fields, the first an attribute's number and the second an integer: the attribute, the code,
/// and the third field without its quotes as the value.
pub proof fn lemma_cinfo_fields(data: Seq<char>)
    ensures
        ({
            let p = split_commas(data);
            let r = message_outcome("CINFO:"@ + data);
            &&& (r is Ok <==> p.len() >= 3 && parse_i32(p[0]) is Some && attribute_of(
                parse_i32(p[0])->0 as int,
            ) is Some && parse_i32(p[1]) is Some)
            &&& (r matches Ok(m) ==> m == MessageView::Cinfo {
                id: attribute_of(parse_i32(p[0])->0 as int)->0,
                code: parse_i32(p[1])->0,
                value: trim_quotes(p[2]),
            })
        }),
{
    reveal_strlit("CINFO:");
    reveal_strlit("CINFO");
    assert("CINFO:"@ =~= "CINFO"@ + seq![':']);
    lemma_key_split("CINFO"@, data);
    lemma_split_join(data);
}

/// A line with the key `TINFO` is an attribute of a title when its data has at least four
/// fields: the title's index, an attribute's number and a code, all integers, and the value.
pub proof fn lemma_tinfo_fields(data: Seq<char>)
    ensures
        ({
            let p = split_commas(data);
            let r = message_outcome("TINFO:"@ + data);
            &&& (r is Ok <==> p.len() >= 4 && parse_i32(p[0]) is Some && parse_i32(p[1]) is Some
                && attribute_of(parse_i32(p[1])->0 as int) is Some && parse_i32(p[2]) is Some)
            &&& (r matches Ok(m) ==> m == MessageView::Tinfo {
                title_index: parse_i32(p[0])->0,
                id: attribute_of(parse_i32(p[1])->0 as int)->0,
                code: parse_i32(p[2])->0,
                value: trim_quotes(p[3]),
            })
        }),
{
    reveal_strlit("TINFO:");
    reveal_strlit("TINFO");
    reveal_strlit("CINFO");
    reveal_strlit("DRV");
    reveal_strlit("MSG");
    reveal_strlit("PRGC");
    reveal_strlit("PRGT");
    reveal_strlit("PRGV");
    reveal_strlit("SINFO");
    reveal_strlit("TCOUNT");
    assert("TINFO"@[0] != "CINFO"@[0]);
    assert("TINFO"@[0] != "SINFO"@[0]);
    assert("TINFO:"@ =~= "TINFO"@ + seq![':']);
    lemma_key_split("TINFO"@, data);
    lemma_split_join(data);
}

/// A line with the key `SINFO` is an attribute of a stream of a title when its data has at
/// least five fields: the title's index, the stream's index, an attribute's number and a
/// code, all integers, and the value.
pub proof fn lemma_sinfo_fields(data: Seq<char>)
    ensures
        ({
            let p = split_commas(data);
            let r = message_outcome("SINFO:"@ + data);
            &&& (r is Ok <==> p.len() >= 5 && parse_i32(p[0]) is Some && parse_i32(p[1]) is Some
                && parse_i32(p[2]) is Some && attribute_of(parse_i32(p[2])->0 as int) is Some
                && parse_i32(p[3]) is Some)
            &&& (r matches Ok(m) ==> m == MessageView::Sinfo {
                title_index: parse_i32(p[0])->0,
                stream_index: parse_i32(p[1])->0,
                id: attribute_of(parse_i32(p[2])->0 as int)->0,
                code: parse_i32(p[3])->0,
                value: trim_quotes(p[4]),
            })
        }),
{
    reveal_strlit("SINFO:");
    reveal_strlit("SINFO");
    reveal_strlit("CINFO");
    reveal_strlit("DRV");
    reveal_strlit("MSG");
    reveal_strlit("PRGC");
    reveal_strlit("PRGT");
    reveal_strlit("PRGV");
    assert("SINFO"@[0] != "CINFO"@[0]);
    assert("SINFO:"@ =~= "SINFO"@ + seq![':']);
    lemma_key_split("SINFO"@, data);
    lemma_split_join(data);
}

/// A line with the key `PRGV` is a progress message when its data has at least three integer
/// fields: the suboperation's counter, the operation's counter, and their maximum, in that
/// order.
pub proof fn lemma_prgv_fields(data: Seq<char>)
    ensures
        ({
            let p = split_commas(data);
            let r = message_outcome("PRGV:"@ + data);
            &&& (r is Ok <==> p.len() >= 3 && parse_i32(p[0]) is Some && parse_i32(p[1]) is Some
                && parse_i32(p[2]) is Some)
            &&& (r matches Ok(m) ==> m == MessageView::Prgv {
                suboperation: parse_i32(p[0])->0,
                operation: parse_i32(p[1])->0,
                max: parse_i32(p[2])->0,
            })
        }),
{
    reveal_strlit("PRGV:");
    reveal_strlit("PRGV");
    reveal_strlit("CINFO");
    reveal_strlit("DRV");
    reveal_strlit("MSG");
    reveal_strlit("PRGC");
    reveal_strlit("PRGT");
    assert("PRGV"@[3] != "PRGC"@[3]);
    assert("PRGV"@[3] != "PRGT"@[3]);
    assert("PRGV:"@ =~= "PRGV"@ + seq![':']);
    lemma_key_split("PRGV"@, data);
    lemma_split_join(data);
}

/// Lines with the keys `PRGT` and `PRGC` name the current operation and suboperation when
/// their data has at least three fields, the first two integers: the code, the id, and the
/// third field without its quotes as the name.
pub proof fn lemma_progress_title_fields(data: Seq<char>)
    ensures
        ({
            let p = split_commas(data);
            let ok = p.len() >= 3 && parse_i32(p[0]) is Some && parse_i32(p[1]) is Some;
            let t = message_outcome("PRGT:"@ + data);
            let c = message_outcome("PRGC:"@ + data);
            &&& (t is Ok <==> ok)
            &&& (c is Ok <==> ok)
            &&& (t matches Ok(m) ==> m == MessageView::Prgt {
                code: parse_i32(p[0])->0,
                id: parse_i32(p[1])->0,
                name: trim_quotes(p[2]),
            })
            &&& (c matches Ok(m) ==> m == MessageView::Prgc {
                code: parse_i32(p[0])->0,
                id: parse_i32(p[1])->0,
                name: trim_quotes(p[2]),
            })
        }),
{
    reveal_strlit("PRGT:");
    reveal_strlit("PRGC:");
    reveal_strlit("PRGT");
    reveal_strlit("PRGC");
    reveal_strlit("CINFO");
    reveal_strlit("DRV");
    reveal_strlit("MSG");
    assert("PRGT"@[3] != "PRGC"@[3]);
    assert("PRGT:"@ =~= "PRGT"@ + seq![':']);
    assert("PRGC:"@ =~= "PRGC"@ + seq![':']);
    lemma_key_split("PRGT"@, data);
    lemma_key_split("PRGC"@, data);
    lemma_split_join(data);
}

/// A line with the key `DRV` describes a drive when its data has at least seven fields, the
/// first four integers: the index, the state, an unknown number and the media flags, then the
/// drive's name, the disc's name and the device path without their quotes.
pub proof fn lemma_drv_fields(data: Seq<char>)
    ensures
        ({
            let p = split_commas(data);
            let r = message_outcome("DRV:"@ + data);
            &&& (r is Ok <==> p.len() >= 7 && parse_i32(p[0]) is Some && parse_i32(p[1]) is Some
                && parse_i32(p[2]) is Some && parse_i32(p[3]) is Some)
            &&& (r matches Ok(m) ==> m == MessageView::Drv {
                index: parse_i32(p[0])->0,
                state: parse_i32(p[1])->0,
                unknown: parse_i32(p[2])->0,
                media_flags: parse_i32(p[3])->0,
                drive_name: trim_quotes(p[4]),
                disc_name: trim_quotes(p[5]),
                device_path: trim_quotes(p[6]),
            })
        }),
{
    reveal_strlit("DRV:");
    reveal_strlit("DRV");
    reveal_strlit("CINFO");
    assert("DRV:"@ =~= "DRV"@ + seq![':']);
    lemma_key_split("DRV"@, data);
    lemma_split_join(data);
}

/// A line with the key `TCOUNT` gives the number of titles when its whole data is an integer.
pub proof fn lemma_tcount_fields(data: Seq<char>)
    ensures
        ({
            let r = message_outcome("TCOUNT:"@ + data);
            &&& (r is Ok <==> parse_i32(data) is Some)
            &&& (r matches Ok(m) ==> m == MessageView::Tcount { count: parse_i32(data)->0 })
        }),
{
    reveal_strlit("TCOUNT:");
    reveal_strlit("TCOUNT");
    reveal_strlit("CINFO");
    reveal_strlit("DRV");
    reveal_strlit("MSG");
    reveal_strlit("PRGC");
    reveal_strlit("PRGT");
    reveal_strlit("PRGV");
    reveal_strlit("SINFO");
    assert("TCOUNT:"@ =~= "TCOUNT"@ + seq![':']);
    lemma_key_split("TCOUNT"@, data);
}

/// What each message leads to: attribute messages record their attribute for the disc, the
/// title or the stream they name, with their value, and leave the progress alone; an
/// information message reports its text (not its format) and leaves the progress alone; the
/// operation and suboperation titles replace the matching name only; the counters set the
/// operation's percentage from the operation counter and the suboperation's from the
/// suboperation counter, keeping the names; each progress change is reported as the new
/// progress; and the other messages lead to nothing.
pub proof fn lemma_message_effects(p: ProgressView, m: MessageView)
    ensures
        ({
            let (q, e) = message_effect(p, m);
            match m {
                MessageView::Cinfo { id, value, .. } => q == p && e == LineEffectView::Record(
                    DiscAttributeView::Disc { id, value },
                ),
                MessageView::Tinfo { title_index, id, value, .. } => q == p && e
                    == LineEffectView::Record(DiscAttributeView::Title { title_index, id, value }),
                MessageView::Sinfo { title_index, stream_index, id, value, .. } => q == p && e
                    == LineEffectView::Record(
                    DiscAttributeView::Stream { title_index, stream_index, id, value },
                ),
                MessageView::Msg { message, .. } => q == p && e == LineEffectView::Report(
                    CommandOutputView::Message(message),
                ),
                MessageView::Prgt { name, .. } => {
                    &&& q.op == name
                    &&& q.op_prog == p.op_prog && q.subop == p.subop && q.subop_prog == p.subop_prog
                    &&& e == LineEffectView::Report(CommandOutputView::Progress(q))
                },
                MessageView::Prgc { name, .. } => {
                    &&& q.subop == name
                    &&& q.op == p.op && q.op_prog == p.op_prog && q.subop_prog == p.subop_prog
                    &&& e == LineEffectView::Report(CommandOutputView::Progress(q))
                },
                MessageView::Prgv { suboperation, operation, max } => {
                    &&& q.op == p.op && q.subop == p.subop
                    &&& q.op_prog == progress_percent(operation, max)
                    &&& q.subop_prog == progress_percent(suboperation, max)
                    &&& e == LineEffectView::Report(CommandOutputView::Progress(q))
                },
                _ => q == p && e == LineEffectView::Nothing,
            }
        }),
{
}

/// A counter within its maximum is the share of the maximum, in whole percent rounded down, at
/// most a hundred.
pub proof fn lemma_progress_percent(value: i32, max: i32)
    requires
        0 <= value <= max,
        0 < max,
        value * 100 <= i32::MAX,
    ensures
        progress_percent(value, max) as int == value * 100 / (max as int),
        progress_percent(value, max) <= 100,
        value == max ==> progress_percent(value, max) == 100,
        value == 0 ==> progress_percent(value, max) == 0,
{
    let a = value * 100;
    assert(a / (max as int) <= 100) by (nonlinear_arith)
        requires
            0 <= value <= max,
            0 < max,
            a == value * 100,
    ;
    assert(a / (max as int) >= 0) by (nonlinear_arith)
        requires
            0 <= a,
            0 < max,
    ;
    if value == max {
        assert(a / (max as int) == 100) by (nonlinear_arith)
            requires
                a == max * 100,
                0 < max,
        ;
    }
}

/// A line of MakeMKV output with the key `MSG` reports its fourth data field, without its
/// quotes: the message, not its format.
pub proof fn lemma_msg_line_reports_message(p: ProgressView, data: Seq<char>)
    requires
        message_outcome("MSG:"@ + data) is Ok,
    ensures
        message_effect(p, message_outcome("MSG:"@ + data)->Ok_0).1 == LineEffectView::Report(
            CommandOutputView::Message(trim_quotes(split_commas(data)[3])),
        ),
        message_effect(p, message_outcome("MSG:"@ + data)->Ok_0).0 == p,
{
    lemma_msg_fields(data);
}

/// A line of MakeMKV output with the key `SINFO` records its value for the stream it names:
/// the title's index from the first data field and the stream's index from the second.
pub proof fn lemma_sinfo_line_records_stream(p: ProgressView, data: Seq<char>)
    requires
        message_outcome("SINFO:"@ + data) is Ok,
    ensures
        ({
            let f = split_commas(data);
            message_effect(p, message_outcome("SINFO:"@ + data)->Ok_0).1 == LineEffectView::Record(
                DiscAttributeView::Stream {
                    title_index: parse_i32(f[0])->0,
                    stream_index: parse_i32(f[1])->0,
                    id: attribute_of(parse_i32(f[2])->0 as int)->0,
                    value: trim_quotes(f[4]),
                },
            )
        }),
{
    lemma_sinfo_fields(data);
}

} // verus!

verus! {

/// Division rounding toward zero, as Rust's `/` on integers divides.
pub open spec fn div_toward_zero(a: int, b: int) -> int {
    if (a >= 0) == (b > 0) {
        if a >= 0 { a / b } else { (-a) / (-b) }
    } else {
        if a >= 0 { -(a / (-b)) } else { -((-a) / b) }
    }
}

/// The percentage MakeMKV's progress counters give: `value * 100 / max`, cut to a byte as the
/// `as u8` cast cuts it.
pub open spec fn progress_percent(value: i32, max: i32) -> u8 {
    (div_toward_zero(value * 100, max as int)) as u8
}

/// The progress counters of a PRGV message can be turned into percentages without overflow.
pub open spec fn progress_in_range(value: i32, max: i32) -> bool {
    &&& max != 0
    &&& i32::MIN <= value * 100 <= i32::MAX
}

/// Computes `value * 100 / max` in `i32` arithmetic and casts it to a byte.
fn percent(value: i32, max: i32) -> (p: u8)
    requires
        progress_in_range(value, max),
    ensures
        p == progress_percent(value, max),
{
    let scaled: i64 = value as i64 * 100;
    let m: i64 = max as i64;
    let q: i64 = if (scaled >= 0) == (m > 0) {
        if scaled >= 0 { scaled / m } else { (-scaled) / (-m) }
    } else {
        if scaled >= 0 { -(scaled / (-m)) } else { -((-scaled) / m) }
    };
    q as u8
}

} // verus!

verus! {

/// The progress of a running MakeMKV command.
#[derive(Debug)]
pub struct Progress {
    /// Title of the current operation.
    pub op: String,
    /// Percent complete of the current operation.
    pub op_prog: u8,
    /// Title of the current suboperation.
    pub subop: String,
    /// Percent complete of the current suboperation.
    pub subop_prog: u8,
}

/// A progress report with its titles as character sequences.
pub struct ProgressView {
    pub op: Seq<char>,
    pub op_prog: u8,
    pub subop: Seq<char>,
    pub subop_prog: u8,
}

impl View for Progress {
    type V = ProgressView;

    open spec fn view(&self) -> ProgressView {
        ProgressView { op: self.op@, op_prog: self.op_prog, subop: self.subop@, subop_prog: self.subop_prog }
    }
}

impl Progress {
    /// No operation yet: empty titles and no progress.
    pub fn new() -> (p: Progress)
        ensures
            p@ == (ProgressView { op: Seq::empty(), op_prog: 0, subop: Seq::empty(), subop_prog: 0 }),
    {
        Progress { op: String::new(), op_prog: 0, subop: String::new(), subop_prog: 0 }
    }

    /// A copy of the progress report.
    pub fn snapshot(&self) -> (p: Progress)
        ensures
            p@ == self@,
    {
        Progress {
            op: self.op.clone(),
            op_prog: self.op_prog,
            subop: self.subop.clone(),
            subop_prog: self.subop_prog,
        }
    }
}

/// What a running MakeMKV command reports to the one who started it.
#[derive(Debug)]
pub enum CommandOutput {
    /// A general information message.
    Message(String),
    /// The progress changed.
    Progress(Progress),
    /// A line of the error stream.
    Error(String),
}

/// An attribute that the info command found, with what it belongs to.
#[derive(Debug)]
pub enum DiscAttribute {
    /// An attribute of the disc.
    Disc { id: Attribute, value: String },
    /// An attribute of a title.
    Title { title_index: i32, id: Attribute, value: String },
    /// An attribute of a stream of a title.
    Stream { title_index: i32, stream_index: i32, id: Attribute, value: String },
}

/// What one line of the output stream leads to.
#[derive(Debug)]
pub enum LineEffect {
    /// Nothing to report or record.
    Nothing,
    /// A report for the one who started the command.
    Report(CommandOutput),
    /// An attribute of the disc to record.
    Record(DiscAttribute),
}

/// The view of a command output.
pub enum CommandOutputView {
    Message(Seq<char>),
    Progress(ProgressView),
    Error(Seq<char>),
}

/// The view of a disc attribute.
pub enum DiscAttributeView {
    Disc { id: Attribute, value: Seq<char> },
    Title { title_index: i32, id: Attribute, value: Seq<char> },
    Stream { title_index: i32, stream_index: i32, id: Attribute, value: Seq<char> },
}

/// The view of a line effect.
pub enum LineEffectView {
    Nothing,
    Report(CommandOutputView),
    Record(DiscAttributeView),
}

impl View for CommandOutput {
    type V = CommandOutputView;

    open spec fn view(&self) -> CommandOutputView {
        match self {
            CommandOutput::Message(m) => CommandOutputView::Message(m@),
            CommandOutput::Progress(p) => CommandOutputView::Progress(p@),
            CommandOutput::Error(e) => CommandOutputView::Error(e@),
        }
    }
}

impl View for DiscAttribute {
    type V = DiscAttributeView;

    open spec fn view(&self) -> DiscAttributeView {
        match self {
            DiscAttribute::Disc { id, value } => DiscAttributeView::Disc { id: *id, value: value@ },
            DiscAttribute::Title { title_index, id, value } => DiscAttributeView::Title {
                title_index: *title_index,
                id: *id,
                value: value@,
            },
            DiscAttribute::Stream { title_index, stream_index, id, value } => DiscAttributeView::Stream {
                title_index: *title_index,
                stream_index: *stream_index,
                id: *id,
                value: value@,
            },
        }
    }
}

impl View for LineEffect {
    type V = LineEffectView;

    open spec fn view(&self) -> LineEffectView {
        match self {
            LineEffect::Nothing => LineEffectView::Nothing,
            LineEffect::Report(o) => LineEffectView::Report(o@),
            LineEffect::Record(a) => LineEffectView::Record(a@),
        }
    }
}

/// A message can be applied: the counters of a progress message give percentages without
/// overflow or division by zero.
pub open spec fn applicable(m: MessageView) -> bool {
    match m {
        MessageView::Prgv { suboperation, operation, max } => progress_in_range(operation, max)
            && progress_in_range(suboperation, max),
        _ => true,
    }
}

/// The progress after a message, and what the message leads to.
pub open spec fn message_effect(p: ProgressView, m: MessageView) -> (ProgressView, LineEffectView) {
    match m {
        MessageView::Cinfo { id, value, .. } => (
            p,
            LineEffectView::Record(DiscAttributeView::Disc { id, value }),
        ),
        MessageView::Tinfo { title_index, id, value, .. } => (
            p,
            LineEffectView::Record(DiscAttributeView::Title { title_index, id, value }),
        ),
        MessageView::Sinfo { title_index, stream_index, id, value, .. } => (
            p,
            LineEffectView::Record(DiscAttributeView::Stream { title_index, stream_index, id, value }),
        ),
        MessageView::Msg { message, .. } => (
            p,
            LineEffectView::Report(CommandOutputView::Message(message)),
        ),
        MessageView::Prgt { name, .. } => {
            let q = ProgressView { op: name, ..p };
            (q, LineEffectView::Report(CommandOutputView::Progress(q)))
        },
        MessageView::Prgc { name, .. } => {
            let q = ProgressView { subop: name, ..p };
            (q, LineEffectView::Report(CommandOutputView::Progress(q)))
        },
        MessageView::Prgv { suboperation, operation, max } => {
            let q = ProgressView {
                op_prog: progress_percent(operation, max),
                subop_prog: progress_percent(suboperation, max),
                ..p
            };
            (q, LineEffectView::Report(CommandOutputView::Progress(q)))
        },
        _ => (p, LineEffectView::Nothing),
    }
}

/// Applies a message of the output stream: attributes of the disc, its titles and streams are
/// to be recorded, information messages are reported, and the operation titles and progress
/// counters update the progress, which is then reported.
pub fn apply_message(progress: &mut Progress, msg: Message) -> (e: LineEffect)
    requires
        applicable(msg@),
    ensures
        (final(progress)@, e@) == message_effect(old(progress)@, msg@),
{
    match msg {
        Message::Cinfo { id, value, .. } => LineEffect::Record(DiscAttribute::Disc { id, value }),
        Message::Tinfo { title_index, id, value, .. } => LineEffect::Record(
            DiscAttribute::Title { title_index, id, value },
        ),
        Message::Sinfo { title_index, stream_index, id, value, .. } => LineEffect::Record(
            DiscAttribute::Stream { title_index, stream_index, id, value },
        ),
        Message::Msg { message, .. } => LineEffect::Report(CommandOutput::Message(message)),
        Message::Prgt { name, .. } => {
            progress.op = name;
            LineEffect::Report(CommandOutput::Progress(progress.snapshot()))
        },
        Message::Prgc { name, .. } => {
            progress.subop = name;
            LineEffect::Report(CommandOutput::Progress(progress.snapshot()))
        },
        Message::Prgv { suboperation, operation, max } => {
            progress.op_prog = percent(operation, max);
            progress.subop_prog = percent(suboperation, max);
            LineEffect::Report(CommandOutput::Progress(progress.snapshot()))
        },
        _ => LineEffect::Nothing,
    }
}

/// Processes a line of the command's output stream: parses it and applies the message.
///
/// A line that is not a message gives its parse error and leaves the progress unchanged.
pub fn process_stdout_line(progress: &mut Progress, line: &str) -> (r: Result<LineEffect, MessageError>)
    requires
        message_outcome(line@) matches Ok(m) ==> applicable(m),
    ensures
        match message_outcome(line@) {
            Ok(m) => r matches Ok(e) && (final(progress)@, e@) == message_effect(old(progress)@, m),
            Err(ev) => r matches Err(err) && err@ == ev && final(progress)@ == old(progress)@,
        },
{
    match parse_message(line) {
        Ok(msg) => Ok(apply_message(progress, msg)),
        Err(error) => Err(error),
    }
}

/// What a line of the command's error stream reports.
pub fn process_stderr_line(line: &str) -> (o: CommandOutput)
    ensures
        o@ == CommandOutputView::Error(line@),
{
    CommandOutput::Error(line.to_owned())
}

} // verus!

verus! {

/// The arguments of MakeMKV's info command (`makemkvcon`) for a device.
pub fn info_command_args(device: &str) -> (v: Vec<String>)
    ensures
        v@.map_values(|a: String| a@) == seq![
            "--cache=1"@,
            "--noscan"@,
            "--progress=-same"@,
            "info"@,
            "dev:"@ + device@,
        ],
{
    let mut dev = "dev:".to_owned();
    dev.append(device);
    let mut v: Vec<String> = Vec::new();
    v.push("--cache=1".to_owned());
    v.push("--noscan".to_owned());
    v.push("--progress=-same".to_owned());
    v.push("info".to_owned());
    v.push(dev);
    assert(v@.map_values(|a: String| a@) =~= seq![
        "--cache=1"@,
        "--noscan"@,
        "--progress=-same"@,
        "info"@,
        "dev:"@ + device@,
    ]);
    v
}

/// The arguments of MakeMKV's copy (mkv) command for a device, copying all titles to the
/// output folder.
pub fn mkv_command_args(device: &str, out_dir: &str) -> (v: Vec<String>)
    ensures
        v@.map_values(|a: String| a@) == seq![
            "--robot"@,
            "--noscan"@,
            "--progress=-same"@,
            "mkv"@,
            "dev:"@ + device@,
            "all"@,
            out_dir@,
        ],
{
    let mut dev = "dev:".to_owned();
    dev.append(device);
    let mut v: Vec<String> = Vec::new();
    v.push("--robot".to_owned());
    v.push("--noscan".to_owned());
    v.push("--progress=-same".to_owned());
    v.push("mkv".to_owned());
    v.push(dev);
    v.push("all".to_owned());
    v.push(out_dir.to_owned());
    assert(v@.map_values(|a: String| a@) =~= seq![
        "--robot"@,
        "--noscan"@,
        "--progress=-same"@,
        "mkv"@,
        "dev:"@ + device@,
        "all"@,
        out_dir@,
    ]);
    v
}

} // verus!

verus! {

/// Every attribute is identified by a number from 0 to 50, and reading that number back gives
/// the attribute: the numbers of MakeMKV's attributes and the attributes correspond one to one.
pub proof fn lemma_attribute_roundtrip(a: Attribute, n: int)
    ensures
        0 <= attribute_code(a) <= 50,
        attribute_of(attribute_code(a)) == Some(a),
        attribute_of(n) is Some <==> 0 <= n <= 50,
        attribute_of(n) matches Some(b) ==> attribute_code(b) == n,
{
}

/// Cutting a message's data at its commas loses nothing: joining the fields with commas gives
/// the data back, there is always at least one field, and no field holds a comma.
pub proof fn lemma_split_join(s: Seq<char>)
    ensures
        split_commas(s).len() >= 1,
        crate::text::join_commas(split_commas(s)) == s,
        forall|k: int, j: int|
            0 <= k < split_commas(s).len() && 0 <= j < split_commas(s)[k].len() ==> #[trigger] split_commas(s)[k][j] != ',',
    decreases s.len(),
{
    if s.len() > 0 {
        let t = s.drop_last();
        let c = s.last();
        lemma_split_join(t);
        let p = split_commas(t);
        assert(s =~= t.push(c));
        if c == ',' {
            let q = p.push(Seq::<char>::empty());
            assert(q.drop_last() =~= p);
            assert(crate::text::join_commas(q) =~= crate::text::join_commas(p) + seq![','] + Seq::<char>::empty());
            assert forall|k: int, j: int| 0 <= k < q.len() && 0 <= j < q[k].len() implies #[trigger] q[k][j] != ',' by {
                if k < p.len() {
                    assert(q[k] == p[k]);
                }
            }
        } else {
            let q = p.update(p.len() - 1, p.last().push(c));
            if p.len() == 1 {
                assert(crate::text::join_commas(p) == p[0]);
                assert(crate::text::join_commas(q) == q[0]);
                assert(q[0] =~= t.push(c));
            } else {
                assert(q.drop_last() =~= p.drop_last());
                assert(crate::text::join_commas(q) == crate::text::join_commas(q.drop_last()) + seq![','] + q.last());
                assert(crate::text::join_commas(p) == crate::text::join_commas(p.drop_last()) + seq![','] + p.last());
                assert(crate::text::join_commas(q) =~= crate::text::join_commas(p).push(c));
            }
            assert forall|k: int, j: int| 0 <= k < q.len() && 0 <= j < q[k].len() implies #[trigger] q[k][j] != ',' by {
                if k < p.len() - 1 {
                    assert(q[k] == p[k]);
                } else {
                    assert(q[k] == p.last().push(c));
                    if j < p.last().len() {
                        assert(q[k][j] == p[p.len() - 1][j]);
                    }
                }
            }
        }
    }
}

} // verus!

verus! {

/// A file name has the extension `mkv`, as `Path::extension` finds it: the name ends with
/// `.mkv` and something comes before that dot (a name that is just `.mkv` is a hidden file
/// without extension).
pub open spec fn is_mkv_name(name: Seq<char>) -> bool {
    &&& name.len() > 4
    &&& name.subrange(name.len() - 4, name.len() as int) == ".mkv"@
}

/// Returns whether the file name has the extension `mkv`.
pub fn has_mkv_extension(name: &str) -> (b: bool)
    ensures
        b == is_mkv_name(name@),
{
    let cs = chars_of(name);
    let n = cs.len();
    if n <= 4 {
        return false;
    }
    range_is(&cs, n - 4, n, ".mkv")
}

/// Returns whether a folder, given by the names of its entries, holds an MKV file.
pub fn contains_mkv_files(names: &Vec<String>) -> (b: bool)
    ensures
        b == exists|i: int| 0 <= i < names.len() && #[trigger] is_mkv_name(names@[i]@),
{
    let mut i: usize = 0;
    while i < names.len()
        invariant
            i <= names.len(),
            forall|j: int| 0 <= j < i ==> !#[trigger] is_mkv_name(names@[j]@),
        decreases names.len() - i,
    {
        if has_mkv_extension(names[i].as_str()) {
            assert(is_mkv_name(names@[i as int]@));
            return true;
        }
        i = i + 1;
    }
    false
}

} // verus!

verus! {

/// Returns whether the counters of a progress count can be turned into a percentage.
fn progress_counts_fit(value: i32, max: i32) -> (b: bool)
    ensures
        b == progress_in_range(value, max),
{
    let scaled: i64 = value as i64 * 100;
    max != 0 && i32::MIN as i64 <= scaled && scaled <= i32::MAX as i64
}

/// Returns whether a message can be applied: a progress message must have counters whose
/// percentages can be computed without overflow or division by zero.
pub fn is_applicable(msg: &Message) -> (b: bool)
    ensures
        b == applicable(msg@),
{
    match msg {
        Message::Prgv { suboperation, operation, max } => progress_counts_fit(*operation, *max)
            && progress_counts_fit(*suboperation, *max),
        _ => true,
    }
}

} // verus!
