//! HandBrake: the arguments of a transcode, and the framing of its JSON output.

use vstd::prelude::*;

use crate::text::{join_commas, push_signed_decimal, signed_decimal, signed_decimal_text};

verus! {

/// Specifies how to encode an audio track when transcoding a video.
#[derive(Clone, Copy, Debug, PartialEq, Eq, Structural)]
pub enum AudioEncodeMethod {
    /// Pass the track thru as is.
    Copy,
    /// Re-encode into Advanced Audio Coding (AAC).
    AAC,
    /// Re-encode into Dolby Surround (AC-3).
    AC3,
    /// Re-encode into Apple Lossless Audio Codec, 16 bit.
    ALAC16,
    /// Re-encode into Apple Lossless Audio Codec, 24 bit.
    ALAC24,
    /// Re-encode into Dolby Digital Plus (E-AC-3).
    EAC3,
    /// Re-encode into Free Lossless Audio Codec, 16 bit.
    Flac16,
    /// Re-encode into Free Lossless Audio Codec, 24 bit.
    Flac24,
    /// Re-encode into MP3.
    MP3,
    /// Re-encode into Opus.
    Opus,
    /// Re-encode into Vorbis.
    Vorbis,
}

/// The command-line value that HandBrake takes for an audio encode method.
pub open spec fn encoder_arg(m: AudioEncodeMethod) -> Seq<char> {
    match m {
        AudioEncodeMethod::Copy => "copy"@,
        AudioEncodeMethod::AAC => "av_aac"@,
        AudioEncodeMethod::AC3 => "ac3"@,
        AudioEncodeMethod::ALAC16 => "alac16"@,
        AudioEncodeMethod::ALAC24 => "alac24"@,
        AudioEncodeMethod::EAC3 => "eac3"@,
        AudioEncodeMethod::Flac16 => "flac16"@,
        AudioEncodeMethod::Flac24 => "flac24"@,
        AudioEncodeMethod::MP3 => "mp3"@,
        AudioEncodeMethod::Opus => "opus"@,
        AudioEncodeMethod::Vorbis => "vorbis"@,
    }
}

impl AudioEncodeMethod {
    /// Converts the audio encode method to the command-line argument value given to HandBrake.
    pub fn to_arg(&self) -> (s: &'static str)
        ensures
            s@ == encoder_arg(*self),
    {
        match self {
            AudioEncodeMethod::Copy => "copy",
            AudioEncodeMethod::AAC => "av_aac",
            AudioEncodeMethod::AC3 => "ac3",
            AudioEncodeMethod::ALAC16 => "alac16",
            AudioEncodeMethod::ALAC24 => "alac24",
            AudioEncodeMethod::EAC3 => "eac3",
            AudioEncodeMethod::Flac16 => "flac16",
            AudioEncodeMethod::Flac24 => "flac24",
            AudioEncodeMethod::MP3 => "mp3",
            AudioEncodeMethod::Opus => "opus",
            AudioEncodeMethod::Vorbis => "vorbis",
        }
    }
}

/// Specifies the encoding parameters for an audio track.
#[derive(Debug)]
pub struct AudioTrackOption {
    /// The audio track number in the source.
    pub track_no: i32,
    /// The method to use for encoding.
    pub method: AudioEncodeMethod,
    /// The name of the audio track.
    pub name: String,
}

/// The errors of HandBrake's argument builder and output parser.
#[derive(Debug)]
pub enum HandbrakeError {
    /// An option is invalid: which, and why.
    InvalidOption { option: String, error: String },
    /// A line of output is not what was expected.
    UnexpectedOutput { text: String },
}

/// Builder for configuring the arguments for running a HandBrake command.
#[derive(Debug)]
pub struct Options {
    /// The HandBrake preset to use when transcoding.
    pub preset: String,
    /// Path to the input video file.
    pub src_path: String,
    /// Path to where to save the transcoded video.
    pub dst_path: String,
    /// When set, the offset in seconds to start transcoding at.
    pub start_at: Option<i32>,
    /// When set, the duration of the transcode in seconds.
    pub stop_at: Option<i32>,
    /// The audio tracks to include in the transcoded video.
    pub audio: Vec<AudioTrackOption>,
}

/// The arguments that select the audio tracks: none, or the track numbers, the encoders and
/// the names, each list joined with commas.
pub open spec fn audio_args(audio: Seq<AudioTrackOption>) -> Seq<Seq<char>> {
    if audio.len() == 0 {
        seq!["--audio"@, "none"@]
    } else {
        seq![
            "--audio"@,
            join_commas(audio.map_values(|a: AudioTrackOption| signed_decimal_text(a.track_no as int))),
            "--aencoder"@,
            join_commas(audio.map_values(|a: AudioTrackOption| encoder_arg(a.method))),
            "--aname"@,
            join_commas(audio.map_values(|a: AudioTrackOption| a.name@)),
        ]
    }
}

/// The arguments for the time range of the transcode.
pub open spec fn time_args(start_at: Option<i32>, stop_at: Option<i32>) -> Seq<Seq<char>> {
    let start = match start_at {
        Some(s) => seq!["--start-at"@, "seconds:"@ + signed_decimal_text(s as int)],
        None => Seq::empty(),
    };
    let stop = match stop_at {
        Some(s) => seq!["--stop-at"@, "seconds:"@ + signed_decimal_text(s as int)],
        None => Seq::empty(),
    };
    start + stop
}

/// The error of an invalid option.
pub open spec fn invalid_option(e: HandbrakeError, option: Seq<char>, error: Seq<char>) -> bool {
    e matches HandbrakeError::InvalidOption { option: o, error: r } && o@ == option && r@ == error
}

/// The arguments for HandBrake of valid options.
pub open spec fn option_args(o: Options) -> Seq<Seq<char>> {
    seq!["--preset"@, o.preset@, "--input"@, o.src_path@, "--output"@, o.dst_path@] + time_args(
        o.start_at,
        o.stop_at,
    ) + audio_args(o.audio@)
}

/// Joins the texts with commas.
fn join_texts(parts: &Vec<String>) -> (s: String)
    ensures
        s@ == join_commas(parts@.map_values(|p: String| p@)),
{
    let ghost views = parts@.map_values(|p: String| p@);
    let mut s = String::new();
    let mut i: usize = 0;
    proof {
        reveal_strlit(",");
    }
    while i < parts.len()
        invariant
            i <= parts.len(),
            views == parts@.map_values(|p: String| p@),
            s@ == join_commas(views.take(i as int)),
        decreases parts.len() - i,
    {
        let ghost before = s@;
        if i > 0 {
            s.append(",");
        }
        s.append(parts[i].as_str());
        proof {
            reveal_strlit(",");
            let t = views.take(i + 1);
            assert(t.drop_last() =~= views.take(i as int));
            assert(t.last() == parts@[i as int]@);
            if i == 0 {
                assert(views.take(0) =~= Seq::<Seq<char>>::empty());
                assert(s@ =~= t[0]);
            } else {
                assert(s@ =~= join_commas(t.drop_last()) + seq![','] + t.last());
            }
        }
        i = i + 1;
    }
    assert(views.take(parts.len() as int) =~= views);
    s
}

impl Options {
    /// Constructs the options with the minimally required arguments: the preset, and the paths
    /// of the input and output videos. No time range, no audio track.
    pub fn new(preset: &str, src_path: &str, dst_path: &str) -> (o: Options)
        ensures
            o.preset@ == preset@,
            o.src_path@ == src_path@,
            o.dst_path@ == dst_path@,
            o.start_at is None,
            o.stop_at is None,
            o.audio@.len() == 0,
    {
        Options {
            preset: preset.to_owned(),
            src_path: src_path.to_owned(),
            dst_path: dst_path.to_owned(),
            start_at: None,
            stop_at: None,
            audio: Vec::new(),
        }
    }

    /// Adds an audio track, after those already added; gives the builder back, for chaining.
    pub fn audio_track(&mut self, no: i32, method: AudioEncodeMethod, name: &str) -> (r: &mut Options)
        ensures
            r.preset@ == old(self).preset@,
            r.src_path@ == old(self).src_path@,
            r.dst_path@ == old(self).dst_path@,
            r.start_at == old(self).start_at,
            r.stop_at == old(self).stop_at,
            r.audio@.len() == old(self).audio@.len() + 1,
            forall|i: int| 0 <= i < old(self).audio@.len() ==> r.audio@[i] == old(self).audio@[i],
            r.audio@.last().track_no == no,
            r.audio@.last().method == method,
            r.audio@.last().name@ == name@,
            *final(self) == *final(r),
    {
        self.audio.push(AudioTrackOption { track_no: no, method, name: name.to_owned() });
        self
    }

    /// Sets the offset in seconds from the start of the input video to start transcoding; gives
    /// the builder back, for chaining.
    pub fn start_at(&mut self, seconds: i32) -> (r: &mut Options)
        ensures
            r.preset@ == old(self).preset@,
            r.src_path@ == old(self).src_path@,
            r.dst_path@ == old(self).dst_path@,
            r.start_at == Some(seconds),
            r.stop_at == old(self).stop_at,
            r.audio@ == old(self).audio@,
            *final(self) == *final(r),
    {
        self.start_at = Some(seconds);
        self
    }

    /// Sets the duration of the transcode in seconds, counted from the start offset; gives the
    /// builder back, for chaining.
    pub fn stop_at(&mut self, seconds: i32) -> (r: &mut Options)
        ensures
            r.preset@ == old(self).preset@,
            r.src_path@ == old(self).src_path@,
            r.dst_path@ == old(self).dst_path@,
            r.start_at == old(self).start_at,
            r.stop_at == Some(seconds),
            r.audio@ == old(self).audio@,
            *final(self) == *final(r),
    {
        self.stop_at = Some(seconds);
        self
    }

    /// Returns the list of command-line arguments for the configured options.
    ///
    /// `src_is_file` says whether the input path names an existing file, and `dst_exists`
    /// whether the output path names anything. The input must exist, the output must not, the
    /// start offset must not be negative and the duration must be positive.
    pub fn get_options(&self, src_is_file: bool, dst_exists: bool) -> (r: Result<Vec<String>, HandbrakeError>)
        ensures
            !src_is_file ==> (r matches Err(e) && invalid_option(e, "src_path"@, "input file does not exist"@)),
            src_is_file && dst_exists ==> (r matches Err(e) && invalid_option(e, "dst_path"@, "output file already exists"@)),
            src_is_file && !dst_exists && (self.start_at matches Some(s) && s < 0) ==> (r matches Err(e)
                && invalid_option(e, "start_at"@, "start_at less than zero"@)),
            src_is_file && !dst_exists && !(self.start_at matches Some(s) && s < 0) && (
            self.stop_at matches Some(s) && s <= 0) ==> (r matches Err(e) && invalid_option(
                e,
                "stop_at"@,
                "stop_at less than or equal to zero"@,
            )),
            r is Ok <==> src_is_file && !dst_exists && !(self.start_at matches Some(s) && s < 0)
                && !(self.stop_at matches Some(s) && s <= 0),
            r matches Ok(args) ==> args@.map_values(|a: String| a@) == option_args(*self),
    {
        if !src_is_file {
            return Err(
                HandbrakeError::InvalidOption {
                    option: "src_path".to_owned(),
                    error: "input file does not exist".to_owned(),
                },
            );
        }
        if dst_exists {
            return Err(
                HandbrakeError::InvalidOption {
                    option: "dst_path".to_owned(),
                    error: "output file already exists".to_owned(),
                },
            );
        }
        let mut args: Vec<String> = Vec::new();
        args.push("--preset".to_owned());
        args.push(self.preset.clone());
        args.push("--input".to_owned());
        args.push(self.src_path.clone());
        args.push("--output".to_owned());
        args.push(self.dst_path.clone());
        let ghost base = args@.map_values(|a: String| a@);
        assert(base =~= seq!["--preset"@, self.preset@, "--input"@, self.src_path@, "--output"@, self.dst_path@]);
        if let Some(start_at) = self.start_at {
            if start_at >= 0 {
                args.push("--start-at".to_owned());
                let mut value = "seconds:".to_owned();
                push_signed_decimal(&mut value, start_at);
                args.push(value);
            } else {
                return Err(
                    HandbrakeError::InvalidOption {
                        option: "start_at".to_owned(),
                        error: "start_at less than zero".to_owned(),
                    },
                );
            }
        }
        let ghost with_start = args@.map_values(|a: String| a@);
        if let Some(stop_at) = self.stop_at {
            if stop_at > 0 {
                args.push("--stop-at".to_owned());
                let mut value = "seconds:".to_owned();
                push_signed_decimal(&mut value, stop_at);
                args.push(value);
            } else {
                return Err(
                    HandbrakeError::InvalidOption {
                        option: "stop_at".to_owned(),
                        error: "stop_at less than or equal to zero".to_owned(),
                    },
                );
            }
        }
        let ghost with_times = args@.map_values(|a: String| a@);
        assert(with_times =~= base + time_args(self.start_at, self.stop_at));
        if self.audio.len() == 0 {
            args.push("--audio".to_owned());
            args.push("none".to_owned());
        } else {
            let mut tracks: Vec<String> = Vec::new();
            let mut methods: Vec<String> = Vec::new();
            let mut names: Vec<String> = Vec::new();
            let mut i: usize = 0;
            while i < self.audio.len()
                invariant
                    i <= self.audio.len(),
                    tracks@.map_values(|p: String| p@) == self.audio@.take(i as int).map_values(
                        |a: AudioTrackOption| signed_decimal_text(a.track_no as int),
                    ),
                    methods@.map_values(|p: String| p@) == self.audio@.take(i as int).map_values(
                        |a: AudioTrackOption| encoder_arg(a.method),
                    ),
                    names@.map_values(|p: String| p@) == self.audio@.take(i as int).map_values(
                        |a: AudioTrackOption| a.name@,
                    ),
                decreases self.audio.len() - i,
            {
                let track = &self.audio[i];
                let ghost t0 = tracks@.map_values(|p: String| p@);
                let ghost m0 = methods@.map_values(|p: String| p@);
                let ghost n0 = names@.map_values(|p: String| p@);
                tracks.push(signed_decimal(track.track_no));
                methods.push(track.method.to_arg().to_owned());
                names.push(track.name.clone());
                proof {
                    let a = self.audio@.take(i + 1);
                    assert(a =~= self.audio@.take(i as int).push(self.audio@[i as int]));
                    assert(tracks@.map_values(|p: String| p@) =~= t0.push(
                        signed_decimal_text(self.audio@[i as int].track_no as int),
                    ));
                    assert(methods@.map_values(|p: String| p@) =~= m0.push(
                        encoder_arg(self.audio@[i as int].method),
                    ));
                    assert(names@.map_values(|p: String| p@) =~= n0.push(self.audio@[i as int].name@));
                    assert(a.map_values(|x: AudioTrackOption| signed_decimal_text(x.track_no as int))
                        =~= self.audio@.take(i as int).map_values(
                        |x: AudioTrackOption| signed_decimal_text(x.track_no as int),
                    ).push(signed_decimal_text(self.audio@[i as int].track_no as int)));
                    assert(a.map_values(|x: AudioTrackOption| encoder_arg(x.method))
                        =~= self.audio@.take(i as int).map_values(
                        |x: AudioTrackOption| encoder_arg(x.method),
                    ).push(encoder_arg(self.audio@[i as int].method)));
                    assert(a.map_values(|x: AudioTrackOption| x.name@) =~= self.audio@.take(
                        i as int,
                    ).map_values(|x: AudioTrackOption| x.name@).push(self.audio@[i as int].name@));
                }
                i = i + 1;
            }
            assert(self.audio@.take(self.audio.len() as int) =~= self.audio@);
            args.push("--audio".to_owned());
            args.push(join_texts(&tracks));
            args.push("--aencoder".to_owned());
            args.push(join_texts(&methods));
            args.push("--aname".to_owned());
            args.push(join_texts(&names));
        }
        assert(args@.map_values(|a: String| a@) =~= option_args(*self));
        Ok(args)
    }
}

/// The arguments of valid options, position by position: the preset, the input and the output
/// first; then `--start-at` with the offset when one is set, `--stop-at` with the duration when
/// one is set (whether or not an offset is), each as `seconds:` and its decimal numeral; and
/// the audio selection last, `--audio none` without tracks.
pub proof fn lemma_option_args_layout(o: Options)
    ensures
        ({
            let a = option_args(o);
            let k: int = if o.start_at is Some { 2 } else { 0 };
            let m: int = if o.stop_at is Some { 2 } else { 0 };
            &&& a.len() == 6 + k + m + (if o.audio@.len() == 0 { 2int } else { 6int })
            &&& a[0] == "--preset"@ && a[1] == o.preset@
            &&& a[2] == "--input"@ && a[3] == o.src_path@
            &&& a[4] == "--output"@ && a[5] == o.dst_path@
            &&& (o.start_at matches Some(s) ==> a[6] == "--start-at"@ && a[7] == "seconds:"@
                + signed_decimal_text(s as int))
            &&& (o.stop_at matches Some(s) ==> a[6 + k] == "--stop-at"@ && a[7 + k] == "seconds:"@
                + signed_decimal_text(s as int))
            &&& a[6 + k + m] == "--audio"@
            &&& (o.audio@.len() == 0 ==> a[7 + k + m] == "none"@)
            &&& (o.audio@.len() > 0 ==> {
                &&& a[7 + k + m] == join_commas(
                    o.audio@.map_values(|t: AudioTrackOption| signed_decimal_text(t.track_no as int)),
                )
                &&& a[8 + k + m] == "--aencoder"@
                &&& a[9 + k + m] == join_commas(o.audio@.map_values(|t: AudioTrackOption| encoder_arg(t.method)))
                &&& a[10 + k + m] == "--aname"@
                &&& a[11 + k + m] == join_commas(o.audio@.map_values(|t: AudioTrackOption| t.name@))
            })
        }),
{
    reveal_strlit("--preset");
}

/// What the output parser is doing.
#[derive(Clone, Copy, Debug, PartialEq, Eq, Structural)]
pub enum ParserState {
    /// Waiting for the first line of an object.
    Waiting,
    /// Reading the lines of a progress object.
    ReadingProgress,
    /// Reading the lines of a version object.
    ReadingVersion,
}

/// What a line of output completes.
#[derive(Debug)]
pub enum Output {
    /// Nothing yet.
    Nothing,
    /// The JSON text of a progress object.
    Progress(String),
    /// The JSON text of a version object.
    Version(String),
}

/// What a line of output gives, with texts as character sequences.
pub enum ParsedView {
    Nothing,
    Progress(Seq<char>),
    Version(Seq<char>),
    Unexpected(Seq<char>),
    Invalid,
}

/// The view of a parse result.
pub open spec fn parsed_view(r: Result<Output, HandbrakeError>) -> ParsedView {
    match r {
        Ok(Output::Nothing) => ParsedView::Nothing,
        Ok(Output::Progress(j)) => ParsedView::Progress(j@),
        Ok(Output::Version(j)) => ParsedView::Version(j@),
        Err(HandbrakeError::UnexpectedOutput { text }) => ParsedView::Unexpected(text@),
        Err(_) => ParsedView::Invalid,
    }
}

/// One line of output read by the parser in a state with a buffer: the new state, the new
/// buffer, and what the line gives.
///
/// While waiting, `Version: {` or `Progress: {` starts an object of that kind with its opening
/// bracket, and any other line is unexpected. While reading, the line is added to the object;
/// a line that is just `}` completes it: its text is given and the parser waits again.
pub open spec fn parse_step(state: ParserState, buffer: Seq<char>, text: Seq<char>) -> (
    ParserState,
    Seq<char>,
    ParsedView,
) {
    if state == ParserState::Waiting {
        if text == "Version: {"@ {
            (ParserState::ReadingVersion, seq!['{'], ParsedView::Nothing)
        } else if text == "Progress: {"@ {
            (ParserState::ReadingProgress, seq!['{'], ParsedView::Nothing)
        } else {
            (state, buffer, ParsedView::Unexpected(text))
        }
    } else if text == "}"@ {
        (
            ParserState::Waiting,
            Seq::empty(),
            if state == ParserState::ReadingProgress {
                ParsedView::Progress(buffer + text)
            } else {
                ParsedView::Version(buffer + text)
            },
        )
    } else {
        (state, buffer + text, ParsedView::Nothing)
    }
}

/// The lines joined end to end.
pub open spec fn concat_lines(lines: Seq<Seq<char>>) -> Seq<char>
    decreases lines.len(),
{
    if lines.len() == 0 {
        Seq::empty()
    } else {
        concat_lines(lines.drop_last()) + lines.last()
    }
}

/// The lines read one after the other: the final state and buffer, and what the last line
/// gives.
pub open spec fn read_lines(state: ParserState, buffer: Seq<char>, lines: Seq<Seq<char>>) -> (
    ParserState,
    Seq<char>,
    ParsedView,
)
    decreases lines.len(),
{
    if lines.len() == 0 {
        (state, buffer, ParsedView::Nothing)
    } else {
        let (s, b, _) = read_lines(state, buffer, lines.drop_last());
        parse_step(s, b, lines.last())
    }
}

/// HandBrake's output is framed into whole objects: after a `Progress: {` line, the parser
/// gives nothing while the object's lines come, and the closing `}` line gives the object's
/// whole text, made of its opening bracket, its lines and the closing bracket, after which it
/// waits for the next object.
pub proof fn lemma_progress_object(buffer: Seq<char>, body: Seq<Seq<char>>)
    requires
        forall|i: int| 0 <= i < body.len() ==> body[i] != "}"@,
    ensures
        read_lines(ParserState::Waiting, buffer, seq!["Progress: {"@] + body) == (
            ParserState::ReadingProgress,
            seq!['{'] + concat_lines(body),
            ParsedView::Nothing,
        ),
        read_lines(ParserState::Waiting, buffer, seq!["Progress: {"@] + body + seq!["}"@]) == (
            ParserState::Waiting,
            Seq::<char>::empty(),
            ParsedView::Progress(seq!['{'] + concat_lines(body) + "}"@),
        ),
{
    reveal_strlit("Version: {");
    reveal_strlit("Progress: {");
    let head = seq!["Progress: {"@];
    lemma_read_prefix(buffer, body);
    let all = head + body + seq!["}"@];
    assert(all.drop_last() =~= head + body);
}

/// Reading the opening line and then the body of a progress object.
proof fn lemma_read_prefix(buffer: Seq<char>, body: Seq<Seq<char>>)
    requires
        forall|i: int| 0 <= i < body.len() ==> body[i] != "}"@,
    ensures
        read_lines(ParserState::Waiting, buffer, seq!["Progress: {"@] + body) == (
            ParserState::ReadingProgress,
            seq!['{'] + concat_lines(body),
            ParsedView::Nothing,
        ),
    decreases body.len(),
{
    reveal_strlit("Version: {");
    reveal_strlit("Progress: {");
    let head = seq!["Progress: {"@];
    assert("Progress: {"@[0] != "Version: {"@[0]);
    if body.len() == 0 {
        assert(head + body =~= head);
        assert(head.drop_last() =~= Seq::<Seq<char>>::empty());
        assert(seq!['{'] + concat_lines(body) =~= seq!['{']);
        assert(read_lines(ParserState::Waiting, buffer, Seq::empty()) == (
            ParserState::Waiting,
            buffer,
            ParsedView::Nothing,
        ));
        assert(head.last() == "Progress: {"@);
        assert("Progress: {"@ != "Version: {"@);
        assert(parse_step(ParserState::Waiting, buffer, "Progress: {"@) == (
            ParserState::ReadingProgress,
            seq!['{'],
            ParsedView::Nothing,
        ));
    } else {
        lemma_read_prefix(buffer, body.drop_last());
        assert((head + body).drop_last() =~= head + body.drop_last());
        assert((head + body).last() == body.last());
        assert(body.last() != "}"@);
        assert(seq!['{'] + concat_lines(body.drop_last()) + body.last() =~= seq!['{'] + concat_lines(body));
        let prev = read_lines(ParserState::Waiting, buffer, head + body.drop_last());
        assert(prev.0 == ParserState::ReadingProgress);
        assert(parse_step(prev.0, prev.1, body.last()) == (
            ParserState::ReadingProgress,
            prev.1 + body.last(),
            ParsedView::Nothing,
        ));
    }
}

/// A version object is framed like a progress object: after a `Version: {` line, the parser
/// gives nothing while the object's lines come, and the closing `}` line gives the object's
/// whole text, made of its opening bracket, its lines and the closing bracket, after which it
/// waits for the next object.
pub proof fn lemma_version_object(buffer: Seq<char>, body: Seq<Seq<char>>)
    requires
        forall|i: int| 0 <= i < body.len() ==> body[i] != "}"@,
    ensures
        read_lines(ParserState::Waiting, buffer, seq!["Version: {"@] + body) == (
            ParserState::ReadingVersion,
            seq!['{'] + concat_lines(body),
            ParsedView::Nothing,
        ),
        read_lines(ParserState::Waiting, buffer, seq!["Version: {"@] + body + seq!["}"@]) == (
            ParserState::Waiting,
            Seq::<char>::empty(),
            ParsedView::Version(seq!['{'] + concat_lines(body) + "}"@),
        ),
{
    reveal_strlit("Version: {");
    reveal_strlit("Progress: {");
    let head = seq!["Version: {"@];
    lemma_read_version_prefix(buffer, body);
    let all = head + body + seq!["}"@];
    assert(all.drop_last() =~= head + body);
}

/// Reading the opening line and then the body of a version object.
proof fn lemma_read_version_prefix(buffer: Seq<char>, body: Seq<Seq<char>>)
    requires
        forall|i: int| 0 <= i < body.len() ==> body[i] != "}"@,
    ensures
        read_lines(ParserState::Waiting, buffer, seq!["Version: {"@] + body) == (
            ParserState::ReadingVersion,
            seq!['{'] + concat_lines(body),
            ParsedView::Nothing,
        ),
    decreases body.len(),
{
    reveal_strlit("Version: {");
    reveal_strlit("Progress: {");
    let head = seq!["Version: {"@];
    assert("Version: {"@[0] != "Progress: {"@[0]);
    if body.len() == 0 {
        assert(head + body =~= head);
        assert(head.drop_last() =~= Seq::<Seq<char>>::empty());
        assert(seq!['{'] + concat_lines(body) =~= seq!['{']);
        assert(read_lines(ParserState::Waiting, buffer, Seq::empty()) == (
            ParserState::Waiting,
            buffer,
            ParsedView::Nothing,
        ));
        assert(head.last() == "Version: {"@);
        assert("Version: {"@ != "Progress: {"@);
        assert(parse_step(ParserState::Waiting, buffer, "Version: {"@) == (
            ParserState::ReadingVersion,
            seq!['{'],
            ParsedView::Nothing,
        ));
    } else {
        lemma_read_version_prefix(buffer, body.drop_last());
        assert((head + body).drop_last() =~= head + body.drop_last());
        assert((head + body).last() == body.last());
        assert(body.last() != "}"@);
        assert(seq!['{'] + concat_lines(body.drop_last()) + body.last() =~= seq!['{'] + concat_lines(body));
        let prev = read_lines(ParserState::Waiting, buffer, head + body.drop_last());
        assert(prev.0 == ParserState::ReadingVersion);
        assert(parse_step(prev.0, prev.1, body.last()) == (
            ParserState::ReadingVersion,
            prev.1 + body.last(),
            ParsedView::Nothing,
        ));
    }
}

/// While the parser waits for an object, a line that opens none is unexpected: it is given back
/// as the error's text, and the parser keeps waiting with its buffer.
pub proof fn lemma_waiting_rejects(buffer: Seq<char>, text: Seq<char>)
    requires
        text != "Version: {"@,
        text != "Progress: {"@,
    ensures
        parse_step(ParserState::Waiting, buffer, text) == (
            ParserState::Waiting,
            buffer,
            ParsedView::Unexpected(text),
        ),
{
}

/// Parser of HandBrake's standard output, which prints JSON objects over several lines, each
/// introduced by a label line such as `Progress: {`.
#[derive(Debug)]
pub struct Parser {
    /// What the parser is doing.
    pub state: ParserState,
    /// The JSON text read so far of the current object.
    pub buffer: String,
}

impl Parser {
    /// A parser waiting for an object.
    pub fn new() -> (p: Parser)
        ensures
            p.state == ParserState::Waiting,
            p.buffer@.len() == 0,
    {
        Parser { state: ParserState::Waiting, buffer: String::new() }
    }

    /// Parses a line of output.
    ///
    /// While waiting, the line must be `Version: {` or `Progress: {`, which starts an object
    /// of that kind with its opening bracket. While reading, the line is added to the object,
    /// and a line that is just `}` completes it: the object's text is given and the parser
    /// waits again.
    pub fn parse(&mut self, text: &str) -> (r: Result<Output, HandbrakeError>)
        ensures
            (final(self).state, final(self).buffer@, parsed_view(r)) == parse_step(
                old(self).state,
                old(self).buffer@,
                text@,
            ),
    {
        proof {
            reveal_strlit("{");
        }
        match self.state {
            ParserState::Waiting => {
                if crate::devices::str_equal(text, "Version: {") {
                    self.state = ParserState::ReadingVersion;
                } else if crate::devices::str_equal(text, "Progress: {") {
                    self.state = ParserState::ReadingProgress;
                } else {
                    return Err(HandbrakeError::UnexpectedOutput { text: text.to_owned() });
                }
                self.buffer = "{".to_owned();
                Ok(Output::Nothing)
            },
            _ => {
                self.buffer.append(text);
                if !crate::devices::str_equal(text, "}") {
                    return Ok(Output::Nothing);
                }
                let mut json = String::new();
                std::mem::swap(&mut json, &mut self.buffer);
                let output = if self.state == ParserState::ReadingProgress {
                    Output::Progress(json)
                } else {
                    Output::Version(json)
                };
                self.state = ParserState::Waiting;
                Ok(output)
            },
        }
    }

    /// Moves back to the start of the buffer: the next object is read from the beginning.
    pub fn rewind(&mut self)
        ensures
            final(self).state == old(self).state,
            final(self).buffer@.len() == 0,
    {
        self.buffer = String::new();
    }
}

/// The progress of a transcode: the pass, the number of passes, and the percent done.
#[derive(Debug, Default)]
pub struct Progress {
    pub pass: i32,
    pub pass_count: i32,
    pub progress: i32,
}

/// The version of HandBrake.
#[derive(Debug)]
pub struct Version {
    pub arch: String,
    pub system: String,
    pub version: String,
}

} // verus!
