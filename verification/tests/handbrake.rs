use artie::handbrake::{AudioEncodeMethod, HandbrakeError, Options, Output, Parser, ParserState};

#[test]
fn options_builder() {
    let src = "/tmp/artie.handbrake.test.options_builder.mkv";
    let dst = "/tmp/artie.handbrake.test.options_builder.mp4";

    let opts = Options::new("Fast 1080p30", src, dst);
    let args = opts.get_options(true, false).unwrap();
    assert_eq!(&args[0], "--preset");
    assert_eq!(&args[1], "Fast 1080p30");
    assert_eq!(&args[2], "--input");
    assert_eq!(&args[3], src);
    assert_eq!(&args[4], "--output");
    assert_eq!(&args[5], dst);
    assert_eq!(&args[6], "--audio");
    assert_eq!(&args[7], "none");

    let mut opts = Options::new("Fast 1080p30", src, dst);
    opts.start_at(10);
    opts.stop_at(20);
    let args = opts.get_options(true, false).unwrap();
    assert_eq!(&args[0], "--preset");
    assert_eq!(&args[1], "Fast 1080p30");
    assert_eq!(&args[2], "--input");
    assert_eq!(&args[3], src);
    assert_eq!(&args[4], "--output");
    assert_eq!(&args[5], dst);
    assert_eq!(&args[6], "--start-at");
    assert_eq!(&args[7], "seconds:10");
    assert_eq!(&args[8], "--stop-at");
    assert_eq!(&args[9], "seconds:20");
    assert_eq!(&args[10], "--audio");
    assert_eq!(&args[11], "none");

    let mut opts = Options::new("Fast 1080p30", src, dst);
    opts.audio_track(0, AudioEncodeMethod::Copy, "Surround Sound");
    opts.audio_track(1, AudioEncodeMethod::AAC, "Audio Commentary");
    let args = opts.get_options(true, false).unwrap();
    assert_eq!(&args[0], "--preset");
    assert_eq!(&args[1], "Fast 1080p30");
    assert_eq!(&args[2], "--input");
    assert_eq!(&args[3], src);
    assert_eq!(&args[4], "--output");
    assert_eq!(&args[5], dst);
    assert_eq!(&args[6], "--audio");
    assert_eq!(&args[7], "0,1");
    assert_eq!(&args[8], "--aencoder");
    assert_eq!(&args[9], "copy,av_aac");
    assert_eq!(&args[10], "--aname");
    assert_eq!(&args[11], "Surround Sound,Audio Commentary");

    let mut opts = Options::new("Fast 1080p30", src, dst);
    opts.start_at(-1);
    opts.get_options(true, false).expect_err("Expected an error");

    let mut opts = Options::new("Fast 1080p30", src, dst);
    opts.stop_at(0);
    opts.get_options(true, false).expect_err("Expected an error");

    // The output file now exists.
    let opts = Options::new("Fast 1080p30", src, dst);
    opts.get_options(true, true).expect_err("Expected an error");

    // Neither file exists any more.
    let opts = Options::new("Fast 1080p30", src, dst);
    opts.get_options(false, false).expect_err("Expected an error");
}

#[test]
fn option_errors_name_the_option() {
    let mut opts = Options::new("P", "/in", "/out");
    match opts.get_options(false, true) {
        Err(HandbrakeError::InvalidOption { option, error }) => {
            assert_eq!(option, "src_path");
            assert_eq!(error, "input file does not exist");
        },
        _ => panic!("Expected an invalid option"),
    }
    match opts.get_options(true, true) {
        Err(HandbrakeError::InvalidOption { option, error }) => {
            assert_eq!(option, "dst_path");
            assert_eq!(error, "output file already exists");
        },
        _ => panic!("Expected an invalid option"),
    }
    opts.start_at(-5);
    opts.stop_at(-5);
    match opts.get_options(true, false) {
        Err(HandbrakeError::InvalidOption { option, .. }) => assert_eq!(option, "start_at"),
        _ => panic!("Expected an invalid option"),
    }
    opts.start_at(0);
    match opts.get_options(true, false) {
        Err(HandbrakeError::InvalidOption { option, error }) => {
            assert_eq!(option, "stop_at");
            assert_eq!(error, "stop_at less than or equal to zero");
        },
        _ => panic!("Expected an invalid option"),
    }
    opts.stop_at(90);
    opts.audio_track(-3, AudioEncodeMethod::Flac24, "Only");
    let args = opts.get_options(true, false).unwrap();
    assert_eq!(args[6..].to_vec(), vec![
        "--start-at", "seconds:0", "--stop-at", "seconds:90", "--audio", "-3", "--aencoder", "flac24",
        "--aname", "Only",
    ]);
}

#[test]
fn encoder_arguments() {
    let all = [
        (AudioEncodeMethod::Copy, "copy"),
        (AudioEncodeMethod::AAC, "av_aac"),
        (AudioEncodeMethod::AC3, "ac3"),
        (AudioEncodeMethod::ALAC16, "alac16"),
        (AudioEncodeMethod::ALAC24, "alac24"),
        (AudioEncodeMethod::EAC3, "eac3"),
        (AudioEncodeMethod::Flac16, "flac16"),
        (AudioEncodeMethod::Flac24, "flac24"),
        (AudioEncodeMethod::MP3, "mp3"),
        (AudioEncodeMethod::Opus, "opus"),
        (AudioEncodeMethod::Vorbis, "vorbis"),
    ];
    for (method, arg) in all {
        assert_eq!(method.to_arg(), arg);
    }
}

fn feed(parser: &mut Parser, text: &str) -> Vec<Output> {
    text.lines().map(|line| parser.parse(line).unwrap()).collect()
}

#[test]
fn test_parse() {
    let mut parser = Parser::new();

    let text = r#"Version: {
    "Arch": "x86_64",
    "Name": "HandBrake",
    "Official": true,
    "RepoDate": "2024-08-07 17:31:52",
    "RepoHash": "77f199ab02ff2e3bca4ca653e922e9fef67dec43",
    "System": "MinGW",
    "Type": "release",
    "Version": {
        "Major": 1,
        "Minor": 8,
        "Point": 2
    },
    "VersionString": "1.8.2"
}
"#;
    let output = feed(&mut parser, text);
    for result in &output[0..output.len() - 1] {
        assert!(matches!(result, Output::Nothing), "Did not expect output data until the final item");
    }
    if let Output::Version(json) = &output[output.len() - 1] {
        let version: serde_json::Value = serde_json::from_str(json).unwrap();
        assert_eq!(version["Arch"], "x86_64");
        assert_eq!(version["System"], "MinGW");
        assert_eq!(version["VersionString"], "1.8.2");
    } else {
        panic!("Expected version data")
    }

    let text = r#"Progress: {
    "State": "WORKING",
    "Working": {
        "ETASeconds": 1,
        "Hours": 0,
        "Minutes": 0,
        "Pass": 1,
        "PassCount": 2,
        "PassID": -1,
        "Paused": 0,
        "Progress": 0.094762548804283142,
        "Rate": 0.0,
        "RateAvg": 0.0,
        "Seconds": 1,
        "SequenceID": 1
    }
}
"#;
    let output = feed(&mut parser, text);
    for result in &output[0..output.len() - 1] {
        assert!(matches!(result, Output::Nothing), "Did not expect output data until the final item");
    }
    if let Output::Progress(json) = &output[output.len() - 1] {
        let progress: serde_json::Value = serde_json::from_str(json).unwrap();
        let working = &progress["Working"];
        assert_eq!(working["Pass"], 1);
        assert_eq!(working["PassCount"], 2);
        let percent = (working["Progress"].as_f64().unwrap() as f32 * 100.0) as i32;
        assert_eq!(percent, 9);
    } else {
        panic!("Expected progress data")
    }

    let text = r#"Progress: {
    "Muxing": {
        "Progress": 0.0
    },
    "State": "MUXING"
}
"#;
    let output = feed(&mut parser, text);
    let last = output.last().unwrap();
    if let Output::Progress(json) = last {
        let progress: serde_json::Value = serde_json::from_str(json).unwrap();
        assert!(progress.get("Working").is_none());
    } else {
        panic!("Expected a progress object");
    }
    assert_eq!(parser.state, ParserState::Waiting);
}

#[test]
fn parser_rejects_unexpected_output() {
    let mut parser = Parser::new();
    match parser.parse("Encode done!") {
        Err(HandbrakeError::UnexpectedOutput { text }) => assert_eq!(text, "Encode done!"),
        _ => panic!("Expected unexpected output"),
    }
    assert_eq!(parser.state, ParserState::Waiting);
    assert!(matches!(parser.parse("Progress: {").unwrap(), Output::Nothing));
    assert_eq!(parser.state, ParserState::ReadingProgress);
    assert!(matches!(parser.parse("  \"a\": 1").unwrap(), Output::Nothing));
    match parser.parse("}").unwrap() {
        Output::Progress(json) => assert_eq!(json, "{  \"a\": 1}"),
        _ => panic!("Expected the progress object"),
    }
    assert_eq!(parser.buffer, "");
}

#[test]
fn options_builder_chains() {
    let mut opts = Options::new("Fast 1080p30", "/in.mkv", "/out.mp4");
    opts.start_at(5)
        .stop_at(60)
        .audio_track(2, AudioEncodeMethod::Opus, "Stereo")
        .audio_track(3, AudioEncodeMethod::Copy, "Commentary");
    let args = opts.get_options(true, false).unwrap();
    assert_eq!(
        args,
        vec![
            "--preset", "Fast 1080p30", "--input", "/in.mkv", "--output", "/out.mp4",
            "--start-at", "seconds:5", "--stop-at", "seconds:60", "--audio", "2,3",
            "--aencoder", "opus,copy", "--aname", "Stereo,Commentary",
        ]
    );
}

#[test]
fn parser_frames_a_version_object() {
    let mut parser = Parser::new();
    assert!(matches!(parser.parse("Version: {"), Ok(Output::Nothing)));
    assert_eq!(parser.state, ParserState::ReadingVersion);
    assert!(matches!(parser.parse("    \"VersionString\": \"1.8.2\""), Ok(Output::Nothing)));
    match parser.parse("}") {
        Ok(Output::Version(json)) => assert_eq!(json, "{    \"VersionString\": \"1.8.2\"}"),
        other => panic!("Expected a version object, got {:?}", other),
    }
    assert_eq!(parser.state, ParserState::Waiting);
    match parser.parse("noise") {
        Err(HandbrakeError::UnexpectedOutput { text }) => assert_eq!(text, "noise"),
        other => panic!("Expected unexpected output, got {:?}", other),
    }
    assert_eq!(parser.state, ParserState::Waiting);
}
