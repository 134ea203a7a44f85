use artie::makemkv::{contains_mkv_files, has_mkv_extension};
use artie::makemkv::{
    get_attribute, info_command_args, mkv_command_args, parse_message, process_stderr_line,
    process_stdout_line, Attribute, CommandOutput, DiscAttribute, LineEffect, Message,
    MessageError, Progress,
};

#[test]
fn parse_cinfo_message() {
    let msg = "CINFO:2,0,\"The Movie\"";

    let msg = parse_message(msg).expect("Expected a valid message to be returned");

    let Message::Cinfo { id, code, value } = msg else {
        panic!("Expected a Cinfo message to be returned")
    };

    assert_eq!(id, Attribute::Name);
    assert_eq!(code, 0);
    assert_eq!(value, "The Movie");
}

#[test]
fn parse_drv_message() {
    let msg = "DRV:2,1,999,12,\"4815162342\",\"MOVIE\",\"/dev/sr1\"";

    let Ok(msg) = parse_message(msg) else {
        panic!("Expected a valid message to be returned")
    };

    let Message::Drv { index, state, unknown, media_flags, drive_name, disc_name, device_path } =
        msg
    else {
        panic!("Expected a Drv message to be returned")
    };

    assert_eq!(index, 2);
    assert_eq!(state, 1);
    assert_eq!(unknown, 999);
    assert_eq!(media_flags, 12);
    assert_eq!(drive_name, "4815162342");
    assert_eq!(disc_name, "MOVIE");
    assert_eq!(device_path, "/dev/sr1");
}

#[test]
fn parse_msg_message() {
    let msg = "MSG:3007,0,0,\"Using direct disc access mode\",\"Using direct disc access mode\"";

    let msg = parse_message(msg).expect("Expected a valid message to be returned");

    let Message::Msg { code, flags, count, message, format, args } = msg else {
        panic!("Expected a Msg message to be returned")
    };

    assert_eq!(code, 3007);
    assert_eq!(flags, 0);
    assert_eq!(count, 0);
    assert_eq!(message, "Using direct disc access mode");
    assert_eq!(format, "Using direct disc access mode");
    assert_eq!(args.len(), 0);
}

#[test]
fn parse_prgc_message() {
    let msg = "PRGC:3400,7,\"Processing AV clips\"";

    let msg = parse_message(msg).expect("Expected a valid message to be returned");

    let Message::Prgc { code, id, name } = msg else {
        panic!("Expected a Prgc message to be returned")
    };

    assert_eq!(code, 3400);
    assert_eq!(id, 7);
    assert_eq!(name, "Processing AV clips");
}

#[test]
fn parse_prgt_message() {
    let msg = "PRGT:3400,7,\"Processing AV clips\"";

    let msg = parse_message(msg).expect("Expected a valid message to be returned");

    let Message::Prgt { code, id, name } = msg else {
        panic!("Expected a Prgt message to be returned")
    };

    assert_eq!(code, 3400);
    assert_eq!(id, 7);
    assert_eq!(name, "Processing AV clips");
}

#[test]
fn parse_prgv_message() {
    let msg = "PRGV:30929,21318,65536";

    let msg = parse_message(msg).expect("Expected a valid message to be returned");

    let Message::Prgv { suboperation, operation, max } = msg else {
        panic!("Expected a Prgv message to be returned")
    };

    assert_eq!(suboperation, 30929);
    assert_eq!(operation, 21318);
    assert_eq!(max, 65536);
}

#[test]
fn parse_sinfo_message() {
    let msg = "SINFO:5,1,7,0,\"Dolby Digital\"";

    let msg = parse_message(msg).expect("Expected a valid message to be returned");

    let Message::Sinfo { title_index, stream_index, id, code, value } = msg else {
        panic!("Expected a Sinfo message to be returned")
    };

    assert_eq!(title_index, 5);
    assert_eq!(stream_index, 1);
    assert_eq!(id, Attribute::CodecLong);
    assert_eq!(code, 0);
    assert_eq!(value, "Dolby Digital");
}

#[test]
fn parse_tcount_message() {
    let msg = "TCOUNT:53";

    let msg = parse_message(msg).expect("Expected a valid message to be returned");

    let Message::Tcount { count } = msg else {
        panic!("Expected a Tcount message to be returned")
    };

    assert_eq!(count, 53);
}

#[test]
fn parse_tinfo_message() {
    let msg = "TINFO:3,27,0,\"MOVIE_t00.mkv\"";

    let msg = parse_message(msg).expect("Expected a valid message to be returned");

    let Message::Tinfo { title_index, id, code, value } = msg else {
        panic!("Expected a Tinfo message to be returned")
    };

    assert_eq!(title_index, 3);
    assert_eq!(id, Attribute::OutputFileName);
    assert_eq!(code, 0);
    assert_eq!(value, "MOVIE_t00.mkv");
}

#[test]
fn parse_invalid_message() {
    let invalid_data = [
        "UNKNOWN:0,0,0",
        "INVALID",
        "CINFO:INVALID,0,\"The Movie\"",
        "CINFO:5000,0,\"The Movie\"",
        "CINFO:-500,0,\"The Movie\"",
        "CINFO:2,0",
        "DRV:INVALID,1,999,12,\"4815162342\",\"MOVIE\",\"/dev/sr1\"",
        "DRV:2,INVALID,999,12,\"4815162342\",\"MOVIE\",\"/dev/sr1\"",
        "DRV:2,1,999,INVALID2,\"4815162342\",\"MOVIE\",\"/dev/sr1\"",
        "DRV:2,1,999,12,\"MOVIE\",\"/dev/sr1\"",
        "MSG:INVALID,0,0,\"Using direct disc access mode\",\"Using direct disc access mode\"",
        "MSG:3007",
        "PRGC:INVALID,7,\"Processing AV clips\"",
        "PRGC:3400,INVALID,\"Processing AV clips\"",
        "PRGC:3400,7",
        "PRGT:INVALID,9,\"Opening Blu-ray disc\"",
        "PRGT:3404,INVALID,\"Opening Blu-ray disc\"",
        "PRGT:3404,9",
        "PRGV:INVALID,21318,65536",
        "PRGV:30929,INVALID,65536",
        "PRGV:30929,21318,INVALID",
        "PRGV:30929,21318",
        "SINFO:INVALID,1,7,0,\"Dolby Digital\"",
        "SINFO:5,INVALID,7,0,\"Dolby Digital\"",
        "SINFO:5,1,INVALID,0,\"Dolby Digital\"",
        "SINFO:5,1,3000,0,\"Dolby Digital\"",
        "SINFO:5,1,-300,0,\"Dolby Digital\"",
        "SINFO:5",
        "TCOUNT:INVALID",
        "TCOUNT:",
        "TINFO:INVALID,27,0,\"MOVIE_t00.mkv\"",
        "TINFO:3,INVALID,0,\"MOVIE_t00.mkv\"",
        "TINFO:3,2000,0,\"MOVIE_t00.mkv\"",
        "TINFO:3,-200,0,\"MOVIE_t00.mkv\"",
        "TINFO:3",
    ];

    for item in invalid_data.iter() {
        let Err(_) = parse_message(item) else {
            panic!("Expected an error when parsing '{}'", item);
        };
    }
}

#[test]
fn parse_errors_name_the_problem() {
    match parse_message("INVALID") {
        Err(MessageError::InvalidMessageFormat { msg }) => assert_eq!(msg, "INVALID"),
        _ => panic!("Expected a format error"),
    }
    match parse_message("UNKNOWN:0,0,0") {
        Err(MessageError::UnknownMessageType { key, data }) => {
            assert_eq!(key, "UNKNOWN");
            assert_eq!(data, "0,0,0");
        },
        _ => panic!("Expected an unknown message type"),
    }
    match parse_message("CINFO:2,0") {
        Err(MessageError::InvalidMessageData { key, data, error }) => {
            assert_eq!(key, "CINFO");
            assert_eq!(data, "2,0");
            assert_eq!(error, "missing 'value' field");
        },
        _ => panic!("Expected a data error"),
    }
    match parse_message("DRV:2,1,999,12,\"MOVIE\",\"/dev/sr1\"") {
        Err(MessageError::InvalidMessageData { error, .. }) => {
            assert_eq!(error, "missing 'disc_name' field")
        },
        _ => panic!("Expected a data error"),
    }
    match parse_message("TCOUNT:") {
        Err(MessageError::InvalidMessageData { error, .. }) => {
            assert_eq!(error, "failed to convert data to int")
        },
        _ => panic!("Expected a data error"),
    }
}

#[test]
fn parse_integers_like_str_parse() {
    let Ok(Message::Prgv { suboperation, operation, max }) = parse_message("PRGV:+5,-7,0012")
    else {
        panic!("Expected a Prgv message");
    };
    assert_eq!((suboperation, operation, max), (5, -7, 12));
    let Ok(Message::Tcount { count }) = parse_message("TCOUNT:-2147483648") else {
        panic!("Expected a Tcount message");
    };
    assert_eq!(count, i32::MIN);
    assert!(parse_message("TCOUNT:2147483648").is_err());
    assert!(parse_message("TCOUNT:-").is_err());
    assert!(parse_message("TCOUNT:+").is_err());
    assert!(parse_message("TCOUNT: 1").is_err());
}

#[test]
fn parse_msg_message_with_args_and_quotes() {
    let Ok(Message::Msg { message, format, args, .. }) =
        parse_message("MSG:1,2,2,\"\"\"x\"\"\",\"%1 %2\",\"a\",b")
    else {
        panic!("Expected a Msg message");
    };
    assert_eq!(message, "x");
    assert_eq!(format, "%1 %2");
    assert_eq!(args, vec![String::from("\"a\""), String::from("b")]);
    let Ok(Message::Cinfo { value, .. }) = parse_message("CINFO:2,0,a:b") else {
        panic!("Expected a Cinfo message");
    };
    assert_eq!(value, "a:b");
}

#[test]
fn attribute_numbers() {
    assert_eq!(get_attribute(0), Some(Attribute::Unknown));
    assert_eq!(get_attribute(27), Some(Attribute::OutputFileName));
    assert_eq!(get_attribute(50), Some(Attribute::OffsetSequenceId));
    assert_eq!(get_attribute(51), None);
    assert_eq!(get_attribute(-1), None);
}

#[test]
fn process_output_line_updates_disc_info() {
    let mut progress = Progress::new();

    let effect = process_stdout_line(&mut progress, "CINFO:2,0,\"DISC_NAME\"").unwrap();
    match effect {
        LineEffect::Record(DiscAttribute::Disc { id, value }) => {
            assert_eq!(id, Attribute::Name);
            assert_eq!(value, "DISC_NAME");
        },
        _ => panic!("Expected a disc attribute"),
    }

    let effect = process_stdout_line(&mut progress, "TINFO:0,2,0,\"TITLE_NAME\"").unwrap();
    match effect {
        LineEffect::Record(DiscAttribute::Title { title_index, id, value }) => {
            assert_eq!(title_index, 0);
            assert_eq!(id, Attribute::Name);
            assert_eq!(value, "TITLE_NAME");
        },
        _ => panic!("Expected a title attribute"),
    }

    let effect = process_stdout_line(&mut progress, "SINFO:0,0,2,0,\"STREAM_NAME\"").unwrap();
    match effect {
        LineEffect::Record(DiscAttribute::Stream { title_index, stream_index, id, value }) => {
            assert_eq!(title_index, 0);
            assert_eq!(stream_index, 0);
            assert_eq!(id, Attribute::Name);
            assert_eq!(value, "STREAM_NAME");
        },
        _ => panic!("Expected a stream attribute"),
    }
}

#[test]
fn process_output_line_calls_callbacks() {
    let mut progress = Progress::new();

    let output = process_stdout_line(&mut progress, "PRGT:3400,7,\"Title\"").unwrap();
    assert_eq!(progress.op, "Title".to_owned());
    if let LineEffect::Report(CommandOutput::Progress(p)) = output {
        assert_eq!(p.op, "Title".to_owned());
    } else {
        panic!("Expected progress output");
    }

    let output = process_stdout_line(&mut progress, "PRGC:3400,7,\"Subtitle\"").unwrap();
    assert_eq!(progress.subop, "Subtitle".to_owned());
    if let LineEffect::Report(CommandOutput::Progress(p)) = output {
        assert_eq!(p.subop, "Subtitle".to_owned());
    } else {
        panic!("Expected progress output");
    }

    let output = process_stdout_line(&mut progress, "PRGV:32768,16384,65536").unwrap();
    assert_eq!(progress.op_prog, 25);
    assert_eq!(progress.subop_prog, 50);
    if let LineEffect::Report(CommandOutput::Progress(p)) = output {
        assert_eq!(p.op_prog, 25);
        assert_eq!(p.subop_prog, 50);
    } else {
        panic!("Expected progress output");
    }

    let output =
        process_stdout_line(&mut progress, "MSG:3007,0,0,\"Hello There!\",\"Hello There!\"")
            .unwrap();
    if let LineEffect::Report(CommandOutput::Message(message)) = output {
        assert_eq!(message, "Hello There!".to_owned());
    } else {
        panic!("Expected a message.");
    }
}

#[test]
fn process_output_line_invalid_message() {
    let mut progress = Progress::new();
    process_stdout_line(&mut progress, "TCOUNT:INVALID").expect_err("Expected processing to fail");
    assert_eq!(progress.op, "");
    assert_eq!(progress.op_prog, 0);
}

#[test]
fn process_error_line_calls_callbacks() {
    let output = process_stderr_line("Failed to read disc.");
    if let CommandOutput::Error(error) = output {
        assert_eq!(error, "Failed to read disc.".to_owned());
    } else {
        panic!("Expected a message.");
    }
}

#[test]
fn progress_percent_truncates_like_integer_division() {
    let mut progress = Progress::new();
    process_stdout_line(&mut progress, "PRGV:1,2,3").unwrap();
    assert_eq!(progress.op_prog, 66);
    assert_eq!(progress.subop_prog, 33);
    process_stdout_line(&mut progress, "PRGV:-1,-2,3").unwrap();
    assert_eq!(progress.op_prog, (-66i32) as u8);
    assert_eq!(progress.subop_prog, (-33i32) as u8);
    let effect = process_stdout_line(&mut progress, "TCOUNT:3").unwrap();
    assert!(matches!(effect, LineEffect::Nothing));
}

#[test]
fn makemkv_command_arguments() {
    assert_eq!(
        info_command_args("/dev/sr0"),
        vec!["--cache=1", "--noscan", "--progress=-same", "info", "dev:/dev/sr0"]
    );
    assert_eq!(
        mkv_command_args("/dev/sr0", "/tmp/out"),
        vec!["--robot", "--noscan", "--progress=-same", "mkv", "dev:/dev/sr0", "all", "/tmp/out"]
    );
}

#[test]
fn mkv_files_are_found_by_extension() {
    assert!(has_mkv_extension("title_t00.mkv"));
    assert!(!has_mkv_extension(".mkv"));
    assert!(!has_mkv_extension("title.mkv.log"));
    assert!(!has_mkv_extension("title.MKV"));
    let names = vec![String::from("disc_info.json"), String::from("makemkv-info.log")];
    assert!(!contains_mkv_files(&names));
    let names = vec![String::from("disc_info.json"), String::from("A_t01.mkv")];
    assert!(contains_mkv_files(&names));
    for name in ["a.mkv", ".mkv", "mkv", "x.mkvx", "..mkv"] {
        let std_says = std::path::Path::new(name).extension().and_then(|s| s.to_str()) == Some("mkv");
        assert_eq!(has_mkv_extension(name), std_says, "{}", name);
    }
}
