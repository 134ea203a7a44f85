use artie::playback::{
    command_of_args, delay_ms, parse_u64_text, should_echo, sleep_steps, PlaybackCommand,
};

fn args(list: &[&str]) -> Vec<String> {
    list.iter().map(|s| s.to_string()).collect()
}

#[test]
fn playback_command_is_the_first_named() {
    assert_eq!(command_of_args(&args(&["info"])), Some(PlaybackCommand::Info));
    assert_eq!(command_of_args(&args(&["mkv"])), Some(PlaybackCommand::Mkv));
    assert_eq!(command_of_args(&args(&["-r", "mkv", "info"])), Some(PlaybackCommand::Mkv));
    assert_eq!(command_of_args(&args(&["--robot", "info", "mkv"])), Some(PlaybackCommand::Info));
    assert_eq!(command_of_args(&args(&["INFO", "mkv2"])), None);
    assert_eq!(command_of_args(&args(&[])), None);
}

#[test]
fn playback_delay_setting() {
    assert_eq!(delay_ms(None), 0);
    assert_eq!(delay_ms(Some(String::from("250"))), 250);
    assert_eq!(delay_ms(Some(String::from("+7"))), 7);
    assert_eq!(delay_ms(Some(String::from("-7"))), 0);
    assert_eq!(delay_ms(Some(String::from(" 5"))), 0);
    assert_eq!(delay_ms(Some(String::from(""))), 0);
    assert_eq!(delay_ms(Some(String::from("abc"))), 0);
    assert_eq!(delay_ms(Some(String::from("18446744073709551615"))), u64::MAX);
    assert_eq!(delay_ms(Some(String::from("18446744073709551616"))), 0);
}

#[test]
fn parse_u64_text_matches_std() {
    for text in ["0", "00042", "+", "+0", "1_000", "9999999999999999999", "99999999999999999999", "٣"] {
        assert_eq!(parse_u64_text(text), text.parse::<u64>().ok(), "{}", text);
    }
}

#[test]
fn playback_skips_blank_lines() {
    assert!(should_echo("MSG:1005,0,1,\"MakeMKV\",\"\",\"\""));
    assert!(!should_echo(""));
    assert!(!should_echo("  \t "));
    assert!(should_echo("  x "));
}

#[test]
fn playback_sleep_steps() {
    assert_eq!(sleep_steps(0), 0);
    assert_eq!(sleep_steps(1), 1);
    assert_eq!(sleep_steps(10), 1);
    assert_eq!(sleep_steps(11), 2);
    assert_eq!(sleep_steps(250), 25);
}
