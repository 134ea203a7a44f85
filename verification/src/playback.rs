//! The decisions of the MakeMKV stand-in used during development: it plays back the recorded
//! output of a MakeMKV command, line by line, with a delay after each line.
//!
//! The command to play back is the first argument that names one (`info` or `mkv`); the delay
//! is read, in milliseconds, from a setting that may be missing or malformed; blank lines are
//! skipped; and the delay is waited out in steps of ten milliseconds.

use vstd::prelude::*;

use crate::devices::str_equal;
use crate::text::{all_digits, digits_value, is_blank, is_blank_str, is_digit};

verus! {

/// The MakeMKV commands whose output can be played back.
#[derive(Clone, Copy, Debug, PartialEq, Eq, Structural)]
pub enum PlaybackCommand {
    /// The info command: the disc's titles and streams.
    Info,
    /// The mkv command: the copy of the disc's titles.
    Mkv,
}

/// The command an argument names, if it names one.
pub open spec fn command_named(arg: Seq<char>) -> Option<PlaybackCommand> {
    if arg == "info"@ {
        Some(PlaybackCommand::Info)
    } else if arg == "mkv"@ {
        Some(PlaybackCommand::Mkv)
    } else {
        None
    }
}

/// The command named by the first argument, from index `i` on, that names one.
pub open spec fn first_command(args: Seq<Seq<char>>, i: int) -> Option<PlaybackCommand>
    decreases args.len() - i,
{
    if i < 0 || i >= args.len() {
        None
    } else {
        match command_named(args[i]) {
            Some(c) => Some(c),
            None => first_command(args, i + 1),
        }
    }
}

/// The command to play back: the one named by the first argument that names one.
pub fn command_of_args(args: &Vec<String>) -> (r: Option<PlaybackCommand>)
    ensures
        r == first_command(args@.map_values(|a: String| a@), 0),
{
    let ghost names = args@.map_values(|a: String| a@);
    let mut i: usize = 0;
    while i < args.len()
        invariant
            i <= args.len(),
            names == args@.map_values(|a: String| a@),
            first_command(names, 0) == first_command(names, i as int),
        decreases args.len() - i,
    {
        proof {
            reveal_strlit("info");
            reveal_strlit("mkv");
        }
        let arg = args[i].as_str();
        assert(names[i as int] == arg@);
        if str_equal(arg, "info") {
            return Some(PlaybackCommand::Info);
        }
        if str_equal(arg, "mkv") {
            return Some(PlaybackCommand::Mkv);
        }
        i = i + 1;
    }
    None
}

/// The `u64` that `str::parse::<u64>` gives for a text: an optional `+` followed by at least
/// one decimal digit and nothing else, whose number fits in a `u64`.
pub open spec fn parse_u64(s: Seq<char>) -> Option<u64> {
    let d = if s.len() > 0 && s[0] == '+' {
        s.drop_first()
    } else {
        s
    };
    if d.len() > 0 && all_digits(d) && digits_value(d) <= u64::MAX {
        Some(digits_value(d) as u64)
    } else {
        None
    }
}

const U64_CAP: u128 = 0x1_0000_0000_0000_0000;

/// Parses a text as `str::parse::<u64>` does.
pub fn parse_u64_text(s: &str) -> (r: Option<u64>)
    ensures
        r == parse_u64(s@),
{
    let cs = crate::text::chars_of(s);
    let signed = cs.len() > 0 && cs[0] == '+';
    let start: usize = if signed {
        1
    } else {
        0
    };
    let ghost d = if signed {
        s@.drop_first()
    } else {
        s@
    };
    assert(d =~= cs@.subrange(start as int, cs.len() as int));
    if start == cs.len() {
        return None;
    }
    let mut i = start;
    let mut acc: u128 = 0;
    while i < cs.len()
        invariant
            start <= i <= cs.len(),
            start < cs.len(),
            cs@ == s@,
            d == (if s@.len() > 0 && s@[0] == '+' {
                s@.drop_first()
            } else {
                s@
            }),
            d == cs@.subrange(start as int, cs.len() as int),
            all_digits(cs@.subrange(start as int, i as int)),
            digits_value(cs@.subrange(start as int, i as int)) >= 0,
            acc == (if digits_value(cs@.subrange(start as int, i as int)) < U64_CAP {
                digits_value(cs@.subrange(start as int, i as int))
            } else {
                U64_CAP as int
            }),
        decreases cs.len() - i,
    {
        let c = cs[i];
        let n = c as u32;
        if n < 48 || n > 57 {
            assert(d[i - start] == c);
            assert(!is_digit(d[i - start]));
            assert(!all_digits(d));
            return None;
        }
        let ghost prev = cs@.subrange(start as int, i as int);
        let ghost next = cs@.subrange(start as int, i + 1);
        assert(next.drop_last() =~= prev);
        assert(next.last() == c);
        let v = 10 * acc + (n - 48) as u128;
        acc = if v > U64_CAP {
            U64_CAP
        } else {
            v
        };
        i = i + 1;
    }
    assert(cs@.subrange(start as int, i as int) =~= d);
    if acc >= U64_CAP {
        return None;
    }
    Some(acc as u64)
}

/// The delay after each line, in milliseconds: the setting's number when it is set to one,
/// and no delay otherwise.
pub fn delay_ms(setting: Option<String>) -> (ms: u64)
    ensures
        ms == match setting {
            Some(s) => match parse_u64(s@) {
                Some(v) => v,
                None => 0,
            },
            None => 0,
        },
{
    match setting {
        Some(s) => match parse_u64_text(s.as_str()) {
            Some(v) => v,
            None => 0,
        },
        None => 0,
    }
}

/// A line is played back unless it is blank.
pub fn should_echo(line: &str) -> (b: bool)
    ensures
        b == !is_blank(line@),
{
    !is_blank_str(line)
}

/// The milliseconds of one wait step.
pub const SLEEP_STEP_MS: u64 = 10;

/// The number of wait steps after a line: the delay is waited out in whole steps, so that the
/// time waited is the delay rounded up to a multiple of the step.
pub fn sleep_steps(delay: u64) -> (n: u64)
    ensures
        n * SLEEP_STEP_MS >= delay,
        n == 0 || (n - 1) * SLEEP_STEP_MS < delay,
{
    let mut time: u128 = 0;
    let mut n: u64 = 0;
    while time < delay as u128
        invariant
            time == n * SLEEP_STEP_MS,
            n == 0 || (n - 1) * SLEEP_STEP_MS < delay,
            time <= delay + SLEEP_STEP_MS,
        decreases delay as int + SLEEP_STEP_MS - time as int,
    {
        time = time + SLEEP_STEP_MS as u128;
        n = n + 1;
    }
    n
}

} // verus!
