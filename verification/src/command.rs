//! The commands that the tracker takes as chat messages.
//!
//! A message is a command with or without a leading slash: `log`, `target`,
//! or `target H:M` with one or two decimal digits for the hour and for the
//! minute.

use crate::coords::ZonedInstant;
use crate::text::{clock_label, format_clock};
use crate::tracker::Tracker;
use vstd::prelude::*;
use vstd::string::{StrSliceExecFns, StringExecFns};

verus! {

/// What a message asks for.
#[derive(Clone, Copy, Debug, PartialEq, Eq, Structural)]
pub enum Command {
    /// Log a bedtime now.
    Log,
    /// Show the current target.
    ShowTarget,
    /// Set the target to this hour and minute.
    SetTarget(u8, u8),
    /// Set the target, but to what is no time of day.
    InvalidTarget,
    /// Nothing that the tracker knows.
    Invalid,
}

/// The answer to a command.
#[derive(Debug)]
pub enum Reply {
    /// A bedtime was logged, at this local time where the instant has one;
    /// the caller writes the time out.
    Logged(Option<ZonedInstant>),
    /// A line of text.
    Text(String),
}

/// What carrying a command out gave.
#[derive(Debug)]
pub struct Outcome {
    /// The answer to send.
    pub reply: Reply,
    /// Whether the tracker changed, so that it has to be saved.
    pub save: bool,
}

/// The value of a decimal digit.
pub open spec fn digit_value(c: char) -> Option<int> {
    if c == '0' {
        Some(0)
    } else if c == '1' {
        Some(1)
    } else if c == '2' {
        Some(2)
    } else if c == '3' {
        Some(3)
    } else if c == '4' {
        Some(4)
    } else if c == '5' {
        Some(5)
    } else if c == '6' {
        Some(6)
    } else if c == '7' {
        Some(7)
    } else if c == '8' {
        Some(8)
    } else if c == '9' {
        Some(9)
    } else {
        None
    }
}

/// The value of a number of one or two decimal digits.
pub open spec fn short_number(s: Seq<char>) -> Option<int> {
    if s.len() == 1 {
        digit_value(s[0])
    } else if s.len() == 2 {
        match (digit_value(s[0]), digit_value(s[1])) {
            (Some(tens), Some(ones)) => Some(10 * tens + ones),
            _ => None,
        }
    } else {
        None
    }
}

/// The two numbers of `H:M`.
pub open spec fn short_time(s: Seq<char>) -> Option<(int, int)> {
    let colon: int = if s.len() > 1 && s[1] == ':' {
        1
    } else {
        2
    };
    if s.len() > colon && s[colon] == ':' {
        match (short_number(s.take(colon)), short_number(s.skip(colon + 1))) {
            (Some(h), Some(m)) => Some((h, m)),
            _ => None,
        }
    } else {
        None
    }
}

/// A message without its leading slash, if it has one.
pub open spec fn without_slash(s: Seq<char>) -> Seq<char> {
    if s.len() > 0 && s[0] == '/' {
        s.skip(1)
    } else {
        s
    }
}

/// The word `log`.
pub open spec fn log_word() -> Seq<char> {
    seq!['l', 'o', 'g']
}

/// The word `target`.
pub open spec fn target_word() -> Seq<char> {
    seq!['t', 'a', 'r', 'g', 'e', 't']
}

/// What a message asks for.
pub open spec fn command_of(msg: Seq<char>) -> Command {
    let body = without_slash(msg);
    if body == log_word() {
        Command::Log
    } else if body == target_word() {
        Command::ShowTarget
    } else if body.len() > 7 && body.take(6) == target_word() && body[6] == ' ' {
        match short_time(body.skip(7)) {
            Some((h, m)) => if h <= 23 && m <= 59 {
                Command::SetTarget(h as u8, m as u8)
            } else {
                Command::InvalidTarget
            },
            None => Command::Invalid,
        }
    } else {
        Command::Invalid
    }
}

/// A target that a message sets is a time of day, and a message with a
/// leading slash asks for what the rest of it asks for, unless the rest
/// starts with a slash itself.
pub proof fn lemma_command_of(msg: Seq<char>)
    ensures
        command_of(msg) matches Command::SetTarget(h, m) ==> h <= 23 && m <= 59,
        msg.len() > 0 && msg[0] != '/' ==> command_of(seq!['/'] + msg) == command_of(msg),
{
    if msg.len() > 0 && msg[0] != '/' {
        assert(without_slash(seq!['/'] + msg) =~= msg);
    }
}

fn digit_of(c: char) -> (d: Option<u8>)
    ensures
        match d {
            Some(v) => digit_value(c) == Some(v as int) && v <= 9,
            None => digit_value(c) is None,
        },
{
    if c == '0' {
        Some(0)
    } else if c == '1' {
        Some(1)
    } else if c == '2' {
        Some(2)
    } else if c == '3' {
        Some(3)
    } else if c == '4' {
        Some(4)
    } else if c == '5' {
        Some(5)
    } else if c == '6' {
        Some(6)
    } else if c == '7' {
        Some(7)
    } else if c == '8' {
        Some(8)
    } else if c == '9' {
        Some(9)
    } else {
        None
    }
}

fn parse_short_number(chars: &Vec<char>, from: usize, to: usize) -> (n: Option<u8>)
    requires
        from <= to <= chars.len(),
    ensures
        match n {
            Some(v) => short_number(chars@.subrange(from as int, to as int)) == Some(v as int)
                && v <= 99,
            None => short_number(chars@.subrange(from as int, to as int)) is None,
        },
{
    let ghost s = chars@.subrange(from as int, to as int);
    if to - from == 1 {
        assert(s[0] == chars@[from as int]);
        digit_of(chars[from])
    } else if to - from == 2 {
        assert(s[0] == chars@[from as int] && s[1] == chars@[from + 1]);
        match (digit_of(chars[from]), digit_of(chars[from + 1])) {
            (Some(tens), Some(ones)) => Some(10 * tens + ones),
            _ => None,
        }
    } else {
        None
    }
}

fn starts_with_word(chars: &Vec<char>, from: usize, len: usize) -> (b: bool)
    requires
        len == 3 || len == 6,
    ensures
        b == (from + len <= chars.len() && chars@.subrange(from as int, from + len) == if len
            == 3 {
            log_word()
        } else {
            target_word()
        }),
{
    if from > chars.len() || chars.len() - from < len {
        return false;
    }
    let ghost s = chars@.subrange(from as int, from + len);
    let b = if len == 3 {
        chars[from] == 'l' && chars[from + 1] == 'o' && chars[from + 2] == 'g'
    } else {
        chars[from] == 't' && chars[from + 1] == 'a' && chars[from + 2] == 'r' && chars[from + 3]
            == 'g' && chars[from + 4] == 'e' && chars[from + 5] == 't'
    };
    proof {
        if len == 3 {
            assert(s[0] == chars@[from as int] && s[1] == chars@[from + 1] && s[2] == chars@[from
                + 2]);
            if b {
                assert(s =~= log_word());
            }
        } else {
            assert(s[0] == chars@[from as int] && s[1] == chars@[from + 1] && s[2] == chars@[from
                + 2] && s[3] == chars@[from + 3] && s[4] == chars@[from + 4] && s[5] == chars@[from
                + 5]);
            if b {
                assert(s =~= target_word());
            }
        }
    }
    b
}

/// Reads a message as a command.
pub fn parse_command(msg: &str) -> (c: Command)
    ensures
        c == command_of(msg@),
{
    let n = msg.unicode_len();
    let mut chars: Vec<char> = Vec::new();
    let mut i: usize = 0;
    while i < n
        invariant
            n == msg@.len(),
            i <= n,
            chars@ == msg@.take(i as int),
        decreases n - i,
    {
        chars.push(msg.get_char(i));
        assert(chars@ =~= msg@.take(i + 1));
        i += 1;
    }
    assert(chars@ =~= msg@);
    let start: usize = if n > 0 && chars[0] == '/' {
        1
    } else {
        0
    };
    let ghost body = without_slash(msg@);
    assert(body =~= chars@.subrange(start as int, n as int));
    let len: usize = n - start;
    if len == 3 {
        assert(body.len() != 6 && body.len() <= 7);
        if starts_with_word(&chars, start, 3) {
            Command::Log
        } else {
            Command::Invalid
        }
    } else if len == 6 {
        assert(body.len() != 3 && body.len() <= 7);
        if starts_with_word(&chars, start, 6) {
            Command::ShowTarget
        } else {
            Command::Invalid
        }
    } else if len > 7 && starts_with_word(&chars, start, 6) && chars[start + 6] == ' ' {
        assert(body.take(6) =~= chars@.subrange(start as int, start + 6));
        assert(body[6] == chars@[start + 6]);
        let ghost args = body.skip(7);
        let first: usize = start + 7;
        assert(args =~= chars@.subrange(first as int, n as int));
        assert(args.len() > 1 ==> args[1] == chars@[first + 1]);
        let colon: usize = if n - first > 1 && chars[first + 1] == ':' {
            first + 1
        } else {
            first + 2
        };
        if colon < n && chars[colon] == ':' {
            assert(args[colon - first] == chars@[colon as int]);
            assert(args.take(colon - first) =~= chars@.subrange(first as int, colon as int));
            assert(args.skip(colon - first + 1) =~= chars@.subrange(colon + 1, n as int));
            match (parse_short_number(&chars, first, colon), parse_short_number(
                &chars,
                colon + 1,
                n,
            )) {
                (Some(h), Some(m)) => if h <= 23 && m <= 59 {
                    Command::SetTarget(h, m)
                } else {
                    Command::InvalidTarget
                },
                _ => Command::Invalid,
            }
        } else {
            assert(colon < n ==> args[colon - first] == chars@[colon as int]);
            Command::Invalid
        }
    } else {
        proof {
            if len > 7 {
                assert(body.take(6) =~= chars@.subrange(start as int, start + 6));
                assert(body[6] == chars@[start + 6]);
            }
            assert(body.len() == len);
        }
        Command::Invalid
    }
}

/// Whether `outcome` is what carrying `command` out at the instant `now`
/// gives, on a tracker that goes from `before` to `after`.
pub open spec fn is_outcome_of(
    command: Command,
    now: i64,
    before: Tracker,
    after: Tracker,
    outcome: Outcome,
) -> bool {
    match command {
        Command::Log => {
            &&& outcome.save
            &&& after.current_target == before.current_target
            &&& after.time_log@.len() == before.time_log@.len() + 1
            &&& after.time_log@.drop_last() == before.time_log@
            &&& after.time_log@.last().bedtime == now
            &&& after.time_log@.last().timezone@ == crate::tracker::TZ@
            &&& after.time_log@.last().target == before.current_target
            &&& outcome.reply == Reply::Logged(after.time_log@.last().local())
        },
        Command::ShowTarget => {
            &&& !outcome.save
            &&& after == before
            &&& outcome.reply matches Reply::Text(s) && s@ == "Current target: "@ + clock_label(
                before.current_target.0 as nat,
                before.current_target.1 as nat,
            )
        },
        Command::SetTarget(h, m) => {
            &&& outcome.save
            &&& after.current_target == (h, m)
            &&& after.time_log == before.time_log
            &&& outcome.reply matches Reply::Text(s) && s@ == "Set target to "@ + clock_label(
                h as nat,
                m as nat,
            )
        },
        Command::InvalidTarget => {
            &&& !outcome.save
            &&& after == before
            &&& outcome.reply matches Reply::Text(s) && s@ == "Invalid target time"@
        },
        Command::Invalid => {
            &&& !outcome.save
            &&& after == before
            &&& outcome.reply matches Reply::Text(s) && s@ == "Invalid command"@
        },
    }
}

/// Carries a command out on the tracker, at the instant `utc_now` in
/// seconds since the start of 1970 in UTC, and says what to answer and
/// whether the tracker has to be saved.
pub fn execute(tracker: &mut Tracker, command: Command, utc_now: i64) -> (outcome: Outcome)
    ensures
        is_outcome_of(command, utc_now, *old(tracker), *final(tracker), outcome),
{
    match command {
        Command::Log => {
            let local = tracker.log(utc_now);
            Outcome { reply: Reply::Logged(local), save: true }
        },
        Command::ShowTarget => {
            let clock = format_clock(
                tracker.current_target.0 as u32,
                tracker.current_target.1 as u32,
            );
            let text = String::from_str("Current target: ").concat(clock.as_str());
            Outcome { reply: Reply::Text(text), save: false }
        },
        Command::SetTarget(h, m) => {
            tracker.set_target((h, m));
            let clock = format_clock(h as u32, m as u32);
            let text = String::from_str("Set target to ").concat(clock.as_str());
            Outcome { reply: Reply::Text(text), save: true }
        },
        Command::InvalidTarget => Outcome {
            reply: Reply::Text(String::from_str("Invalid target time")),
            save: false,
        },
        Command::Invalid => Outcome {
            reply: Reply::Text(String::from_str("Invalid command")),
            save: false,
        },
    }
}

} // verus!
