//! Labels: decimal numbers, clock times, dates and error chains as text.

use vstd::prelude::*;
use vstd::string::StringExecFns;

verus! {

/// The character of a decimal digit.
pub open spec fn digit_char(d: int) -> char {
    if d == 0 {
        '0'
    } else if d == 1 {
        '1'
    } else if d == 2 {
        '2'
    } else if d == 3 {
        '3'
    } else if d == 4 {
        '4'
    } else if d == 5 {
        '5'
    } else if d == 6 {
        '6'
    } else if d == 7 {
        '7'
    } else if d == 8 {
        '8'
    } else {
        '9'
    }
}

/// The decimal digits of `n`, without leading zeros.
pub open spec fn decimal(n: nat) -> Seq<char>
    decreases n,
{
    if n < 10 {
        seq![digit_char(n as int)]
    } else {
        decimal(n / 10).push(digit_char((n % 10) as int))
    }
}

/// The decimal digits of `n`, with a leading zero where there is only one.
pub open spec fn padded(n: nat) -> Seq<char> {
    if n < 10 {
        seq!['0'] + decimal(n)
    } else {
        decimal(n)
    }
}

/// A clock time as `HH:MM`.
pub open spec fn clock_label(h: nat, m: nat) -> Seq<char> {
    padded(h) + seq![':'] + padded(m)
}

/// A date as `day/month`, without the year.
pub open spec fn day_label(day: nat, month: nat) -> Seq<char> {
    decimal(day) + seq!['/'] + decimal(month)
}

/// A date and a clock time as `day/month HH:MM`.
pub open spec fn point_label(day: nat, month: nat, h: nat, m: nat) -> Seq<char> {
    day_label(day, month) + seq![' '] + clock_label(h, m)
}

/// The parts of a chain, in order, with `sep` between each two.
pub open spec fn joined(parts: Seq<String>, sep: Seq<char>) -> Seq<char>
    decreases parts.len(),
{
    if parts.len() == 0 {
        Seq::empty()
    } else if parts.len() == 1 {
        parts[0]@
    } else {
        joined(parts.drop_last(), sep) + sep + parts.last()@
    }
}

/// What stands between two messages of an error chain.
pub open spec fn chain_separator() -> Seq<char> {
    seq![':', ' ']
}

fn digit_str(d: u32) -> (s: &'static str)
    requires
        d < 10,
    ensures
        s@ == seq![digit_char(d as int)],
{
    proof {
        reveal_strlit("0");
        reveal_strlit("1");
        reveal_strlit("2");
        reveal_strlit("3");
        reveal_strlit("4");
        reveal_strlit("5");
        reveal_strlit("6");
        reveal_strlit("7");
        reveal_strlit("8");
        reveal_strlit("9");
    }
    let s = if d == 0 {
        "0"
    } else if d == 1 {
        "1"
    } else if d == 2 {
        "2"
    } else if d == 3 {
        "3"
    } else if d == 4 {
        "4"
    } else if d == 5 {
        "5"
    } else if d == 6 {
        "6"
    } else if d == 7 {
        "7"
    } else if d == 8 {
        "8"
    } else {
        "9"
    };
    assert(s@ =~= seq![digit_char(d as int)]);
    s
}

/// Writes a number in decimal.
pub fn format_decimal(n: u32) -> (s: String)
    ensures
        s@ == decimal(n as nat),
    decreases n,
{
    if n < 10 {
        String::from_str(digit_str(n))
    } else {
        let mut s = format_decimal(n / 10);
        s.append(digit_str(n % 10));
        assert(s@ =~= decimal(n as nat));
        s
    }
}

/// Writes a number in decimal, with at least two digits.
pub fn format_padded(n: u32) -> (s: String)
    ensures
        s@ == padded(n as nat),
{
    if n < 10 {
        let s = String::from_str(digit_str(0)).concat(digit_str(n));
        assert(s@ =~= padded(n as nat));
        s
    } else {
        format_decimal(n)
    }
}

/// Writes a clock time as `HH:MM`.
pub fn format_clock(h: u32, m: u32) -> (s: String)
    ensures
        s@ == clock_label(h as nat, m as nat),
{
    proof {
        reveal_strlit(":");
    }
    let mut s = format_padded(h);
    s.append(":");
    let minutes = format_padded(m);
    s.append(minutes.as_str());
    assert(s@ =~= clock_label(h as nat, m as nat));
    s
}

/// Writes a date as `day/month`.
pub fn format_day(day: u32, month: u32) -> (s: String)
    ensures
        s@ == day_label(day as nat, month as nat),
{
    proof {
        reveal_strlit("/");
    }
    let mut s = format_decimal(day);
    s.append("/");
    let months = format_decimal(month);
    s.append(months.as_str());
    assert(s@ =~= day_label(day as nat, month as nat));
    s
}

/// Writes a date and a clock time as `day/month HH:MM`.
pub fn format_point(day: u32, month: u32, h: u32, m: u32) -> (s: String)
    ensures
        s@ == point_label(day as nat, month as nat, h as nat, m as nat),
{
    proof {
        reveal_strlit(" ");
    }
    let mut s = format_day(day, month);
    s.append(" ");
    let clock = format_clock(h, m);
    s.append(clock.as_str());
    s
}

/// Writes the messages of an error chain, outermost first, on one line:
/// each message is followed by a colon, a space and the message of its
/// cause.
pub fn format_error(chain: &Vec<String>) -> (s: String)
    ensures
        s@ == joined(chain@, chain_separator()),
{
    proof {
        reveal_strlit(": ");
    }
    let mut s = String::new();
    let mut i: usize = 0;
    while i < chain.len()
        invariant
            i <= chain.len(),
            s@ == joined(chain@.take(i as int), chain_separator()),
            ": "@ =~= chain_separator(),
        decreases chain.len() - i,
    {
        if i > 0 {
            s.append(": ");
        }
        s.append(chain[i].as_str());
        proof {
            let next = chain@.take(i + 1);
            assert(next.drop_last() =~= chain@.take(i as int));
            assert(next.last() == chain@[i as int]);
            assert(s@ =~= joined(next, chain_separator()));
        }
        i += 1;
    }
    assert(chain@.take(i as int) =~= chain@);
    s
}

} // verus!
