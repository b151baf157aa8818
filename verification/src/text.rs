//! The texts that a run produces: the message of each commit and the progress
//! line of each day.

use vstd::prelude::*;
use vstd::string::StringExecFns;
use crate::calendar::{Date, GRID_DAYS};
use crate::error::{DrawError, InternalFault};

verus! {

/// The character of the decimal digit `d`, `0 <= d <= 9`.
pub open spec fn digit_char(d: int) -> char {
    (48 + d) as u8 as char
}

/// `n` in decimal, without leading zeros.
pub open spec fn decimal(n: nat) -> Seq<char>
    decreases n,
{
    if n < 10 {
        seq![digit_char(n as int)]
    } else {
        decimal(n / 10).push(digit_char((n % 10) as int))
    }
}

/// `n` in decimal, with blanks before it where it has fewer than three
/// digits.
pub open spec fn padded(n: nat) -> Seq<char> {
    if n < 10 {
        seq![' ', ' '] + decimal(n)
    } else if n < 100 {
        seq![' '] + decimal(n)
    } else {
        decimal(n)
    }
}

/// The message of the `ordinal`-th commit of a day that gets `total` commits.
pub open spec fn message_text(ordinal: nat, total: nat) -> Seq<char> {
    seq!['#'] + decimal(ordinal) + seq!['/'] + decimal(total)
}

/// The share of the grid that lies before its `elapsed`-th day, in percent,
/// rounded down.
pub open spec fn percent_of_grid(elapsed: int) -> int {
    elapsed * 100 / 371
}

/// The progress line for a day: the percentage, right-justified in three
/// places, and the date in brackets.
pub open spec fn progress_text(percent: nat, date: Seq<char>) -> Seq<char> {
    padded(percent) + seq!['%', ' ', '('] + date + seq![')']
}

/// The civil form of the date with day number `days`, year, month and day,
/// as the calendar library prints it; `None` where it has no such date.
pub uninterp spec fn civil_date_text(days: int) -> Option<Seq<char>>;

/// Asks `chrono::NaiveDate::from_epoch_days` for the date with this day
/// number and prints it with its `Display`. Nothing is proved of the text: it
/// is whatever the calendar library makes of the day number, and absent
/// exactly where that library has no date for it.
#[verifier::external_body]
fn civil_text(days: i32) -> (r: Option<String>)
    ensures
        match r {
            Some(text) => civil_date_text(days as int) == Some(text@),
            None => civil_date_text(days as int) is None,
        },
{
    match chrono::NaiveDate::from_epoch_days(days) {
        Some(date) => Some(date.to_string()),
        None => None,
    }
}

fn digit_text(d: u8) -> (r: &'static str)
    requires
        d < 10,
    ensures
        r@ == seq![digit_char(d as int)],
{
    proof {
        reveal_strlit("0");
        reveal_strlit("1");
        reveal_strlit("2");
        reveal_strlit("3");
        reveal_strlit("4");
        reveal_strlit("5");
        reveal_strlit("6");
        reveal_strlit("7");
        reveal_strlit("8");
        reveal_strlit("9");
    }
    let r = if d == 0 {
        "0"
    } else if d == 1 {
        "1"
    } else if d == 2 {
        "2"
    } else if d == 3 {
        "3"
    } else if d == 4 {
        "4"
    } else if d == 5 {
        "5"
    } else if d == 6 {
        "6"
    } else if d == 7 {
        "7"
    } else if d == 8 {
        "8"
    } else {
        "9"
    };
    assert(r@ =~= seq![digit_char(d as int)]);
    r
}

/// Appends `n` in decimal to `out`.
fn push_decimal(out: &mut String, n: u8)
    ensures
        final(out)@ == old(out)@ + decimal(n as nat),
{
    let ghost start = out@;
    if n >= 100 {
        out.append(digit_text(n / 100));
        out.append(digit_text((n / 10) % 10));
        out.append(digit_text(n % 10));
        proof {
            let n = n as nat;
            reveal_with_fuel(decimal, 3);
            assert(decimal(n) =~= seq![
                digit_char((n / 100) as int),
                digit_char(((n / 10) % 10) as int),
                digit_char((n % 10) as int),
            ]);
            assert(out@ =~= start + decimal(n));
        }
    } else if n >= 10 {
        out.append(digit_text(n / 10));
        out.append(digit_text(n % 10));
        proof {
            let n = n as nat;
            reveal_with_fuel(decimal, 2);
            assert(decimal(n) =~= seq![digit_char((n / 10) as int), digit_char((n % 10) as int)]);
            assert(out@ =~= start + decimal(n));
        }
    } else {
        out.append(digit_text(n));
    }
}

/// `n` in decimal.
pub fn decimal_text(n: u8) -> (r: String)
    ensures
        r@ == decimal(n as nat),
{
    let mut out = String::new();
    push_decimal(&mut out, n);
    assert(out@ =~= decimal(n as nat));
    out
}

/// The message of the `ordinal`-th of `total` commits of a day:
/// `#<ordinal>/<total>`.
pub fn commit_message(ordinal: u8, total: u8) -> (r: String)
    ensures
        r@ == message_text(ordinal as nat, total as nat),
{
    proof {
        reveal_strlit("#");
        reveal_strlit("/");
    }
    let mut out = String::from_str("#");
    push_decimal(&mut out, ordinal);
    out.append("/");
    push_decimal(&mut out, total);
    assert(out@ =~= message_text(ordinal as nat, total as nat));
    out
}

/// The percentage of the grid that lies before its `elapsed`-th day.
pub fn percent_complete(elapsed: u32) -> (r: u8)
    requires
        elapsed <= GRID_DAYS,
    ensures
        r == percent_of_grid(elapsed as int),
        r <= 100,
{
    (elapsed * 100 / GRID_DAYS) as u8
}

/// The progress line for a day, given the civil form of its date.
pub fn progress_line(percent: u8, date: &str) -> (r: String)
    ensures
        r@ == progress_text(percent as nat, date@),
{
    proof {
        reveal_strlit("  ");
        reveal_strlit(" ");
        reveal_strlit("% (");
        reveal_strlit(")");
    }
    let mut out = if percent < 10 {
        String::from_str("  ")
    } else if percent < 100 {
        String::from_str(" ")
    } else {
        String::new()
    };
    assert(out@ + decimal(percent as nat) =~= padded(percent as nat));
    push_decimal(&mut out, percent);
    out.append("% (");
    out.append(date);
    out.append(")");
    assert(out@ =~= progress_text(percent as nat, date@));
    out
}

/// The progress line for a day that is `date`, at `percent` of the grid. A
/// date without a civil form cannot be reported.
pub fn day_progress_line(percent: u8, date: Date) -> (r: Result<String, DrawError>)
    ensures
        match r {
            Ok(line) => civil_date_text(date@) matches Some(text) && line@ == progress_text(
                percent as nat,
                text,
            ),
            Err(e) => civil_date_text(date@) is None && e == DrawError::InternalError(
                InternalFault::DateUnprintable,
            ),
        },
{
    match civil_text(date.epoch_days()) {
        Some(text) => Ok(progress_line(percent, text.as_str())),
        None => Err(DrawError::InternalError(InternalFault::DateUnprintable)),
    }
}

} // verus!
