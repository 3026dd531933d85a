use vstd::prelude::*;
use crate::text::push_char;

verus! {

/// The decimal digit character for `d` (0 to 9).
pub open spec fn digit_char(d: int) -> char {
    if d == 0 {
        '0'
    } else if d == 1 {
        '1'
    } else if d == 2 {
        '2'
    } else if d == 3 {
        '3'
    } else if d == 4 {
        '4'
    } else if d == 5 {
        '5'
    } else if d == 6 {
        '6'
    } else if d == 7 {
        '7'
    } else if d == 8 {
        '8'
    } else {
        '9'
    }
}

/// `n` (below 100) written with two decimal digits.
pub open spec fn two_digits(n: int) -> Seq<char> {
    seq![digit_char(n / 10), digit_char(n % 10)]
}

/// The wall-clock text "HH:MM:SS" (UTC) for a time given in seconds since
/// the Unix epoch, or "00:00:00" when the time is not known.
pub open spec fn time_text(since_epoch: Option<u64>) -> Seq<char> {
    match since_epoch {
        None => seq!['0', '0', ':', '0', '0', ':', '0', '0'],
        Some(secs) => two_digits(((secs / 3600) % 24) as int) + seq![':'] + two_digits(
            ((secs / 60) % 60) as int,
        ) + seq![':'] + two_digits((secs % 60) as int),
    }
}

fn digit(d: u64) -> (c: char)
    requires
        d < 10,
    ensures
        c == digit_char(d as int),
{
    if d == 0 {
        '0'
    } else if d == 1 {
        '1'
    } else if d == 2 {
        '2'
    } else if d == 3 {
        '3'
    } else if d == 4 {
        '4'
    } else if d == 5 {
        '5'
    } else if d == 6 {
        '6'
    } else if d == 7 {
        '7'
    } else if d == 8 {
        '8'
    } else {
        '9'
    }
}

fn push_two_digits(s: &mut String, n: u64)
    requires
        n < 100,
    ensures
        final(s)@ == old(s)@ + two_digits(n as int),
{
    push_char(s, digit(n / 10));
    push_char(s, digit(n % 10));
}

/// The clock text for a time in seconds since the Unix epoch ("00:00:00"
/// when the time is not known).
pub fn format_time(since_epoch: Option<u64>) -> (r: String)
    ensures
        r@ == time_text(since_epoch),
{
    let mut s = String::new();
    match since_epoch {
        None => {
            push_two_digits(&mut s, 0);
            push_char(&mut s, ':');
            push_two_digits(&mut s, 0);
            push_char(&mut s, ':');
            push_two_digits(&mut s, 0);
        },
        Some(secs) => {
            push_two_digits(&mut s, (secs / 3600) % 24);
            push_char(&mut s, ':');
            push_two_digits(&mut s, (secs / 60) % 60);
            push_char(&mut s, ':');
            push_two_digits(&mut s, secs % 60);
        },
    }
    assert(s@ =~= time_text(since_epoch));
    s
}

/// Seconds since the Unix epoch on the system clock
/// (`SystemTime::now().duration_since(UNIX_EPOCH)`), `None` when the clock
/// is set before the epoch. The value depends on when it is called, so
/// nothing is stated of it.
#[verifier::external_body]
fn unix_seconds() -> (r: Option<u64>) {
    match std::time::SystemTime::now().duration_since(std::time::UNIX_EPOCH) {
        Ok(duration) => Some(duration.as_secs()),
        Err(_) => None,
    }
}

/// The current UTC time of day as "HH:MM:SS" ("00:00:00" when the system
/// clock is set before 1970).
pub fn get_current_time() -> (r: String)
    ensures
        exists|t: Option<u64>| r@ == time_text(t),
{
    let now = unix_seconds();
    format_time(now)
}

/// The clock text is always eight characters with colons in the third and
/// sixth place, and it repeats every day.
pub proof fn time_text_is_daily(secs: u64)
    requires
        secs + 86400 <= u64::MAX,
    ensures
        time_text(Some(secs)).len() == 8,
        time_text(Some(secs))[2] == ':',
        time_text(Some(secs))[5] == ':',
        time_text(Some(secs)) == time_text(Some((secs + 86400) as u64)),
{
    let later = (secs + 86400) as u64;
    assert((later / 3600) % 24 == (secs / 3600) % 24) by (nonlinear_arith)
        requires later == secs + 86400;
    assert((later / 60) % 60 == (secs / 60) % 60) by (nonlinear_arith)
        requires later == secs + 86400;
    assert(later % 60 == secs % 60) by (nonlinear_arith)
        requires later == secs + 86400;
}

} // verus!
