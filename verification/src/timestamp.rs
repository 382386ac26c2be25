//! Calendar timestamps reduced to the plain fields that receipt rendering
//! needs, and their rendering as `Month Day, hour:minute:second AM/PM`.

use vstd::prelude::*;
use vstd::utf8::encode_utf8;
use crate::bytebuf::push_bytes;
use chrono::Datelike;
use chrono::Timelike;

verus! {

/// The creation time of a print job, as plain calendar fields.
#[derive(Clone, Copy, PartialEq, Eq, Structural, Debug)]
pub struct Timestamp {
    pub month: u8,
    pub day: u8,
    pub hour: u8,
    pub minute: u8,
    pub second: u8,
}

impl Timestamp {
    /// Field ranges of a real calendar time.
    pub open spec fn wf(self) -> bool {
        &&& 1 <= self.month <= 12
        &&& 1 <= self.day <= 31
        &&& self.hour <= 23
        &&& self.minute <= 59
        &&& self.second <= 59
    }
}

/// The two decimal digits of `n`, zero-padded, as bytes.
pub open spec fn two_digits(n: u8) -> Seq<u8>
    recommends
        n <= 99,
{
    seq![(0x30 + n / 10) as u8, (0x30 + n % 10) as u8]
}

/// The day of the month, space-padded to two columns.
pub open spec fn padded_day(d: u8) -> Seq<u8>
    recommends
        1 <= d <= 31,
{
    if d < 10 {
        seq![0x20u8, (0x30 + d) as u8]
    } else {
        two_digits(d)
    }
}

/// The English name of month `m`, as a character sequence.
pub open spec fn month_name(m: u8) -> Seq<char>
    recommends
        1 <= m <= 12,
{
    if m == 1 {
        "January"@
    } else if m == 2 {
        "February"@
    } else if m == 3 {
        "March"@
    } else if m == 4 {
        "April"@
    } else if m == 5 {
        "May"@
    } else if m == 6 {
        "June"@
    } else if m == 7 {
        "July"@
    } else if m == 8 {
        "August"@
    } else if m == 9 {
        "September"@
    } else if m == 10 {
        "October"@
    } else if m == 11 {
        "November"@
    } else {
        "December"@
    }
}

/// The hour on a 12-hour clock: 12 for 0 and 12, else the hour modulo 12.
pub open spec fn hour_12(h: u8) -> u8 {
    if h % 12 == 0 {
        12
    } else {
        (h % 12) as u8
    }
}

/// The date part of the rendering: month name, a space, the padded day.
pub open spec fn date_bytes(ts: Timestamp) -> Seq<u8> {
    encode_utf8(month_name(ts.month)) + seq![0x20u8] + padded_day(ts.day)
}

/// The clock part of the rendering: 12-hour time and an AM/PM marker.
pub open spec fn time_bytes(ts: Timestamp) -> Seq<u8> {
    two_digits(hour_12(ts.hour)) + seq![0x3Au8] + two_digits(ts.minute) + seq![0x3Au8]
        + two_digits(ts.second) + (if ts.hour < 12 {
        encode_utf8(" AM"@)
    } else {
        encode_utf8(" PM"@)
    })
}

/// The rendered timestamp: date, a comma, and the 12-hour clock time.
pub open spec fn stamp_bytes(ts: Timestamp) -> Seq<u8> {
    date_bytes(ts) + encode_utf8(", "@) + time_bytes(ts)
}

/// The calendar fields that an RFC 3339 date-and-time string denotes, or
/// nothing when the string is not a valid RFC 3339 timestamp. The value
/// depends on the characters of the string alone.
pub uninterp spec fn rfc3339_stamp(s: Seq<char>) -> Option<Timestamp>;

/// Relies on chrono's `DateTime::parse_from_rfc3339`, which deterministically
/// parses an RFC 3339 string with its own offset, and on the documented
/// ranges of the `Datelike`/`Timelike` accessors (month 1-12, day 1-31,
/// hour 0-23, minute 0-59, second 0-59).
#[verifier::external_body]
pub(crate) fn parse_rfc3339(s: &str) -> (r: Option<Timestamp>)
    ensures
        r == rfc3339_stamp(s@),
        r matches Some(t) ==> t.wf(),
{
    match chrono::DateTime::parse_from_rfc3339(s) {
        Ok(dt) => Some(Timestamp {
            month: dt.month() as u8,
            day: dt.day() as u8,
            hour: dt.hour() as u8,
            minute: dt.minute() as u8,
            second: dt.second() as u8,
        }),
        Err(_) => None,
    }
}

/// Append the two zero-padded decimal digits of `n` to `out`.
fn push_two_digits(out: &mut Vec<u8>, n: u8)
    ensures
        final(out)@ == old(out)@ + two_digits(n),
{
    out.push(0x30 + n / 10);
    out.push(0x30 + n % 10);
    proof {
        assert(out@ =~= old(out)@ + two_digits(n));
    }
}

/// Append the English month name for `m` to `out`.
fn push_month_name(out: &mut Vec<u8>, m: u8)
    ensures
        final(out)@ == old(out)@ + encode_utf8(month_name(m)),
{
    if m == 1 {
        push_bytes(out, "January".as_bytes());
    } else if m == 2 {
        push_bytes(out, "February".as_bytes());
    } else if m == 3 {
        push_bytes(out, "March".as_bytes());
    } else if m == 4 {
        push_bytes(out, "April".as_bytes());
    } else if m == 5 {
        push_bytes(out, "May".as_bytes());
    } else if m == 6 {
        push_bytes(out, "June".as_bytes());
    } else if m == 7 {
        push_bytes(out, "July".as_bytes());
    } else if m == 8 {
        push_bytes(out, "August".as_bytes());
    } else if m == 9 {
        push_bytes(out, "September".as_bytes());
    } else if m == 10 {
        push_bytes(out, "October".as_bytes());
    } else if m == 11 {
        push_bytes(out, "November".as_bytes());
    } else {
        push_bytes(out, "December".as_bytes());
    }
}

/// Append the date part of the rendering to `out`.
fn push_date(out: &mut Vec<u8>, ts: &Timestamp)
    ensures
        final(out)@ == old(out)@ + date_bytes(*ts),
{
    push_month_name(out, ts.month);
    out.push(0x20);
    if ts.day < 10 {
        out.push(0x20);
        out.push(0x30 + ts.day);
    } else {
        push_two_digits(out, ts.day);
    }
    proof {
        assert(out@ =~= old(out)@ + date_bytes(*ts));
    }
}

/// Append the clock part of the rendering to `out`.
fn push_time(out: &mut Vec<u8>, ts: &Timestamp)
    ensures
        final(out)@ == old(out)@ + time_bytes(*ts),
{
    let h12: u8 = if ts.hour % 12 == 0 {
        12
    } else {
        ts.hour % 12
    };
    push_two_digits(out, h12);
    out.push(0x3A);
    push_two_digits(out, ts.minute);
    out.push(0x3A);
    push_two_digits(out, ts.second);
    if ts.hour < 12 {
        push_bytes(out, " AM".as_bytes());
    } else {
        push_bytes(out, " PM".as_bytes());
    }
    proof {
        assert(out@ =~= old(out)@ + time_bytes(*ts));
    }
}

/// Append the rendered timestamp to `out`.
pub fn push_stamp(out: &mut Vec<u8>, ts: &Timestamp)
    ensures
        final(out)@ == old(out)@ + stamp_bytes(*ts),
{
    push_date(out, ts);
    push_bytes(out, ", ".as_bytes());
    push_time(out, ts);
    proof {
        assert(out@ =~= old(out)@ + stamp_bytes(*ts));
    }
}

} // verus!
