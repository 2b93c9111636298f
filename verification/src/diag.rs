//! Diagnostics line formatting.
//!
//! Every event the supervisor reports becomes one line of the form
//! `[YYYY-MM-DD HH:MM:SS] <message>`. The formatting is verified here; the
//! host appends the finished line to the log file and mirrors it to the
//! console. The wall clock itself is read through `chrono`.

use vstd::prelude::*;

use chrono::Datelike;
use chrono::Timelike;

use crate::lifecycle::StartupMode;
use crate::strutil::spec_two_digits;
use crate::strutil::spec_four_digits;
use crate::strutil::two_digit_string;
use crate::strutil::four_digit_string;

verus! {

/// Where the diagnostics log lives: a fixed temp path in development, a
/// file in the operating system's temp directory in production.
pub open spec fn spec_log_file_path(mode: StartupMode, temp_dir: Seq<char>) -> Seq<char> {
    match mode {
        StartupMode::Development => "/tmp/clientats-shell-dev.log"@,
        StartupMode::Production => temp_dir + "/clientats-shell.log"@,
    }
}

/// Resolve the log file path for a mode, given the temp directory.
pub fn log_file_path(mode: StartupMode, temp_dir: &str) -> (p: String)
    ensures
        p@ == spec_log_file_path(mode, temp_dir@),
{
    match mode {
        StartupMode::Development => "/tmp/clientats-shell-dev.log".to_owned(),
        StartupMode::Production => {
            let mut p = temp_dir.to_owned();
            p.append("/clientats-shell.log");
            p
        },
    }
}

/// A raw reading of the local wall clock, as plain calendar fields.
pub struct ClockReading {
    pub year: i32,
    pub month: u32,
    pub day: u32,
    pub hour: u32,
    pub minute: u32,
    pub second: u32,
}

/// Relies on chrono's `Local::now` and the `Datelike`/`Timelike` accessors:
/// `month` ranges over 1..=12, `day` over 1..=31, `hour` over 0..=23,
/// `minute` and `second` over 0..=59. The year carries no promise.
#[verifier::external_body]
fn now_local() -> (c: ClockReading)
    ensures
        1 <= c.month <= 12,
        1 <= c.day <= 31,
        c.hour <= 23,
        c.minute <= 59,
        c.second <= 59,
{
    let now = chrono::Local::now();
    ClockReading {
        year: now.year(),
        month: now.month(),
        day: now.day(),
        hour: now.hour(),
        minute: now.minute(),
        second: now.second(),
    }
}

/// A calendar timestamp the formatter can render: every field within the
/// range its column can hold.
#[derive(Clone, Copy, PartialEq, Eq, Structural, Debug)]
pub struct Timestamp {
    pub year: u16,
    pub month: u8,
    pub day: u8,
    pub hour: u8,
    pub minute: u8,
    pub second: u8,
}

impl Timestamp {
    /// The field ranges the `YYYY-MM-DD HH:MM:SS` rendering relies on.
    pub open spec fn wf(self) -> bool {
        &&& self.year <= 9999
        &&& 1 <= self.month <= 12
        &&& 1 <= self.day <= 31
        &&& self.hour <= 23
        &&& self.minute <= 59
        &&& self.second <= 59
    }

    /// Narrow a raw clock reading to a renderable timestamp. Only a year
    /// outside the four-digit range is rejected; the other fields are in
    /// range for every reading the clock wrapper can produce.
    pub fn from_clock(c: &ClockReading) -> (r: Option<Timestamp>)
        requires
            1 <= c.month <= 12,
            1 <= c.day <= 31,
            c.hour <= 23,
            c.minute <= 59,
            c.second <= 59,
        ensures
            (0 <= c.year <= 9999) <==> r is Some,
            (match r {
                Some(t) => {
                    &&& t.wf()
                    &&& t.year == c.year
                    &&& t.month == c.month
                    &&& t.day == c.day
                    &&& t.hour == c.hour
                    &&& t.minute == c.minute
                    &&& t.second == c.second
                },
                None => true,
            }),
    {
        if c.year >= 0 && c.year <= 9999 {
            Some(
                Timestamp {
                    year: c.year as u16,
                    month: c.month as u8,
                    day: c.day as u8,
                    hour: c.hour as u8,
                    minute: c.minute as u8,
                    second: c.second as u8,
                },
            )
        } else {
            None
        }
    }
}

/// The `YYYY-MM-DD HH:MM:SS` rendering of a timestamp.
pub open spec fn spec_timestamp_text(t: Timestamp) -> Seq<char> {
    spec_four_digits(t.year as nat) + "-"@ + spec_two_digits(t.month as nat) + "-"@
        + spec_two_digits(t.day as nat) + " "@ + spec_two_digits(t.hour as nat) + ":"@
        + spec_two_digits(t.minute as nat) + ":"@ + spec_two_digits(t.second as nat)
}

/// One diagnostics line: the bracketed timestamp, a space, the message.
pub open spec fn spec_log_line(t: Timestamp, msg: Seq<char>) -> Seq<char> {
    "["@ + spec_timestamp_text(t) + "] "@ + msg
}

/// Render a timestamp as `YYYY-MM-DD HH:MM:SS`.
pub fn timestamp_text(t: &Timestamp) -> (s: String)
    ensures
        s@ == spec_timestamp_text(*t),
{
    let mut s = four_digit_string(t.year as u64);
    s.append("-");
    s.append(two_digit_string(t.month as u64).as_str());
    s.append("-");
    s.append(two_digit_string(t.day as u64).as_str());
    s.append(" ");
    s.append(two_digit_string(t.hour as u64).as_str());
    s.append(":");
    s.append(two_digit_string(t.minute as u64).as_str());
    s.append(":");
    s.append(two_digit_string(t.second as u64).as_str());
    assert(s@ =~= spec_timestamp_text(*t));
    s
}

/// Render one diagnostics line for a timestamp and a message.
pub fn log_line(t: &Timestamp, msg: &str) -> (s: String)
    ensures
        s@ == spec_log_line(*t, msg@),
{
    let mut s = "[".to_owned();
    s.append(timestamp_text(t).as_str());
    s.append("] ");
    s.append(msg);
    assert(s@ =~= spec_log_line(*t, msg@));
    s
}

/// Render one diagnostics line stamped with the current local time. The
/// result is `None` only when the clock reports a year the four-digit
/// column cannot hold.
pub fn current_log_line(msg: &str) -> (r: Option<String>)
    ensures
        (match r {
            Some(s) => exists|t: Timestamp| t.wf() && s@ == spec_log_line(t, msg@),
            None => true,
        }),
{
    let c = now_local();
    match Timestamp::from_clock(&c) {
        Some(t) => {
            let s = log_line(&t, msg);
            proof {
                assert(t.wf() && s@ == spec_log_line(t, msg@));
            }
            Some(s)
        },
        None => None,
    }
}

} // verus!
