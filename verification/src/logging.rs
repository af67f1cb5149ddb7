//! Layout of the operation-log lines and of the timestamps in them.
//! Reading the clock and writing the log file happen outside the library;
//! it is handed the calendar fields as plain values.

use vstd::prelude::*;
use vstd::string::StringExecFns;

verus! {

/// A wall-clock instant broken into its calendar fields.
#[derive(Clone, Copy, PartialEq, Eq, Structural, Debug)]
pub struct Timestamp {
    pub year: u32,
    pub month: u32,
    pub day: u32,
    pub hour: u32,
    pub minute: u32,
    pub second: u32,
}

impl Timestamp {
    /// The fields form a plausible calendar instant and the year has at
    /// most four digits.
    pub open spec fn wf(self) -> bool {
        &&& self.year <= 9999
        &&& 1 <= self.month <= 12
        &&& 1 <= self.day <= 31
        &&& self.hour < 24
        &&& self.minute < 60
        &&& self.second < 60
    }
}

/// The decimal digit `d` as one character of text.
pub open spec fn spec_digit(d: int) -> Seq<char> {
    if d == 0 {
        "0"@
    } else if d == 1 {
        "1"@
    } else if d == 2 {
        "2"@
    } else if d == 3 {
        "3"@
    } else if d == 4 {
        "4"@
    } else if d == 5 {
        "5"@
    } else if d == 6 {
        "6"@
    } else if d == 7 {
        "7"@
    } else if d == 8 {
        "8"@
    } else {
        "9"@
    }
}

/// `n` in decimal, zero-padded to two digits.
pub open spec fn spec_pad2(n: int) -> Seq<char> {
    spec_digit(n / 10) + spec_digit(n % 10)
}

/// `n` in decimal, zero-padded to four digits.
pub open spec fn spec_pad4(n: int) -> Seq<char> {
    spec_digit(n / 1000) + spec_digit((n / 100) % 10) + spec_digit((n / 10) % 10) + spec_digit(
        n % 10,
    )
}

/// The timestamp as `YYYY-MM-DD hh:mm:ss`.
pub open spec fn spec_timestamp(t: Timestamp) -> Seq<char> {
    spec_pad4(t.year as int) + "-"@ + spec_pad2(t.month as int) + "-"@ + spec_pad2(t.day as int)
        + " "@ + spec_pad2(t.hour as int) + ":"@ + spec_pad2(t.minute as int) + ":"@ + spec_pad2(
        t.second as int,
    )
}

/// The date of the timestamp as `YYYYMMDD`, the name stem of a day's log
/// file.
pub open spec fn spec_log_date(t: Timestamp) -> Seq<char> {
    spec_pad4(t.year as int) + spec_pad2(t.month as int) + spec_pad2(t.day as int)
}

/// The decimal digit `d` as text.
fn digit_str(d: u32) -> (r: &'static str)
    requires
        d < 10,
    ensures
        r@ == spec_digit(d as int),
{
    match d {
        0 => "0",
        1 => "1",
        2 => "2",
        3 => "3",
        4 => "4",
        5 => "5",
        6 => "6",
        7 => "7",
        8 => "8",
        _ => "9",
    }
}

/// `n` zero-padded to two digits.
fn pad2(n: u32) -> (r: String)
    requires
        n < 100,
    ensures
        r@ == spec_pad2(n as int),
{
    String::from_str(digit_str(n / 10)).concat(digit_str(n % 10))
}

/// `n` zero-padded to four digits.
fn pad4(n: u32) -> (r: String)
    requires
        n <= 9999,
    ensures
        r@ == spec_pad4(n as int),
{
    String::from_str(digit_str(n / 1000)).concat(digit_str((n / 100) % 10)).concat(
        digit_str((n / 10) % 10),
    ).concat(digit_str(n % 10))
}

/// The timestamp as `YYYY-MM-DD hh:mm:ss`.
pub fn format_timestamp(t: &Timestamp) -> (r: String)
    requires
        t.wf(),
    ensures
        r@ == spec_timestamp(*t),
{
    pad4(t.year).concat("-").concat(pad2(t.month).as_str()).concat("-").concat(
        pad2(t.day).as_str(),
    ).concat(" ").concat(pad2(t.hour).as_str()).concat(":").concat(pad2(t.minute).as_str()).concat(
        ":",
    ).concat(pad2(t.second).as_str())
}

/// The date part as `YYYYMMDD`.
pub fn format_log_date(t: &Timestamp) -> (r: String)
    requires
        t.wf(),
    ensures
        r@ == spec_log_date(*t),
{
    pad4(t.year).concat(pad2(t.month).as_str()).concat(pad2(t.day).as_str())
}

/// One log line: timestamp, user, action and result, each in its own
/// bracketed column but the last.
pub fn format_log_line(ts: &str, user: &str, action: &str, result: &str) -> (r: String)
    ensures
        r@ == "["@ + ts@ + "] ["@ + user@ + "] ["@ + action@ + "] "@ + result@,
{
    String::from_str("[").concat(ts).concat("] [").concat(user).concat("] [").concat(
        action,
    ).concat("] ").concat(result)
}

} // verus!
