use vstd::prelude::*;

use crate::relevance::logs_dir_name;
use crate::sync::{commit_message, commit_message_spec};

verus! {

/// A decimal digit.
pub open spec fn is_digit(c: char) -> bool {
    '0' <= c <= '9'
}

/// Two decimal digits at positions `i` and `i + 1` of `s`.
pub open spec fn two_digits_at(s: Seq<char>, i: int) -> bool {
    0 <= i && i + 1 < s.len() && is_digit(s[i]) && is_digit(s[i + 1])
}

/// Text in the shape of a `%Y-%m-%d` date: a year of at least four digits
/// (the last four always digits, a sign before them outside years 0 to
/// 9999), a dash, two digits of month, a dash, two digits of day.
pub open spec fn is_date_text(s: Seq<char>) -> bool {
    let n = s.len() as int;
    &&& n >= 10
    &&& two_digits_at(s, n - 10)
    &&& two_digits_at(s, n - 8)
    &&& s[n - 6] == '-'
    &&& two_digits_at(s, n - 5)
    &&& s[n - 3] == '-'
    &&& two_digits_at(s, n - 2)
}

/// Text in the shape of a `%Y-%m-%d %H:%M:%S` time stamp: a date as
/// `is_date_text` says, a space, then hours, minutes and seconds of two digits
/// each, separated by colons.
pub open spec fn is_timestamp_text(s: Seq<char>) -> bool {
    let n = s.len() as int;
    &&& n >= 19
    &&& is_date_text(s.subrange(0, n - 9))
    &&& s[n - 9] == ' '
    &&& two_digits_at(s, n - 8)
    &&& s[n - 6] == ':'
    &&& two_digits_at(s, n - 5)
    &&& s[n - 3] == ':'
    &&& two_digits_at(s, n - 2)
}

/// Relies on chrono's `Local::now` and `DateTime::format`: the local time at
/// the moment of the call, written as the strftime pattern `fmt` says. Both
/// patterns admitted here are valid, so the formatting does not fail. chrono
/// writes `%Y` zero-padded to at least four digits (with a sign outside years
/// 0 to 9999) and `%m`, `%d`, `%H`, `%M`, `%S` zero-padded to two digits.
#[verifier::external_body]
fn local_now_formatted(fmt: &str) -> (r: String)
    requires
        fmt@ == "%Y-%m-%d"@ || fmt@ == "%Y-%m-%d %H:%M:%S"@,
    ensures
        fmt@ == "%Y-%m-%d"@ ==> is_date_text(r@),
        fmt@ == "%Y-%m-%d %H:%M:%S"@ ==> is_timestamp_text(r@),
{
    chrono::Local::now().format(fmt).to_string()
}

/// One line of the log: the bracketed time stamp, a space, the message.
pub open spec fn log_line_spec(stamp: Seq<char>, message: Seq<char>) -> Seq<char> {
    "["@ + stamp + "] "@ + message + "\n"@
}

/// One line of the log for `message` written at `stamp`.
pub fn log_line(stamp: &str, message: &str) -> (r: String)
    ensures
        r@ == log_line_spec(stamp@, message@),
{
    String::from_str("[").concat(stamp).concat("] ").concat(message).concat("\n")
}

/// The name of the log file of the day `date`.
pub open spec fn log_file_name_spec(date: Seq<char>) -> Seq<char> {
    date + ".log"@
}

/// The name of the log file of the day `date`.
pub fn log_file_name(date: &str) -> (r: String)
    ensures
        r@ == log_file_name_spec(date@),
{
    String::from_str(date).concat(".log")
}

/// The directory below the watched root that holds the log files.
pub fn log_dir_name() -> (r: String)
    ensures
        r@ == logs_dir_name(),
{
    String::from_str("logs")
}

/// One line of the log for `message`, stamped with the local time now.
pub fn timestamped_log_line(message: &str) -> (r: String)
    ensures
        exists|stamp: Seq<char>| is_timestamp_text(stamp) && r@ == log_line_spec(stamp, message@),
{
    let stamp = local_now_formatted("%Y-%m-%d %H:%M:%S");
    log_line(stamp.as_str(), message)
}

/// The name of today's log file, by the local date now.
pub fn todays_log_file_name() -> (r: String)
    ensures
        exists|date: Seq<char>| is_date_text(date) && r@ == log_file_name_spec(date),
{
    let date = local_now_formatted("%Y-%m-%d");
    log_file_name(date.as_str())
}

/// The commit message for a synchronization now, by the local time.
pub fn current_commit_message() -> (r: String)
    ensures
        exists|stamp: Seq<char>| is_timestamp_text(stamp) && r@ == commit_message_spec(stamp),
{
    let stamp = local_now_formatted("%Y-%m-%d %H:%M:%S");
    commit_message(stamp.as_str())
}

} // verus!
