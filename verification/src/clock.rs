//! The wall clock, and timestamps as text.

use crate::text::{same_text, u64_text};
use vstd::prelude::*;

verus! {

/// `std::time::SystemTime`: a moment on the system's clock.
#[verifier::external_type_specification]
#[verifier::external_body]
pub struct ExSystemTime(std::time::SystemTime);

/// `std::time::SystemTimeError`: a moment that lies before the one it is measured from.
#[verifier::external_type_specification]
#[verifier::external_body]
pub struct ExSystemTimeError(std::time::SystemTimeError);

/// Whether the system's clock may show this moment when it is read. Two readings may differ.
pub uninterp spec fn may_be_now(t: std::time::SystemTime) -> bool;

/// Whether a moment is the epoch of Unix time.
pub uninterp spec fn is_epoch(t: std::time::SystemTime) -> bool;

/// The time from one moment to another, or an error where the other lies before it.
pub uninterp spec fn time_between(
    later: std::time::SystemTime,
    earlier: std::time::SystemTime,
) -> std::result::Result<std::time::Duration, std::time::SystemTimeError>;

/// The whole seconds of a duration.
pub uninterp spec fn whole_secs(d: std::time::Duration) -> u64;

/// `SystemTime::now`: a moment that the clock showed. Which one is not known beforehand.
pub assume_specification[ std::time::SystemTime::now ]() -> (r: std::time::SystemTime)
    ensures
        may_be_now(r),
;

/// `SystemTime::duration_since`: the time between both moments.
pub assume_specification[ std::time::SystemTime::duration_since ](
    now: &std::time::SystemTime,
    earlier: std::time::SystemTime,
) -> (r: std::result::Result<std::time::Duration, std::time::SystemTimeError>)
    ensures
        r == time_between(*now, earlier),
;

/// `Duration::as_secs`: the whole seconds.
pub assume_specification[ std::time::Duration::as_secs ](d: &std::time::Duration) -> (r: u64)
    ensures
        r == whole_secs(*d),
;

/// The constant `std::time::UNIX_EPOCH`.
#[verifier::external_body]
fn unix_epoch() -> (r: std::time::SystemTime)
    ensures
        is_epoch(r),
{
    std::time::UNIX_EPOCH
}

/// How a timestamp is shown.
#[derive(Clone, Copy, Debug, PartialEq, Eq, Structural)]
pub enum TimeDisplayMode {
    Unix,
    Local,
}

/// How a timestamp is shown, as the window names it.
#[derive(Clone, Copy, Debug, PartialEq, Eq, Structural)]
pub enum TimeMode {
    Local,
    Unix,
}

/// The seconds since the epoch, or zero where the clock stands before it.
pub open spec fn elapsed_or_zero(elapsed: Option<u64>) -> u64 {
    match elapsed {
        Some(s) => s,
        None => 0,
    }
}

/// The seconds since the epoch, or zero where the clock stands before it.
pub fn unix_seconds(elapsed: Option<u64>) -> (r: u64)
    ensures
        r == elapsed_or_zero(elapsed),
{
    match elapsed {
        Some(s) => s,
        None => 0,
    }
}

/// The whole seconds from one moment to another; none where the other lies before it.
pub open spec fn secs_between(later: std::time::SystemTime, earlier: std::time::SystemTime) -> Option<u64> {
    match time_between(later, earlier) {
        Ok(d) => Some(whole_secs(d)),
        Err(_) => None,
    }
}

/// Whether the clock may show this Unix time: it is that of a moment that the clock may
/// show.
pub open spec fn may_be_unix_now(secs: u64) -> bool {
    exists|t: std::time::SystemTime, e: std::time::SystemTime|
        may_be_now(t) && is_epoch(e) && secs == elapsed_or_zero(#[trigger] secs_between(t, e))
}

/// The current Unix time in seconds. What the clock shows is not known beforehand.
pub fn now_unix() -> (r: u64)
    ensures
        may_be_unix_now(r),
{
    let now = std::time::SystemTime::now();
    let epoch = unix_epoch();
    let elapsed: Option<u64> = match now.duration_since(epoch) {
        Ok(d) => Some(d.as_secs()),
        Err(_) => None,
    };
    let r: u64 = unix_seconds(elapsed);
    assert(r == elapsed_or_zero(secs_between(now, epoch)));
    r
}

/// Whether a calendar can show the moment: the years -262143 to 262142.
pub open spec fn on_calendar(secs: int) -> bool {
    -8_334_601_228_800 <= secs <= 8_210_266_876_799
}

/// Whether text ends like a date with its time: `-mm-dd HH:MM:SS` behind the year.
pub open spec fn dated(s: Seq<char>) -> bool {
    let n = s.len();
    &&& n >= 19
    &&& s[n - 15] == '-'
    &&& s[n - 12] == '-'
    &&& s[n - 9] == ' '
    &&& s[n - 6] == ':'
    &&& s[n - 3] == ':'
}

/// Whether a machine may show the moment so: there is a time zone in which this is its
/// local date and time. Machines in different zones show one moment differently.
pub uninterp spec fn may_show(secs: i64, text: Seq<char>) -> bool;

/// `chrono::TimeZone::timestamp_opt` of `chrono::Local`, its `single` result written with
/// `DateTime::format` as `%Y-%m-%d %H:%M:%S`. There is a text exactly where the calendar
/// reaches the moment; the month, day, hour, minute and second have two digits each
/// behind the year. Which hour is shown depends on the machine's time zone and is left
/// unsaid.
#[verifier::external_body]
fn local_text(secs: i64) -> (r: Option<String>)
    ensures
        r is Some <==> on_calendar(secs as int),
        r matches Some(t) ==> dated(t@) && may_show(secs, t@),
{
    chrono::TimeZone::timestamp_opt(&chrono::Local, secs, 0)
        .single()
        .map(|moment| moment.format("%Y-%m-%d %H:%M:%S").to_string())
}

/// A timestamp as a signed number of seconds: the upper half of the range counts back
/// from the epoch.
pub open spec fn signed_secs(ts: u64) -> int {
    if ts <= i64::MAX {
        ts as int
    } else {
        ts - 0x1_0000_0000_0000_0000
    }
}

fn to_signed(ts: u64) -> (r: i64)
    ensures
        r == signed_secs(ts),
{
    if ts <= 0x7fff_ffff_ffff_ffff {
        ts as i64
    } else {
        -((u64::MAX - ts) as i64) - 1
    }
}

/// The text of a timestamp in local time: that of the moment, or that of the epoch where
/// the calendar does not reach the moment.
pub fn pick_local(moment: Option<String>, epoch: Option<String>) -> (r: Option<String>)
    ensures
        r == (match moment {
            Some(t) => Some(t),
            None => epoch,
        }),
{
    match moment {
        Some(t) => Some(t),
        None => epoch,
    }
}

/// The moment that is shown for a timestamp: the epoch where the calendar does not reach
/// it.
pub open spec fn shown_moment(ts: u64) -> i64 {
    if on_calendar(signed_secs(ts)) {
        signed_secs(ts) as i64
    } else {
        0
    }
}

/// A timestamp in local time. A moment that the calendar does not reach is shown as the
/// epoch.
pub fn format_ts_local(ts: u64) -> (r: String)
    ensures
        dated(r@),
        may_show(shown_moment(ts), r@),
{
    let picked = pick_local(local_text(to_signed(ts)), local_text(0));
    match picked {
        Some(t) => t,
        None => {
            assert(false);
            String::new()
        },
    }
}

/// A Unix timestamp in local time.
pub fn format_unix_local(ts: u64) -> (r: String)
    ensures
        dated(r@),
        may_show(shown_moment(ts), r@),
{
    format_ts_local(ts)
}

impl TimeDisplayMode {
    pub open spec fn label_text(self) -> Seq<char> {
        match self {
            TimeDisplayMode::Unix => "Unix"@,
            TimeDisplayMode::Local => "Local"@,
        }
    }

    pub fn label(self) -> (r: &'static str)
        ensures
            r@ == self.label_text(),
    {
        match self {
            TimeDisplayMode::Unix => "Unix",
            TimeDisplayMode::Local => "Local",
        }
    }
}

impl TimeMode {
    pub open spec fn name_text(self) -> Seq<char> {
        match self {
            TimeMode::Local => "Local"@,
            TimeMode::Unix => "Unix"@,
        }
    }

    /// The mode of this name; every other text is local time.
    pub open spec fn named(s: Seq<char>) -> TimeMode {
        if s == "Unix"@ {
            TimeMode::Unix
        } else {
            TimeMode::Local
        }
    }

    pub fn from_str(s: &str) -> (r: Self)
        ensures
            r == TimeMode::named(s@),
    {
        if same_text(s, "Unix") {
            TimeMode::Unix
        } else {
            TimeMode::Local
        }
    }

    pub fn as_str(&self) -> (r: &'static str)
        ensures
            r@ == self.name_text(),
    {
        match self {
            TimeMode::Local => "Local",
            TimeMode::Unix => "Unix",
        }
    }

    pub open spec fn display_mode(self) -> TimeDisplayMode {
        match self {
            TimeMode::Local => TimeDisplayMode::Local,
            TimeMode::Unix => TimeDisplayMode::Unix,
        }
    }

    /// How the window's mode shows a timestamp.
    pub fn display(&self) -> (r: TimeDisplayMode)
        ensures
            r == self.display_mode(),
    {
        match self {
            TimeMode::Local => TimeDisplayMode::Local,
            TimeMode::Unix => TimeDisplayMode::Unix,
        }
    }
}

/// Whether a timestamp may be shown so: as its decimal digits, or as its local date and
/// time.
pub open spec fn shows(mode: TimeDisplayMode, ts: u64, text: Seq<char>) -> bool {
    match mode {
        TimeDisplayMode::Unix => text == crate::text::nat_text(ts as nat),
        TimeDisplayMode::Local => dated(text) && may_show(shown_moment(ts), text),
    }
}

/// A timestamp as text: its decimal digits, or the local date and time.
pub fn format_ts(mode: TimeDisplayMode, ts: u64) -> (r: String)
    ensures
        shows(mode, ts, r@),
{
    match mode {
        TimeDisplayMode::Unix => u64_text(ts),
        TimeDisplayMode::Local => format_ts_local(ts),
    }
}

/// A mode reads back from its own name.
pub proof fn law_time_mode_reads_back(m: TimeMode)
    ensures
        TimeMode::named(m.name_text()) == m,
{
    reveal_strlit("Unix");
    reveal_strlit("Local");
    assert("Unix"@.len() != "Local"@.len());
}

/// In Unix time a timestamp reads back from its text.
pub proof fn law_unix_time_reads_back(ts: u64, text: Seq<char>)
    requires
        shows(TimeDisplayMode::Unix, ts, text),
    ensures
        crate::text::parsed_u64(text) == Some(ts),
{
    crate::text::law_u64_reads_back(ts);
}

/// A timestamp that the calendar reaches is shown as its own moment; seconds beyond the signed
/// range count back from the epoch, and what no calendar reaches is shown as the epoch.
pub proof fn law_moments_are_their_seconds(ts: u64)
    ensures
        ts <= 8_210_266_876_799 ==> shown_moment(ts) == ts,
        8_210_266_876_799 < ts <= 0x7fff_ffff_ffff_ffff ==> shown_moment(ts) == 0,
        ts >= 0xffff_f86b_730d_ee00 ==> shown_moment(ts) + 0x1_0000_0000_0000_0000 == ts,
        0x7fff_ffff_ffff_ffff < ts < 0xffff_f86b_730d_ee00 ==> shown_moment(ts) == 0,
{
}

} // verus!
