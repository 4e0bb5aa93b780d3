use crate::text::{push_padded2, push_padded4, zero_padded};
use chrono::{DateTime, Datelike};
use chrono_tz::Asia::Seoul;
use vstd::prelude::*;

verus! {

/// A calendar date as year, month and day.
#[derive(Clone, Copy, Debug, PartialEq, Eq)]
pub struct CivilDate {
    pub year: i32,
    pub month: u32,
    pub day: u32,
}

impl CivilDate {
    /// Month and day lie in their calendar ranges and the year in the
    /// range of dates that chrono represents, widened by the one day that a
    /// time-zone offset may carry a date past either end.
    pub open spec fn wf(&self) -> bool {
        &&& 1 <= self.month <= 12
        &&& 1 <= self.day <= 31
        &&& -262144 <= self.year <= 262143
    }
}

/// A year as `%Y` writes it: four digits with leading zeros inside
/// 0..=9999, otherwise a sign followed by at least four digits.
pub open spec fn year_text(y: int) -> Seq<char> {
    if 0 <= y <= 9999 {
        zero_padded(y as nat, 4)
    } else if y < 0 {
        seq!['-'] + zero_padded((-y) as nat, 4)
    } else {
        seq!['+'] + zero_padded(y as nat, 4)
    }
}

/// A date as `%Y-%m-%d` writes it.
pub open spec fn date_text(d: CivilDate) -> Seq<char> {
    year_text(d.year as int) + seq!['-'] + zero_padded(d.month as nat, 2) + seq!['-'] + zero_padded(
        d.day as nat,
        2,
    )
}

/// The date as `YYYY-MM-DD`, the form the upstream `date` parameter takes.
pub fn format_ymd(d: &CivilDate) -> (r: String)
    ensures
        r@ == date_text(*d),
{
    proof {
        reveal_strlit("-");
        reveal_strlit("+");
    }
    let mut out = String::new();
    if 0 <= d.year && d.year <= 9999 {
        push_padded4(&mut out, d.year as u32);
    } else if d.year < 0 {
        out.append("-");
        let m: u32 = if d.year == i32::MIN {
            2147483648u32
        } else {
            (-d.year) as u32
        };
        push_padded4(&mut out, m);
    } else {
        out.append("+");
        push_padded4(&mut out, d.year as u32);
    }
    assert(out@ =~= year_text(d.year as int));
    out.append("-");
    push_padded2(&mut out, d.month);
    out.append("-");
    push_padded2(&mut out, d.day);
    assert(out@ =~= date_text(*d));
    out
}

/// Relies on std's `SystemTime::elapsed`, applied to `UNIX_EPOCH`: the
/// whole seconds since 1970, or `None` when the system clock reads earlier.
/// Nothing is promised of the value: it is the time now.
#[verifier::external_body]
fn unix_seconds() -> (r: Option<u64>) {
    std::time::UNIX_EPOCH.elapsed().ok().map(|d| d.as_secs())
}

/// The calendar date in Seoul at a Unix time, as chrono and chrono-tz
/// compute it.
pub uninterp spec fn seoul_date(secs: int) -> CivilDate;

/// Dated queries ask for the day before now: this many seconds earlier.
pub const QUERY_LAG_SECS: i64 = 86400;

/// Relies on chrono's `DateTime::from_timestamp` and `Datelike`, with
/// chrono-tz's `Asia/Seoul`: the calendar date in Seoul at the given Unix
/// time, which depends on that time alone, or `None` when the time lies
/// outside chrono's range. chrono's months run 1..=12, its days 1..=31, and
/// the local date's year stays within the range stated in `CivilDate::wf`.
#[verifier::external_body]
fn seoul_date_of(secs: i64) -> (r: Option<CivilDate>)
    ensures
        r.is_some() ==> r.unwrap() == seoul_date(secs as int) && r.unwrap().wf(),
{
    let local = DateTime::from_timestamp(secs, 0)?.with_timezone(&Seoul);
    Some(CivilDate { year: local.year(), month: local.month(), day: local.day() })
}

/// The Seoul date one day before the given Unix time; `None` when that time
/// does not fit a signed 64-bit count or lies outside chrono's range.
pub fn date_before(secs: u64) -> (r: Option<CivilDate>)
    ensures
        r.is_some() ==> r.unwrap() == seoul_date(secs - QUERY_LAG_SECS) && r.unwrap().wf(),
        secs > i64::MAX ==> r.is_none(),
{
    if secs > i64::MAX as u64 {
        return None;
    }
    seoul_date_of(secs as i64 - QUERY_LAG_SECS)
}

/// The date that dated upstream queries use: the Seoul date one day before
/// now. `None` when the system clock cannot give it.
pub fn query_date() -> (r: Option<CivilDate>)
    ensures
        r.is_some() ==> r.unwrap().wf() && exists|now: int|
            #[trigger] seoul_date(now - QUERY_LAG_SECS) == r.unwrap(),
{
    match unix_seconds() {
        Some(secs) => date_before(secs),
        None => None,
    }
}

} // verus!
