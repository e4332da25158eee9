//! Where a day's report is found: the date that a run asks for and the
//! address of the feed that holds it.

use crate::record::Chamber;
use crate::text::{chars_of, string_of};
use std::fmt::Write;
use vstd::prelude::*;
use vstd::string::StringExecFns;

verus! {

/// How many days a filing takes to show up in the feed.
pub const REPORT_LAG_DAYS: u64 = 4;

/// The layout in which the feed writes a date, before its hyphens become
/// underscores: month, day, year.
pub const DATE_LAYOUT: &'static str = "%m-%d-%Y";

/// A day of the calendar.
#[derive(Clone, Copy, Debug, PartialEq, Eq, Structural)]
pub struct CalendarDate {
    pub year: i32,
    pub month: u32,
    pub day: u32,
}

/// The calendar day that lies `days` days before the given one, as
/// `(year, month, day)`; none where the given triple is no day of the
/// calendar or the earlier day is out of the calendar's range.
pub uninterp spec fn calendar_days_before(year: int, month: int, day: int, days: int) -> Option<
    (int, int, int),
>;

/// The given calendar day written in `layout`; none where the triple is no
/// day of the calendar or `layout` is no layout.
pub uninterp spec fn calendar_text(year: int, month: int, day: int, layout: Seq<char>) -> Option<
    Seq<char>,
>;

/// `chrono::NaiveDate::checked_sub_days` on the date that
/// `NaiveDate::from_ymd_opt` makes of the triple; the result is taken apart
/// with `Datelike::year`, `month` and `day`. The contract only names that
/// result.
#[verifier::external_body]
fn days_before(year: i32, month: u32, day: u32, days: u64) -> (earlier: Option<(i32, u32, u32)>)
    ensures
        match earlier {
            Some((y, m, d)) => calendar_days_before(
                year as int,
                month as int,
                day as int,
                days as int,
            ) == Some((y as int, m as int, d as int)),
            None => calendar_days_before(year as int, month as int, day as int, days as int)
                is None,
        },
{
    let date = chrono::NaiveDate::from_ymd_opt(year, month, day)?;
    let earlier = date.checked_sub_days(chrono::Days::new(days))?;
    Some(
        (
            chrono::Datelike::year(&earlier),
            chrono::Datelike::month(&earlier),
            chrono::Datelike::day(&earlier),
        ),
    )
}

/// `chrono::NaiveDate::format` on the date that `NaiveDate::from_ymd_opt`
/// makes of the triple, written out. The contract only names that result.
#[verifier::external_body]
fn date_text(year: i32, month: u32, day: u32, layout: &str) -> (text: Option<String>)
    ensures
        match text {
            Some(t) => calendar_text(year as int, month as int, day as int, layout@) == Some(t@),
            None => calendar_text(year as int, month as int, day as int, layout@) is None,
        },
{
    let date = chrono::NaiveDate::from_ymd_opt(year, month, day)?;
    let mut text = String::new();
    write!(text, "{}", date.format(layout)).ok()?;
    Some(text)
}

/// The day whose report a run on `today` asks for: the day that lies the
/// report lag before it.
pub open spec fn spec_report_date(today: CalendarDate) -> Option<CalendarDate> {
    match calendar_days_before(
        today.year as int,
        today.month as int,
        today.day as int,
        REPORT_LAG_DAYS as int,
    ) {
        Some((y, m, d)) => Some(CalendarDate { year: y as i32, month: m as u32, day: d as u32 }),
        None => None,
    }
}

/// The day whose report a run on `today` asks for.
pub fn report_date(today: CalendarDate) -> (date: Option<CalendarDate>)
    ensures
        date == spec_report_date(today),
{
    match days_before(today.year, today.month, today.day, REPORT_LAG_DAYS) {
        Some((year, month, day)) => Some(CalendarDate { year, month, day }),
        None => None,
    }
}

/// `text` with every hyphen turned into an underscore.
pub open spec fn spec_underscored(text: Seq<char>) -> Seq<char> {
    text.map_values(
        |c: char|
            if c == '-' {
                '_'
            } else {
                c
            },
    )
}

/// Turns every hyphen of `text` into an underscore.
pub fn underscored(text: &str) -> (out: String)
    ensures
        out@ == spec_underscored(text@),
{
    let chars = chars_of(text);
    let mut turned: Vec<char> = Vec::new();
    let mut i: usize = 0;
    while i < chars.len()
        invariant
            i <= chars.len(),
            chars@ == text@,
            turned@ == spec_underscored(text@).take(i as int),
        decreases chars.len() - i,
    {
        let c = chars[i];
        turned.push(
            if c == '-' {
                '_'
            } else {
                c
            },
        );
        assert(turned@ == spec_underscored(text@).take(i + 1));
        i += 1;
    }
    assert(spec_underscored(text@).take(chars.len() as int) == spec_underscored(text@));
    string_of(&turned)
}

/// The name under which the feed files the report of `date`: the date in
/// the feed's layout, with underscores for hyphens.
pub open spec fn spec_date_key(date: CalendarDate) -> Option<Seq<char>> {
    match calendar_text(date.year as int, date.month as int, date.day as int, DATE_LAYOUT@) {
        Some(text) => Some(spec_underscored(text)),
        None => None,
    }
}

/// The name under which the feed files the report of `date`.
pub fn date_key(date: CalendarDate) -> (key: Option<String>)
    ensures
        match key {
            Some(k) => spec_date_key(date) == Some(k@),
            None => spec_date_key(date) is None,
        },
{
    match date_text(date.year, date.month, date.day, DATE_LAYOUT) {
        Some(text) => Some(underscored(text.as_str())),
        None => None,
    }
}

/// The address of a chamber's report filed under `key`.
pub open spec fn spec_feed_url(chamber: Chamber, key: Seq<char>) -> Seq<char> {
    "http://"@ + chamber.spec_name()
        + "-stock-watcher-data.s3-us-west-2.amazonaws.com/data/transaction_report_for_"@ + key
        + ".json"@
}

/// The address of a chamber's report filed under `key`.
pub fn feed_url(chamber: Chamber, key: &str) -> (url: String)
    ensures
        url@ == spec_feed_url(chamber, key@),
{
    let mut url = String::from_str("http://");
    url.append(chamber.name());
    url.append("-stock-watcher-data.s3-us-west-2.amazonaws.com/data/transaction_report_for_");
    url.append(key);
    url.append(".json");
    url
}

/// The address a run on `today` fetches: that of the chamber's report for
/// the day that lies the report lag before `today`.
pub open spec fn spec_report_url(chamber: Chamber, today: CalendarDate) -> Option<Seq<char>> {
    match spec_report_date(today) {
        Some(date) => match spec_date_key(date) {
            Some(key) => Some(spec_feed_url(chamber, key)),
            None => None,
        },
        None => None,
    }
}

/// The address a run on `today` fetches; none where `today` is no day of
/// the calendar.
pub fn report_url(chamber: Chamber, today: CalendarDate) -> (url: Option<String>)
    ensures
        match url {
            Some(u) => spec_report_url(chamber, today) == Some(u@),
            None => spec_report_url(chamber, today) is None,
        },
{
    let date = match report_date(today) {
        Some(date) => date,
        None => {
            return None;
        },
    };
    match date_key(date) {
        Some(key) => Some(feed_url(chamber, key.as_str())),
        None => None,
    }
}

} // verus!
