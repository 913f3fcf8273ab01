//! Calendar days and instants, as the `jiff` crate reckons them. A day is
//! carried through as `jiff`'s own civil date; an instant is a number of whole
//! seconds since the Unix epoch.

use crate::text::{cat2, cat3, decimal, own, show, two_digits};
use jiff::civil::Date;
use jiff::ToSpan;
use vstd::prelude::*;

verus! {

/// A civil date of `jiff`.
#[verifier::external_type_specification]
#[verifier::external_body]
pub struct ExDate(jiff::civil::Date);

/// How many days a `jiff` span of days may hold.
pub const SPAN_DAYS: i64 = 7304484;

/// How many whole weeks fit into such a span.
pub const SPAN_WEEKS: i32 = 1043497;

/// `jiff::Timestamp::now().as_second()`: the wall clock. Nothing is promised of
/// it.
#[verifier::external_body]
pub(crate) fn now_second() -> (res: i64)
{
    jiff::Timestamp::now().as_second()
}

/// `jiff::Zoned::now().date()`: the day on the system's calendar. Nothing is
/// promised of it.
#[verifier::external_body]
pub(crate) fn today() -> (res: Date)
{
    jiff::Zoned::now().date()
}

/// What `jiff::civil::Date::checked_add` makes of a day and a span of `days`
/// days; `None` where it leaves the calendar.
pub uninterp spec fn day_plus(day: Date, days: int) -> Option<Date>;

/// `jiff::civil::Date::checked_add` with a span of days: a function of the day
/// and the number. A span of more than 7304484 days either way makes `jiff`
/// panic, so it is left out.
#[verifier::external_body]
pub(crate) fn add_days(day: Date, days: i64) -> (res: Option<Date>)
    requires
        -SPAN_DAYS <= days <= SPAN_DAYS,
    ensures
        res == day_plus(day, days as int),
{
    day.checked_add(days.days()).ok()
}

/// The ISO week-numbering year and the week of a day, as
/// `jiff::civil::Date::iso_week_date` gives them.
pub uninterp spec fn iso_week_of(day: Date) -> (i16, i8);

/// `jiff::civil::Date::iso_week_date`: a function of the day. Weeks are
/// numbered from 1 to 53, years from -9999 to 9999.
#[verifier::external_body]
pub(crate) fn iso_week(day: Date) -> (res: (i16, i8))
    ensures
        res == iso_week_of(day),
        -9999 <= res.0 <= 9999,
        1 <= res.1 <= 53,
{
    (day.iso_week_date().year(), day.iso_week_date().week())
}

/// The day of the month that `jiff::civil::Date::day` gives of a day.
pub uninterp spec fn month_day_of(day: Date) -> i8;

/// `jiff::civil::Date::day`: a function of the day, from 1 to 31.
#[verifier::external_body]
pub(crate) fn month_day(day: Date) -> (res: i8)
    ensures
        res == month_day_of(day),
        1 <= res <= 31,
{
    day.day()
}

/// What `jiff::civil::Date::strftime` makes of a day under a format.
pub uninterp spec fn day_text_of(day: Date, format: Seq<char>) -> Seq<char>;

/// `jiff::civil::Date::strftime`, shown as a text: a function of the day and
/// the format. Showing never fails: what `jiff` cannot fill from a day it leaves
/// in the text as written.
#[verifier::external_body]
pub(crate) fn day_text(day: Date, format: &str) -> (res: String)
    ensures
        res@ == day_text_of(day, format@),
{
    day.strftime(format).to_string()
}

/// What `jiff::Timestamp::strftime` makes of an instant under a format; `None`
/// where `jiff` has no such instant.
pub uninterp spec fn instant_text_of(second: int, format: Seq<char>) -> Option<Seq<char>>;

/// The view of an optional text.
pub open spec fn text_view(s: Option<String>) -> Option<Seq<char>> {
    match s {
        Some(x) => Some(x@),
        None => None,
    }
}

/// `jiff::Timestamp::strftime`, shown as a text in UTC: a function of the
/// instant and the format. An instant outside `jiff`'s range has none. Showing
/// never fails: a directive that `jiff` does not know it leaves in the text as
/// written.
#[verifier::external_body]
pub(crate) fn instant_text(second: i64, format: &str) -> (res: Option<String>)
    ensures
        text_view(res) == instant_text_of(second as int, format@),
{
    jiff::Timestamp::from_second(second).ok().map(|t| t.strftime(format).to_string())
}

/// The text of an instant, empty where `jiff` has none.
pub open spec fn stamp_text(second: int, format: Seq<char>) -> Seq<char> {
    match instant_text_of(second, format) {
        Some(t) => t,
        None => Seq::empty(),
    }
}

/// The text of an instant, empty where `jiff` has none.
pub fn stamp(second: i64, format: &str) -> (res: String)
    ensures
        res@ == stamp_text(second as int, format@),
{
    match instant_text(second, format) {
        Some(t) => t,
        None => String::new(),
    }
}

// ---- ISO weeks ----

/// A natural number as at least `width` digits, zeros in front.
pub open spec fn zero_padded(n: nat, width: nat) -> Seq<char> {
    if decimal(n).len() < width {
        Seq::new((width - decimal(n).len()) as nat, |i: int| '0') + decimal(n)
    } else {
        decimal(n)
    }
}

/// A number as at least `width` digits, zeros in front.
pub fn show_padded(n: u64, width: usize) -> (res: String)
    ensures
        res@ == zero_padded(n as nat, width as nat),
{
    use_padding(show(n), width)
}

fn use_padding(digits: String, width: usize) -> (res: String)
    ensures
        res@ == (if digits@.len() < width {
            Seq::new((width - digits@.len()) as nat, |i: int| '0') + digits@
        } else {
            digits@
        }),
{
    let len: usize = digits.as_str().unicode_len();
    let mut zeros = String::new();
    let mut i: usize = len;
    while i < width
        invariant
            len == digits@.len(),
            len <= i,
            i <= width || i == len,
            zeros@ == Seq::new((i - len) as nat, |j: int| '0'),
        decreases width - i,
    {
        zeros.push('0');
        i = i + 1;
        assert(zeros@ =~= Seq::new((i - len) as nat, |j: int| '0'));
    }
    if len < width {
        cat2(zeros.as_str(), digits.as_str())
    } else {
        digits
    }
}

/// A year as at least four columns, zeros behind the sign.
pub open spec fn year_text(year: int) -> Seq<char> {
    if year < 0 {
        seq!['-'] + zero_padded((-year) as nat, 3)
    } else {
        zero_padded(year as nat, 4)
    }
}

/// The `YYYY-Www` id of an ISO week.
pub open spec fn week_text(week: (i16, i8)) -> Seq<char> {
    year_text(week.0 as int) + "-W"@ + zero_padded(week.1 as nat, 2)
}

/// The `YYYY-Www` id of an ISO week.
pub fn week_id(week: (i16, i8)) -> (res: String)
    requires
        -9999 <= week.0 <= 9999,
        1 <= week.1 <= 53,
    ensures
        res@ == week_text(week),
{
    let year = if week.0 < 0 {
        let mut sign = String::new();
        sign.push('-');
        assert(sign@ =~= seq!['-']);
        cat2(sign.as_str(), show_padded((-week.0) as u64, 3).as_str())
    } else {
        show_padded(week.0 as u64, 4)
    };
    cat3(year.as_str(), "-W", show_padded(week.1 as u64, 2).as_str())
}

/// The ISO week `offset` weeks away from a day: the day itself stands in where
/// the calendar ends first.
pub open spec fn week_from(day: Date, offset: int) -> Seq<char> {
    let target = match day_plus(day, offset * 7) {
        Some(d) => d,
        None => day,
    };
    week_text(iso_week_of(target))
}

/// The ISO week `offset` weeks away from a day.
pub fn iso_week_from(day: Date, offset: i32) -> (res: String)
    requires
        -SPAN_WEEKS <= offset <= SPAN_WEEKS,
    ensures
        res@ == week_from(day, offset as int),
{
    let target = match add_days(day, offset as i64 * 7) {
        Some(d) => d,
        None => day,
    };
    week_id(iso_week(target))
}

/// The ISO week id `offset` weeks from the current one (0 = this week, -1 =
/// last week). The day it starts from is the system's; what it says is the week
/// of some day.
pub fn iso_week_for_offset(offset: i32) -> (res: String)
    requires
        -SPAN_WEEKS <= offset <= SPAN_WEEKS,
    ensures
        exists|day: Date| res@ == #[trigger] week_from(day, offset as int),
{
    let day = today();
    iso_week_from(day, offset)
}

/// The `week` query parameter: none for the current week, else the week's id.
pub fn week_param(offset: i32) -> (res: Option<String>)
    requires
        -SPAN_WEEKS <= offset <= SPAN_WEEKS,
    ensures
        res is None <==> offset == 0,
        res matches Some(w) ==> exists|day: Date| w@ == #[trigger] week_from(day, offset as int),
{
    if offset != 0 {
        Some(iso_week_for_offset(offset))
    } else {
        None
    }
}

// ---- spans of time in words ----

/// How long ago `second` was at `now`, in the largest fitting unit; a bare date
/// after thirty days, and `soon` for what is still to come.
pub open spec fn relative(second: int, now: int) -> Seq<char> {
    let mins = (now - second) / 60;
    let hours = mins / 60;
    let days = hours / 24;
    if now < second {
        "soon"@
    } else if mins < 1 {
        "now"@
    } else if mins < 60 {
        decimal(mins as nat) + "m ago"@
    } else if hours < 24 {
        decimal(hours as nat) + "h ago"@
    } else if days < 7 {
        decimal(days as nat) + "d ago"@
    } else if days < 30 {
        decimal((days / 7) as nat) + "w ago"@
    } else {
        stamp_text(second, "%Y-%m-%d"@)
    }
}

/// A compact relative "when".
pub fn fmt_relative(second: i64, now: i64) -> (res: String)
    ensures
        res@ == relative(second as int, now as int),
{
    let secs: i128 = now as i128 - second as i128;
    if secs < 0 {
        return own("soon");
    }
    let mins: u128 = secs as u128 / 60;
    if mins < 1 {
        return own("now");
    }
    if mins < 60 {
        return cat2(show(mins as u64).as_str(), "m ago");
    }
    let hours: u128 = mins / 60;
    if hours < 24 {
        return cat2(show(hours as u64).as_str(), "h ago");
    }
    let days: u128 = hours / 24;
    if days < 7 {
        return cat2(show(days as u64).as_str(), "d ago");
    }
    if days < 30 {
        return cat2(show((days / 7) as u64).as_str(), "w ago");
    }
    stamp(second, "%Y-%m-%d")
}

/// Minutes as hours and minutes, the hours left out where there is none.
pub open spec fn minutes_text(minutes: nat) -> Seq<char> {
    if minutes / 60 > 0 {
        decimal(minutes / 60) + "h "@ + two_digits(minutes % 60) + "m"@
    } else {
        decimal(minutes % 60) + "m"@
    }
}

/// Minutes as hours and minutes, the hours left out where there is none.
pub fn format_minutes(minutes: u32) -> (res: String)
    ensures
        res@ == minutes_text(minutes as nat),
{
    let h: u64 = minutes as u64 / 60;
    let m: u64 = minutes as u64 % 60;
    if h > 0 {
        crate::text::cat4(show(h).as_str(), "h ", crate::text::show_two(m).as_str(), "m")
    } else {
        cat2(show(m).as_str(), "m")
    }
}

/// What is left of `secs` seconds: days from two days on, else hours, else
/// minutes, at least one.
pub open spec fn left_text_of(secs: int) -> Seq<char> {
    if secs >= 48 * 3600 {
        decimal((secs / 86400) as nat) + "d"@
    } else if secs >= 3600 {
        decimal((secs / 3600) as nat) + "h"@
    } else {
        decimal(
            if secs / 60 < 1 {
                1
            } else {
                (secs / 60) as nat
            },
        ) + "m"@
    }
}

/// A compact "time left" read.
pub fn left_text(secs: i128) -> (res: String)
    requires
        secs <= u64::MAX,
    ensures
        res@ == left_text_of(secs as int),
{
    let n: u64 = if secs < 0 {
        0
    } else {
        secs as u64
    };
    if n >= 48 * 3600 {
        cat2(show(n / 86400).as_str(), "d")
    } else if n >= 3600 {
        cat2(show(n / 3600).as_str(), "h")
    } else {
        let mins: u64 = n / 60;
        cat2(
            show(
                if mins < 1 {
                    1
                } else {
                    mins
                },
            ).as_str(),
            "m",
        )
    }
}

/// Minutes in words lose nothing: they are the hours, as far as there are any, and the
/// minutes that are left over.
pub proof fn minutes_in_words_add_up(minutes: nat, h: nat, m: nat)
    requires
        minutes == h * 60 + m,
        m < 60,
    ensures
        h == 0 ==> minutes_text(minutes) == decimal(m) + "m"@,
        h > 0 ==> minutes_text(minutes) == decimal(h) + "h "@ + two_digits(m) + "m"@,
{
    assert(minutes / 60 == h && minutes % 60 == m) by (nonlinear_arith)
        requires
            minutes == h * 60 + m,
            m < 60,
    ;
}

/// How long ago something was is told in whole units: minutes within the hour, hours
/// within the day, days within the week, weeks within the month.
pub proof fn an_age_is_told_in_whole_units(second: int, now: int, n: nat)
    ensures
        now < second ==> relative(second, now) == "soon"@,
        0 <= now - second < 60 ==> relative(second, now) == "now"@,
        1 <= n < 60 && n * 60 <= now - second < (n + 1) * 60 ==> relative(second, now) == decimal(n)
            + "m ago"@,
        1 <= n < 24 && n * 3600 <= now - second < (n + 1) * 3600 ==> relative(second, now)
            == decimal(n) + "h ago"@,
        1 <= n < 7 && n * 86400 <= now - second < (n + 1) * 86400 ==> relative(second, now)
            == decimal(n) + "d ago"@,
        1 <= n < 4 && n * 604800 <= now - second < (n + 1) * 604800 ==> relative(second, now)
            == decimal(n) + "w ago"@,
{
    let d = now - second;
    if 1 <= n < 60 && n * 60 <= d < (n + 1) * 60 {
        assert(d / 60 == n);
    }
    if 1 <= n < 24 && n * 3600 <= d < (n + 1) * 3600 {
        assert(d / 60 / 60 == n);
    }
    if 1 <= n < 7 && n * 86400 <= d < (n + 1) * 86400 {
        assert(d / 60 / 60 / 24 == n);
    }
    if 1 <= n < 4 && n * 604800 <= d < (n + 1) * 604800 {
        assert(d / 60 / 60 / 24 / 7 == n);
    }
}

/// What is left is told in whole days from two days on, in hours from one on, and in
/// minutes below, at least one.
pub proof fn what_is_left_is_told_in_whole_units(secs: int, n: nat)
    ensures
        n >= 2 && n * 86400 <= secs < (n + 1) * 86400 ==> left_text_of(secs) == decimal(n) + "d"@,
        1 <= n < 48 && n * 3600 <= secs < (n + 1) * 3600 ==> left_text_of(secs) == decimal(n)
            + "h"@,
        1 <= n < 60 && n * 60 <= secs < (n + 1) * 60 ==> left_text_of(secs) == decimal(n) + "m"@,
        secs < 60 ==> left_text_of(secs) == decimal(1) + "m"@,
{
    if n >= 2 && n * 86400 <= secs < (n + 1) * 86400 {
        assert(secs / 86400 == n);
    }
    if 1 <= n < 48 && n * 3600 <= secs < (n + 1) * 3600 {
        assert(secs / 3600 == n);
    }
    if 1 <= n < 60 && n * 60 <= secs < (n + 1) * 60 {
        assert(secs / 60 == n);
    }
}

proof fn lemma_decimal_width(n: nat)
    ensures
        decimal(n).len() >= 1,
        n < 10 ==> decimal(n).len() == 1,
        10 <= n < 100 ==> decimal(n).len() == 2,
        100 <= n < 1000 ==> decimal(n).len() == 3,
        1000 <= n < 10000 ==> decimal(n).len() == 4,
    decreases n,
{
    if n >= 10 {
        lemma_decimal_width(n / 10);
    }
}

/// The id of a week of our age is four digits for the year, `-W`, and two for the week,
/// and reads back as both.
pub proof fn a_weeks_id_has_its_shape(year: i16, week: i8)
    requires
        1000 <= year <= 9999,
        1 <= week <= 53,
    ensures
        week_text((year, week)).len() == 8,
        week_text((year, week)).take(4) == decimal(year as nat),
        week >= 10 ==> week_text((year, week)).skip(6) == decimal(week as nat),
        week < 10 ==> week_text((year, week)).skip(6) == seq!['0'] + decimal(week as nat),
{
    reveal_strlit("-W");
    lemma_decimal_width(year as nat);
    lemma_decimal_width(week as nat);
    let id = week_text((year, week));
    assert(zero_padded(year as nat, 4) == decimal(year as nat));
    assert(id.take(4) =~= decimal(year as nat));
    assert(id.skip(6) =~= zero_padded(week as nat, 2));
    if week < 10 {
        assert(zero_padded(week as nat, 2) =~= seq!['0'] + decimal(week as nat));
    }
}

/// The week that many weeks away from a day is the week of the day seven times as many days
/// away, and no week away is the day's own.
pub proof fn the_week_away_is_the_week_of_that_day(day: Date, offset: int, there: Date)
    requires
        day_plus(day, offset * 7) == Some(there),
    ensures
        week_from(day, offset) == week_text(iso_week_of(there)),
{
}

} // verus!
