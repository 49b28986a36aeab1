//! The date that names the log file, and when the file is changed.
//!
//! By the calendar the file changes at midnight of the local time. By the futures session it
//! changes at the hour, in New York, at which the session reopens, and bears the date on which
//! the session ends.

use crate::text::{copy_of, padded, same};
use vstd::prelude::*;
use vstd::string::*;

verus! {

/// A date of the Gregorian calendar.
#[derive(Debug, Clone, Copy, PartialEq, Eq, Structural)]
pub struct CivilDate {
    pub year: i16,
    pub month: i8,
    pub day: i8,
}

pub open spec fn is_leap_year(year: int) -> bool {
    year % 4 == 0 && (year % 100 != 0 || year % 400 == 0)
}

pub open spec fn days_in_month(year: int, month: int) -> int {
    if month == 2 {
        if is_leap_year(year) {
            29
        } else {
            28
        }
    } else if month == 4 || month == 6 || month == 9 || month == 11 {
        30
    } else {
        31
    }
}

impl CivilDate {
    /// The date exists, in the years that are supported.
    pub open spec fn valid(self) -> bool {
        -9999 <= self.year <= 9999 && 1 <= self.month <= 12 && 1 <= self.day <= days_in_month(
            self.year as int,
            self.month as int,
        )
    }
}

/// The day after a date; none after the last supported one.
pub open spec fn next_day(d: CivilDate) -> Option<CivilDate> {
    if d.day < days_in_month(d.year as int, d.month as int) {
        Some(CivilDate { year: d.year, month: d.month, day: (d.day + 1) as i8 })
    } else if d.month < 12 {
        Some(CivilDate { year: d.year, month: (d.month + 1) as i8, day: 1 })
    } else if d.year < 9999 {
        Some(CivilDate { year: (d.year + 1) as i16, month: 1, day: 1 })
    } else {
        None
    }
}

/// A date as `YYYY-MM-DD`, with `-00` in front of the digits of a year before year zero.
pub open spec fn iso_date(d: CivilDate) -> Seq<char> {
    let rest = "-"@ + padded(d.month as nat, 2) + "-"@ + padded(d.day as nat, 2);
    if d.year < 0 {
        "-00"@ + padded((-d.year) as nat, 4) + rest
    } else {
        padded(d.year as nat, 4) + rest
    }
}

/// The session that reopens at `reopen` has begun at `hour`. Hours that no clock shows count
/// as their value in a signed byte.
pub open spec fn session_begun(hour: i8, reopen: u8) -> bool {
    if reopen < 128 {
        hour >= reopen
    } else {
        hour >= reopen - 256
    }
}

/// The date of the session: the next day once the session has begun, where there is one.
pub open spec fn session_date_of(hour: i8, today: CivilDate, reopen: u8) -> CivilDate {
    if session_begun(hour, reopen) {
        match next_day(today) {
            Some(d) => d,
            None => today,
        }
    } else {
        today
    }
}

/// `jiff::Zoned`, carried as an opaque value.
#[verifier::external_type_specification]
#[verifier::external_body]
pub struct ExZoned(jiff::Zoned);

/// `jiff::tz::TimeZone`, carried as an opaque value.
#[verifier::external_type_specification]
#[verifier::external_body]
pub struct ExTimeZone(jiff::tz::TimeZone);

/// `jiff::Error`, carried as an opaque value.
#[verifier::external_type_specification]
#[verifier::external_body]
pub struct ExJiffError(jiff::Error);

/// `jiff::Zoned::now`: the present moment in the time zone of the system. The clock and the
/// system decide what it is, so nothing is claimed of it.
pub assume_specification[ jiff::Zoned::now ]() -> (r: jiff::Zoned);

/// `jiff::Zoned::with_time_zone`: the same moment in another time zone. Both are opaque, so
/// nothing is claimed of the result.
pub assume_specification[ jiff::Zoned::with_time_zone ](
    z: &jiff::Zoned,
    time_zone: jiff::tz::TimeZone,
) -> (r: jiff::Zoned);

/// `jiff::tz::TimeZone::get`: the time zone with a name, where the time zone database of the
/// system has it. The database decides, so nothing is claimed of the result.
pub assume_specification[ jiff::tz::TimeZone::get ](time_zone_name: &str) -> (r: Result<
    jiff::tz::TimeZone,
    jiff::Error,
>);

/// `jiff::Zoned::hour`: the hour that a clock in the time zone shows, from 0 to 23.
pub assume_specification[ jiff::Zoned::hour ](z: &jiff::Zoned) -> (r: i8)
    ensures
        0 <= r <= 23,
;

/// `jiff::tz::TimeZone::UTC`, the time zone without an offset.
#[verifier::external_body]
fn utc() -> (r: jiff::tz::TimeZone) {
    jiff::tz::TimeZone::UTC
}

/// `jiff::Zoned::date`: the date that a calendar in the time zone shows. It is a date that
/// exists, between the years -9999 and 9999.
#[verifier::external_body]
fn date_of(z: &jiff::Zoned) -> (r: CivilDate)
    ensures
        r.valid(),
{
    let d = z.date();
    CivilDate { year: d.year(), month: d.month(), day: d.day() }
}

/// `jiff::civil::Date::tomorrow`: the next day of the calendar; none after 9999-12-31.
#[verifier::external_body]
fn tomorrow(d: CivilDate) -> (r: Option<CivilDate>)
    requires
        d.valid(),
    ensures
        r == next_day(d),
{
    match jiff::civil::Date::constant(d.year, d.month, d.day).tomorrow() {
        Ok(t) => Some(CivilDate { year: t.year(), month: t.month(), day: t.day() }),
        Err(_) => None,
    }
}

/// `jiff::civil::Date::to_string`: the date in the form of ISO 8601.
#[verifier::external_body]
fn date_text(d: CivilDate) -> (r: String)
    requires
        d.valid(),
    ensures
        r@ == iso_date(d),
{
    jiff::civil::Date::constant(d.year, d.month, d.day).to_string()
}

/// The date of the futures session, by the hour and the date in New York.
pub fn session_date(hour: i8, today: CivilDate, session_reopen_hour: u8) -> (r: CivilDate)
    requires
        today.valid(),
        0 <= hour <= 23,
    ensures
        r == session_date_of(hour, today, session_reopen_hour),
        r.valid(),
{
    if session_reopen_hour >= 128 || hour >= session_reopen_hour as i8 {
        match tomorrow(today) {
            Some(d) => d,
            None => today,
        }
    } else {
        today
    }
}

/// The text of a date that names a log file.
pub fn log_date_text(d: CivilDate) -> (r: String)
    requires
        d.valid(),
    ensures
        r@ == iso_date(d),
{
    date_text(d)
}

/// `text` names the log file at an hour of a date.
pub open spec fn names_log(
    text: Seq<char>,
    futures_session: bool,
    hour: i8,
    today: CivilDate,
    reopen: u8,
) -> bool {
    &&& 0 <= hour <= 23
    &&& today.valid()
    &&& text == iso_date(
        if futures_session {
            session_date_of(hour, today, reopen)
        } else {
            today
        },
    )
}

/// `zone` is that of New York where the time zone database has it, else the one without an
/// offset.
pub closed spec fn is_new_york(zone: jiff::tz::TimeZone) -> bool {
    exists|r: Result<jiff::tz::TimeZone, jiff::Error>|
        #[trigger] call_ensures(jiff::tz::TimeZone::get, ("America/New_York",), r) && match r {
            Ok(z) => z == zone,
            Err(_) => call_ensures(utc, (), zone),
        }
}

/// `there` is the moment `now` as it is looked at: in New York for the futures session, else
/// where the system is.
pub open spec fn seen_from(futures_session: bool, now: jiff::Zoned, there: jiff::Zoned) -> bool {
    if futures_session {
        exists|zone: jiff::tz::TimeZone|
            #[trigger] is_new_york(zone) && call_ensures(
                jiff::Zoned::with_time_zone,
                (&now, zone),
                there,
            )
    } else {
        there == now
    }
}

/// The clock shows this hour at a moment in its time zone.
pub open spec fn shows_hour(there: jiff::Zoned, hour: i8) -> bool {
    call_ensures(jiff::Zoned::hour, (&there,), hour)
}

/// The calendar shows this date at a moment in its time zone.
pub closed spec fn shows_date(there: jiff::Zoned, today: CivilDate) -> bool {
    call_ensures(date_of, (&there,), today)
}

/// `now` is a reading of the clock in the time zone of the system, and at it `text` names the
/// log file. The hour counts for the futures session alone.
pub open spec fn names_log_at(
    text: Seq<char>,
    futures_session: bool,
    reopen: u8,
    now: jiff::Zoned,
    there: jiff::Zoned,
    hour: i8,
    today: CivilDate,
) -> bool {
    &&& call_ensures(jiff::Zoned::now, (), now)
    &&& seen_from(futures_session, now, there)
    &&& futures_session ==> shows_hour(there, hour)
    &&& shows_date(there, today)
    &&& names_log(text, futures_session, hour, today, reopen)
}

/// The date that names the log file now: that of the local calendar, or for the futures session
/// that of the session by the clock and the calendar of New York.
pub fn log_date(futures_session: bool, session_reopen_hour: u8) -> (r: String)
    ensures
        exists|now: jiff::Zoned, there: jiff::Zoned, hour: i8, today: CivilDate|
            #[trigger] names_log_at(
                r@,
                futures_session,
                session_reopen_hour,
                now,
                there,
                hour,
                today,
            ),
{
    let now = jiff::Zoned::now();
    if futures_session {
        let found = jiff::tz::TimeZone::get("America/New_York");
        let ghost answer = found;
        let zone = match found {
            Ok(tz) => tz,
            Err(_) => utc(),
        };
        let ghost chosen = zone;
        assert(call_ensures(jiff::tz::TimeZone::get, ("America/New_York",), answer));
        assert(is_new_york(chosen));
        let there = now.with_time_zone(zone);
        let hour: i8 = there.hour();
        let today = date_of(&there);
        let r = date_text(session_date(hour, today, session_reopen_hour));
        assert(names_log_at(
            r@,
            futures_session,
            session_reopen_hour,
            now,
            there,
            hour,
            today,
        ));
        r
    } else {
        let today = date_of(&now);
        let r = date_text(today);
        assert(names_log_at(r@, futures_session, session_reopen_hour, now, now, 0i8, today));
        r
    }
}

/// Which log file is written, and when it changes.
#[derive(Debug)]
pub struct LogRotation {
    pub prefix: String,
    pub current_date: String,
}

/// The name of the log file for a date.
pub open spec fn file_name(prefix: Seq<char>, date: Seq<char>) -> Seq<char> {
    prefix + "-"@ + date + ".log"@
}

impl LogRotation {
    pub fn new(prefix: &str, date: &str) -> (r: Self)
        ensures
            r.prefix@ == prefix@,
            r.current_date@ == date@,
    {
        LogRotation { prefix: copy_of(prefix), current_date: copy_of(date) }
    }

    /// The name of the file for a date.
    pub fn file_for(&self, date: &str) -> (r: String)
        ensures
            r@ == file_name(self.prefix@, date@),
    {
        let mut s = self.prefix.clone();
        s.append("-");
        s.append(date);
        s.append(".log");
        s
    }

    /// The file to open, where the date has changed.
    pub fn maybe_rotate(&self, new_date: &str) -> (r: Option<String>)
        ensures
            match r {
                Some(f) => self.current_date@ != new_date@ && f@ == file_name(
                    self.prefix@,
                    new_date@,
                ),
                None => self.current_date@ == new_date@,
            },
    {
        if same(self.current_date.as_str(), new_date) {
            None
        } else {
            Some(self.file_for(new_date))
        }
    }

    /// Takes the new date over, once its file was opened. Where it could not be opened the old
    /// file stays in use, and the next write tries again.
    pub fn rotated(&mut self, new_date: &str, opened: bool)
        ensures
            final(self).prefix@ == old(self).prefix@,
            final(self).current_date@ == if opened {
                new_date@
            } else {
                old(self).current_date@
            },
    {
        if opened {
            self.current_date = copy_of(new_date);
        }
    }
}

proof fn two_digits(n: nat)
    requires
        n < 100,
    ensures
        padded(n, 2).len() == 2,
{
    reveal_with_fuel(crate::text::decimal, 3);
}

proof fn four_digits(n: nat)
    requires
        n < 10_000,
    ensures
        padded(n, 4).len() == 4,
{
    reveal_with_fuel(crate::text::decimal, 5);
}

/// The date of a log file has ten characters, with hyphens between year, month and day.
pub proof fn dates_have_ten_characters(d: CivilDate)
    requires
        d.valid(),
        d.year >= 0,
    ensures
        iso_date(d).len() == 10,
        iso_date(d)[4] == '-',
        iso_date(d)[7] == '-',
{
    reveal_strlit("-");
    four_digits(d.year as nat);
    two_digits(d.month as nat);
    two_digits(d.day as nat);
}

/// The next day of a date that exists is a date that exists.
pub proof fn next_day_is_valid(d: CivilDate)
    requires
        d.valid(),
    ensures
        next_day(d) matches Some(n) ==> n.valid(),
{
}

/// The session changes at the hour at which it reopens: before it the date is today, and from it
/// on the day after, which begins the next month behind the last day of a month and the next
/// year behind December. The hour is read as a signed byte: from 128 on it lies before midnight.
pub proof fn sessions_change_at_their_hour(hour: i8, today: CivilDate, reopen: u8)
    requires
        today.valid(),
    ensures
        ({
            let d = session_date_of(hour, today, reopen);
            let opens = if reopen <= 127 {
                reopen as int
            } else {
                reopen - 256
            };
            let last = today.day as int == days_in_month(today.year as int, today.month as int);
            &&& hour < opens ==> d == today
            &&& hour >= opens && !last ==> d.year == today.year && d.month == today.month && d.day
                == today.day + 1
            &&& hour >= opens && last && today.month < 12 ==> d.year == today.year && d.month
                == today.month + 1 && d.day == 1
            &&& hour >= opens && last && today.month == 12 && today.year < 9999 ==> d.year
                == today.year + 1 && d.month == 1 && d.day == 1
        }),
{
}

/// The months have their lengths, and February has a day more in the years that four divides, but
/// for the centuries that four hundred does not.
pub proof fn months_have_their_lengths(year: int)
    ensures
        forall|m: int|
            #![trigger days_in_month(year, m)]
            (m == 1 || m == 3 || m == 5 || m == 7 || m == 8 || m == 10 || m == 12)
                ==> days_in_month(year, m) == 31,
        forall|m: int|
            #![trigger days_in_month(year, m)]
            (m == 4 || m == 6 || m == 9 || m == 11) ==> days_in_month(year, m) == 30,
        year % 400 == 0 ==> days_in_month(year, 2) == 29,
        year % 100 == 0 && year % 400 != 0 ==> days_in_month(year, 2) == 28,
        year % 4 == 0 && year % 100 != 0 ==> days_in_month(year, 2) == 29,
        year % 4 != 0 ==> days_in_month(year, 2) == 28,
{
}

/// The text of a date from year zero on is its year in four digits, its month and its day in two,
/// with hyphens between.
pub proof fn dates_are_written_in_parts(d: CivilDate)
    requires
        d.valid(),
        d.year >= 0,
    ensures
        iso_date(d).subrange(0, 4) == padded(d.year as nat, 4),
        iso_date(d).subrange(5, 7) == padded(d.month as nat, 2),
        iso_date(d).subrange(8, 10) == padded(d.day as nat, 2),
        forall|prefix: Seq<char>, date: Seq<char>| #[trigger]
            file_name(prefix, date) == prefix + "-"@ + date + ".log"@,
{
    reveal_strlit("-");
    dates_have_ten_characters(d);
    four_digits(d.year as nat);
    two_digits(d.month as nat);
    two_digits(d.day as nat);
    assert(iso_date(d).subrange(0, 4) =~= padded(d.year as nat, 4));
    assert(iso_date(d).subrange(5, 7) =~= padded(d.month as nat, 2));
    assert(iso_date(d).subrange(8, 10) =~= padded(d.day as nat, 2));
}

/// Without the futures session the hour and the hour of its reopening do not matter: the text is
/// that of the date shown. With it the text is that of the session.
pub proof fn log_names_go_by_the_mode(
    text: Seq<char>,
    futures_session: bool,
    hour: i8,
    today: CivilDate,
    reopen: u8,
)
    requires
        names_log(text, futures_session, hour, today, reopen),
    ensures
        !futures_session ==> text == iso_date(today),
        futures_session ==> text == iso_date(session_date_of(hour, today, reopen)),
{
}

/// The log file is changed exactly when the date has changed.
pub proof fn log_files_change_with_the_date(l: LogRotation, date: &str, r: Option<String>)
    requires
        call_ensures(LogRotation::maybe_rotate, (&l, date), r),
    ensures
        r is Some <==> l.current_date@ != date@,
        r matches Some(f) ==> f@ == l.prefix@ + "-"@ + date@ + ".log"@,
{
}

/// Without sessions the file is named by the moment itself, and with them by what it is then in
/// New York.
pub proof fn log_dates_are_local(
    text: Seq<char>,
    futures_session: bool,
    reopen: u8,
    now: jiff::Zoned,
    there: jiff::Zoned,
    hour: i8,
    today: CivilDate,
)
    requires
        names_log_at(text, futures_session, reopen, now, there, hour, today),
    ensures
        shows_date(there, today),
        !futures_session ==> there == now && text == iso_date(today),
        futures_session ==> shows_hour(there, hour) && exists|zone: jiff::tz::TimeZone|
            #[trigger] is_new_york(zone) && call_ensures(
                jiff::Zoned::with_time_zone,
                (&now, zone),
                there,
            ),
{
}

/// A year before the year zero is written with its sign and six digits, and the rest as always.
pub proof fn early_dates_bear_a_sign(d: CivilDate)
    requires
        d.valid(),
        d.year < 0,
    ensures
        iso_date(d).len() == 13,
        iso_date(d)[0] == '-' && iso_date(d)[1] == '0' && iso_date(d)[2] == '0',
        iso_date(d).subrange(3, 7) == padded((-d.year) as nat, 4),
        iso_date(d)[7] == '-' && iso_date(d)[10] == '-',
        iso_date(d).subrange(8, 10) == padded(d.month as nat, 2),
        iso_date(d).subrange(11, 13) == padded(d.day as nat, 2),
{
    reveal_strlit("-");
    reveal_strlit("-00");
    four_digits((-d.year) as nat);
    two_digits(d.month as nat);
    two_digits(d.day as nat);
    assert(iso_date(d).subrange(3, 7) =~= padded((-d.year) as nat, 4));
    assert(iso_date(d).subrange(8, 10) =~= padded(d.month as nat, 2));
    assert(iso_date(d).subrange(11, 13) =~= padded(d.day as nat, 2));
}

} // verus!
