//! The weekly cold restart.
//!
//! IBKR requires a full login once a week, on Sundays. The restart fires in the configured
//! minute and not later: who starts after it on a Sunday waits for the next one. A marker
//! file with the date keeps a restart of the process from firing again on the same day.

use crate::text::{
    copy_of, decimal, ends_with, ends, parse_number, parsed, pieces, push_decimal, push_signed, same,
    signed_decimal, split, texts, trim, trimmed,
};
use vstd::prelude::*;
use vstd::string::*;

verus! {

/// The signal that the cold restart is due.
#[derive(Debug, Clone, Copy, PartialEq, Eq, Structural)]
pub struct ColdRestartSignal;

/// A local time, with Sunday as weekday zero.
#[derive(Debug, Clone, Copy, PartialEq, Eq, Structural)]
pub struct LocalTime {
    pub weekday: u32,
    pub hour: u32,
    pub minute: u32,
    pub day_of_year: u32,
    pub year: i32,
}

/// The hour and the minute that a text such as `09:00` gives.
pub open spec fn time_of(s: Seq<char>) -> Option<(u32, u32)> {
    let p = pieces(trimmed(s), ':');
    if p.len() == 2 {
        match (parsed(p[0], u32::MAX as nat), parsed(p[1], u32::MAX as nat)) {
            (Some(h), Some(m)) => if h <= 23 && m <= 59 {
                Some((h as u32, m as u32))
            } else {
                None
            },
            _ => None,
        }
    } else {
        None
    }
}

/// Reads a time such as `09:00`.
pub fn parse_cold_restart_time(time_str: &str) -> (r: Option<(u32, u32)>)
    ensures
        r == time_of(time_str@),
{
    let t = trim(time_str);
    let parts = split(t.as_str(), ':');
    if parts.len() != 2 {
        return None;
    }
    proof {
        assert(texts(parts@)[0] == parts@[0]@ && texts(parts@)[1] == parts@[1]@);
    }
    match (
        parse_number(parts[0].as_str(), u32::MAX as u64),
        parse_number(parts[1].as_str(), u32::MAX as u64),
    ) {
        (Some(hour), Some(minute)) => {
            if hour > 23 || minute > 59 {
                return None;
            }
            Some((hour as u32, minute as u32))
        },
        _ => None,
    }
}

/// A time that is read lies within the day.
pub proof fn times_are_in_range(s: Seq<char>)
    ensures
        time_of(s) matches Some(t) ==> t.0 <= 23 && t.1 <= 59,
{
}

/// What the marker file holds once the restart fired on a day: the year, a hyphen, and the day
/// of the year.
pub open spec fn marker(year: i32, day_of_year: u32) -> Seq<char> {
    signed_decimal(year as int) + "-"@ + decimal(day_of_year as nat)
}

/// What is written to the marker file for a day.
pub fn marker_text(year: i32, day_of_year: u32) -> (r: String)
    ensures
        r@ == marker(year, day_of_year),
{
    let mut s = String::new();
    push_signed(&mut s, year);
    assert(s@ =~= signed_decimal(year as int));
    s.append("-");
    push_decimal(&mut s, day_of_year as u64);
    s
}

/// The marker says that the restart fired on a day.
pub open spec fn marked(contents: Option<Seq<char>>, year: i32, day_of_year: u32) -> bool {
    contents matches Some(c) && trimmed(c) == marker(year, day_of_year)
}

/// The view of a marker file that may be missing.
pub open spec fn contents_view(contents: Option<&str>) -> Option<Seq<char>> {
    match contents {
        Some(c) => Some(c@),
        None => None,
    }
}

/// Whether the marker file says that the restart fired on a day. `contents` is missing where
/// the file could not be read.
pub fn already_fired(contents: Option<&str>, year: i32, day_of_year: u32) -> (r: bool)
    ensures
        r == marked(contents_view(contents), year, day_of_year),
{
    match contents {
        Some(c) => {
            let t = trim(c);
            let today = marker_text(year, day_of_year);
            same(t.as_str(), today.as_str())
        },
        None => false,
    }
}

/// The path of the marker file in a directory.
pub open spec fn marker_path(dir: Seq<char>) -> Seq<char> {
    if dir.len() == 0 || ends(dir, "/"@) {
        dir + ".ibctl-cold-restart-marker"@
    } else {
        dir + "/"@ + ".ibctl-cold-restart-marker"@
    }
}

/// The path of the marker file in a directory.
pub fn marker_file(dir: &str) -> (r: String)
    ensures
        r@ == marker_path(dir@),
{
    let mut s = copy_of(dir);
    if !(dir.is_empty() || ends_with(dir, "/")) {
        s.append("/");
    }
    s.append(".ibctl-cold-restart-marker");
    s
}

/// What the timer does next.
#[derive(Debug)]
pub enum TimerStep {
    /// Look again after this many seconds.
    Sleep(u64),
    /// Write this to the marker file, and then send the signal.
    Fire(String),
}

/// What the timer does next, as a mathematical value.
pub enum TimerModel {
    Sleep(u64),
    Fire(Seq<char>),
}

impl View for TimerStep {
    type V = TimerModel;

    open spec fn view(&self) -> TimerModel {
        match self {
            TimerStep::Sleep(n) => TimerModel::Sleep(*n),
            TimerStep::Fire(t) => TimerModel::Fire(t@),
        }
    }
}

/// The timer of the cold restart.
#[derive(Debug)]
pub struct ColdRestartTimer {
    pub target_hour: u32,
    pub target_minute: u32,
    /// The year and the day on which the process was started too late.
    pub skipped_day: Option<(i32, u32)>,
    /// The years and days on which it has fired.
    pub fired_on: Vec<(i32, u32)>,
}

/// The timer as a mathematical value.
pub struct TimerState {
    pub target_hour: u32,
    pub target_minute: u32,
    pub skipped_day: Option<(i32, u32)>,
    pub fired_on: Seq<(i32, u32)>,
}

impl View for ColdRestartTimer {
    type V = TimerState;

    open spec fn view(&self) -> TimerState {
        TimerState {
            target_hour: self.target_hour,
            target_minute: self.target_minute,
            skipped_day: self.skipped_day,
            fired_on: self.fired_on@,
        }
    }
}

/// The process was started on a Sunday, after the minute of the restart.
pub open spec fn started_late(start: LocalTime, hour: u32, minute: u32) -> bool {
    start.weekday == 0 && (start.hour > hour || (start.hour == hour && start.minute > minute))
}

/// The date of a local time, as its year and day.
pub open spec fn date_of(t: LocalTime) -> (i32, u32) {
    (t.year, t.day_of_year)
}

/// The timer fires at this time: on a Sunday, in the minute, on a date on which it has not fired
/// yet, which the marker does not hold, and on which the process was not started too late.
pub open spec fn fires_at(timer: TimerState, now: LocalTime, contents: Option<Seq<char>>) -> bool {
    &&& now.weekday == 0
    &&& now.hour == timer.target_hour
    &&& now.minute == timer.target_minute
    &&& !timer.fired_on.contains(date_of(now))
    &&& !marked(contents, now.year, now.day_of_year)
    &&& timer.skipped_day != Some(date_of(now))
}

/// The timer after it fired at a time.
pub open spec fn fired(timer: TimerState, now: LocalTime) -> TimerState {
    TimerState { fired_on: timer.fired_on.push(date_of(now)), ..timer }
}

/// How many seconds the timer sleeps until it looks again: half a minute, and on a date on which
/// it has fired an hour more.
pub open spec fn rest_secs(timer: TimerState, now: Option<LocalTime>) -> u64 {
    if now matches Some(t) && timer.fired_on.contains(date_of(t)) {
        3630
    } else {
        30
    }
}

/// What the timer does at a time, and the timer after it.
pub open spec fn checked(
    timer: TimerState,
    now: Option<LocalTime>,
    contents: Option<Seq<char>>,
) -> (TimerState, TimerModel) {
    if now matches Some(t) && fires_at(timer, t, contents) {
        (fired(timer, now->0), TimerModel::Fire(marker(now->0.year, now->0.day_of_year)))
    } else {
        (timer, TimerModel::Sleep(rest_secs(timer, now)))
    }
}

/// A timer that has not fired yet, for a time and a start of the process.
pub open spec fn fresh_timer(target: (u32, u32), startup: Option<LocalTime>) -> TimerState {
    TimerState {
        target_hour: target.0,
        target_minute: target.1,
        skipped_day: match startup {
            Some(s) => if started_late(s, target.0, target.1) {
                Some(date_of(s))
            } else {
                None
            },
            None => None,
        },
        fired_on: Seq::empty(),
    }
}

impl ColdRestartTimer {
    /// The timer for a configured time; none where the time is not given or cannot be read.
    /// `startup` is the local time at which the process started, where it is known.
    pub fn new(cold_restart_time: &str, startup: Option<LocalTime>) -> (r: Option<Self>)
        ensures
            match time_of(cold_restart_time@) {
                None => r is None,
                Some(t) => r matches Some(timer) && timer@ == fresh_timer(t, startup),
            },
    {
        match parse_cold_restart_time(cold_restart_time) {
            Some((hour, minute)) => {
                let skipped_day: Option<(i32, u32)> = match startup {
                    Some(s) => if s.weekday == 0 && (s.hour > hour || (s.hour == hour && s.minute
                        > minute)) {
                        Some((s.year, s.day_of_year))
                    } else {
                        None
                    },
                    None => None,
                };
                Some(
                    ColdRestartTimer {
                        target_hour: hour,
                        target_minute: minute,
                        skipped_day,
                        fired_on: Vec::new(),
                    },
                )
            },
            None => None,
        }
    }

    fn has_fired_on(&self, t: LocalTime) -> (r: bool)
        ensures
            r == self@.fired_on.contains(date_of(t)),
    {
        let mut i: usize = 0;
        while i < self.fired_on.len()
            invariant
                i <= self.fired_on@.len(),
                forall|j: int| 0 <= j < i ==> #[trigger] self.fired_on@[j] != date_of(t),
            decreases self.fired_on@.len() - i,
        {
            let (year, day): (i32, u32) = self.fired_on[i];
            if year == t.year && day == t.day_of_year {
                assert(self.fired_on@[i as int] == date_of(t));
                return true;
            }
            i += 1;
        }
        false
    }

    /// Looks at the time. `now` is missing where the local time is not known, `contents` where
    /// there is no marker file.
    pub fn check(&mut self, now: Option<LocalTime>, contents: Option<&str>) -> (r: TimerStep)
        ensures
            (final(self)@, r@) == checked(old(self)@, now, contents_view(contents)),
    {
        match now {
            Some(t) => {
                if self.has_fired_on(t) {
                    return TimerStep::Sleep(3630);
                }
                let skipped: bool = match self.skipped_day {
                    Some((year, day)) => year == t.year && day == t.day_of_year,
                    None => false,
                };
                if t.weekday == 0 && t.hour == self.target_hour && t.minute == self.target_minute
                    && !already_fired(contents, t.year, t.day_of_year) && !skipped {
                    self.fired_on.push((t.year, t.day_of_year));
                    return TimerStep::Fire(marker_text(t.year, t.day_of_year));
                }
                TimerStep::Sleep(30)
            },
            None => TimerStep::Sleep(30),
        }
    }
}

/// What a look at the time finds: the local time and the marker file.
pub struct Look {
    pub now: Option<LocalTime>,
    pub contents: Option<Seq<char>>,
}

/// The timer after a run of looks.
pub open spec fn after_looks(timer: TimerState, looks: Seq<Look>) -> TimerState
    decreases looks.len(),
{
    if looks.len() == 0 {
        timer
    } else {
        checked(
            after_looks(timer, looks.drop_last()),
            looks.last().now,
            looks.last().contents,
        ).0
    }
}

/// The `i`-th of a run of looks fires.
pub open spec fn look_fires(timer: TimerState, looks: Seq<Look>, i: int) -> bool {
    looks[i].now matches Some(t) && fires_at(
        after_looks(timer, looks.subrange(0, i)),
        t,
        looks[i].contents,
    )
}

proof fn looks_keep(timer: TimerState, looks: Seq<Look>, i: int)
    requires
        0 <= i <= looks.len(),
    ensures
        ({
            let early = after_looks(timer, looks.subrange(0, i));
            let late = after_looks(timer, looks);
            &&& late.target_hour == timer.target_hour
            &&& late.target_minute == timer.target_minute
            &&& late.skipped_day == timer.skipped_day
            &&& forall|d: (i32, u32)| #[trigger]
                early.fired_on.contains(d) ==> late.fired_on.contains(d)
        }),
    decreases looks.len(),
{
    if looks.len() == 0 {
        assert(looks.subrange(0, i) =~= looks);
    } else {
        let before = looks.drop_last();
        let mid = after_looks(timer, before);
        if i < looks.len() {
            looks_keep(timer, before, i);
            assert(before.subrange(0, i) =~= looks.subrange(0, i));
        } else {
            looks_keep(timer, before, before.len() as int);
            assert(looks.subrange(0, i) =~= looks);
        }
        let late = after_looks(timer, looks);
        assert forall|d: (i32, u32)| mid.fired_on.contains(d) implies late.fired_on.contains(d) by {
            let k = choose|k: int| 0 <= k < mid.fired_on.len() && mid.fired_on[k] == d;
            assert(late.fired_on[k] == d);
        }
    }
}

/// However often the timer looks, and whatever the clock and the marker file show, it fires only
/// on Sundays, in the configured minute, on a date that the marker does not hold; and it fires
/// at most once on a date.
pub proof fn fires_once_a_date(timer: TimerState, looks: Seq<Look>, i: int, j: int)
    requires
        0 <= i < looks.len(),
        look_fires(timer, looks, i),
    ensures
        ({
            let t = looks[i].now->0;
            &&& t.weekday == 0
            &&& t.hour == timer.target_hour
            &&& t.minute == timer.target_minute
            &&& !marked(looks[i].contents, t.year, t.day_of_year)
        }),
        i < j < looks.len() && look_fires(timer, looks, j) ==> date_of(looks[i].now->0) != date_of(
            looks[j].now->0,
        ),
{
    let before = looks.subrange(0, i);
    looks_keep(timer, before, 0);
    if i < j < looks.len() && look_fires(timer, looks, j) {
        let upto = looks.subrange(0, i + 1);
        assert(upto.drop_last() =~= before);
        let t = looks[i].now->0;
        let then = after_looks(timer, upto);
        assert(then == fired(after_looks(timer, before), t));
        assert(then.fired_on.last() == date_of(t));
        assert(then.fired_on.contains(date_of(t)));
        let later = looks.subrange(0, j);
        looks_keep(timer, later, i + 1);
        assert(later.subrange(0, i + 1) =~= upto);
    }
}

/// A timer that fired on one Sunday fires again on the next, in the minute, where no marker
/// holds that date.
pub proof fn fires_every_week(
    timer: TimerState,
    now: LocalTime,
    next: LocalTime,
    contents: Option<Seq<char>>,
)
    requires
        next.weekday == 0,
        next.hour == timer.target_hour,
        next.minute == timer.target_minute,
        date_of(next) != date_of(now),
        !timer.fired_on.contains(date_of(next)),
        timer.skipped_day != Some(date_of(next)),
        !marked(contents, next.year, next.day_of_year),
    ensures
        fires_at(fired(timer, now), next, contents),
{
    let f = fired(timer, now).fired_on;
    if f.contains(date_of(next)) {
        let k = choose|k: int| 0 <= k < f.len() && f[k] == date_of(next);
        if k < timer.fired_on.len() {
            assert(timer.fired_on[k] == date_of(next));
        }
    }
}

/// The marker that was written keeps another process from firing on the same day.
pub proof fn marker_prevents_a_second_restart(timer: TimerState, now: LocalTime)
    ensures
        !fires_at(timer, now, Some(marker(now.year, now.day_of_year))),
{
    marker_is_trimmed(now.year, now.day_of_year);
}

proof fn marker_is_trimmed(year: i32, day_of_year: u32)
    ensures
        trimmed(marker(year, day_of_year)) == marker(year, day_of_year),
{
    let m = marker(year, day_of_year);
    let d = decimal(day_of_year as nat);
    reveal_strlit("-");
    crate::text::decimal_reads_back(day_of_year as nat);
    assert(crate::text::is_digit(d.last()));
    assert(m.last() == d.last());
    if year < 0 {
        assert(m[0] == '-');
    } else {
        let y = decimal(year as nat);
        crate::text::decimal_reads_back(year as nat);
        assert(crate::text::is_digit(y[0]));
        assert(m[0] == y[0]);
    }
}

/// Who starts after the minute on a Sunday does not fire on that day, and does on the next
/// Sunday.
pub proof fn late_start_waits_a_week(
    target: (u32, u32),
    start: LocalTime,
    now: LocalTime,
    contents: Option<Seq<char>>,
)
    requires
        started_late(start, target.0, target.1),
        now.weekday == 0,
        now.hour == target.0,
        now.minute == target.1,
        !marked(contents, now.year, now.day_of_year),
    ensures
        fires_at(fresh_timer(target, Some(start)), now, contents) <==> date_of(now) != date_of(start),
{
}

/// The minutes of the day at a time of day.
pub open spec fn minute_of_day(hour: u32, minute: u32) -> int {
    60 * hour + minute
}

/// A process that is started on a Sunday not later than the configured minute of the day fires
/// in that minute of the same day, where no marker holds the date, and one that is started later
/// does not. One that is started on another day, or at a time that is not known, is never late.
pub proof fn punctual_starts_fire_the_same_day(
    target: (u32, u32),
    start: LocalTime,
    now: LocalTime,
    contents: Option<Seq<char>>,
)
    requires
        target.0 <= 23 && target.1 <= 59,
        start.hour <= 23 && start.minute <= 59,
        now.weekday == 0,
        now.hour == target.0,
        now.minute == target.1,
        !marked(contents, now.year, now.day_of_year),
    ensures
        date_of(now) == date_of(start) && start.weekday == 0 ==> (fires_at(
            fresh_timer(target, Some(start)),
            now,
            contents,
        ) <==> minute_of_day(start.hour, start.minute) <= minute_of_day(target.0, target.1)),
        date_of(now) != date_of(start) || start.weekday != 0 ==> fires_at(
            fresh_timer(target, Some(start)),
            now,
            contents,
        ),
        fires_at(fresh_timer(target, None), now, contents),
{
}

/// A fresh timer is set to the configured time and does not fire outside that minute of a
/// Sunday, nor on a date that the marker holds.
pub proof fn fresh_timers_fire_at_their_time(
    target: (u32, u32),
    startup: Option<LocalTime>,
    now: LocalTime,
    contents: Option<Seq<char>>,
)
    ensures
        fires_at(fresh_timer(target, startup), now, contents) ==> now.weekday == 0 && now.hour
            == target.0 && now.minute == target.1,
        fires_at(fresh_timer(target, startup), now, contents) ==> (contents matches Some(c)
            ==> trimmed(c) != signed_decimal(now.year as int) + "-"@ + decimal(
            now.day_of_year as nat,
        )),
{
}

/// What a look at the time does: a timer that fires writes the date, and afterwards holds it; one
/// that does not fire sleeps half a minute, or an hour more on a date on which it has fired, and
/// stays as it is.
pub proof fn looks_fire_or_sleep(timer: TimerState, now: LocalTime, contents: Option<Seq<char>>)
    ensures
        ({
            let (after, step) = checked(timer, Some(now), contents);
            &&& fires_at(timer, now, contents) ==> step == TimerModel::Fire(
                signed_decimal(now.year as int) + "-"@ + decimal(now.day_of_year as nat),
            )
            &&& fires_at(timer, now, contents) ==> after.fired_on == timer.fired_on.push(
                (now.year, now.day_of_year),
            ) && after.target_hour == timer.target_hour && after.target_minute
                == timer.target_minute && after.skipped_day == timer.skipped_day
            &&& !fires_at(timer, now, contents) ==> after == timer
            &&& !fires_at(timer, now, contents) && timer.fired_on.contains(
                (now.year, now.day_of_year),
            ) ==> step == TimerModel::Sleep(3630)
            &&& !fires_at(timer, now, contents) && !timer.fired_on.contains(
                (now.year, now.day_of_year),
            ) ==> step == TimerModel::Sleep(30)
        }),
        checked(timer, None, contents) == (timer, TimerModel::Sleep(30)),
{
}

/// The decimal text of a time of day, hour and minute with a colon between, reads as that time,
/// with or without white space round it; hours beyond 23 and minutes beyond 59 do not read.
pub proof fn times_of_day_read_back(hour: u32, minute: u32)
    ensures
        hour <= 23 && minute <= 59 ==> time_of(
            decimal(hour as nat) + ":"@ + decimal(minute as nat),
        ) == Some((hour, minute)),
        hour > 23 || minute > 59 ==> time_of(
            decimal(hour as nat) + ":"@ + decimal(minute as nat),
        ) is None,
{
    let h = decimal(hour as nat);
    let m = decimal(minute as nat);
    let s = h + ":"@ + m;
    reveal_strlit(":");
    crate::text::decimal_reads_back(hour as nat);
    crate::text::decimal_reads_back(minute as nat);
    assert(crate::text::is_digit(h[0]));
    assert(crate::text::is_digit(m.last()));
    assert(s[0] == h[0]);
    assert(s.last() == m.last());
    assert(trimmed(s) == s);
    crate::text::pieces_of_one(h, ':');
    crate::text::pieces_of_one(m, ':');
    crate::text::pieces_of_joined(h, m, ':');
    assert(s =~= h.push(':') + m);
    assert(pieces(s, ':') =~= seq![h, m]);
    crate::text::parsed_decimal(hour as nat, u32::MAX as nat);
    crate::text::parsed_decimal(minute as nat, u32::MAX as nat);
}

/// A marker tells its date from every other: it holds the restart of that day, and of no other.
pub proof fn markers_tell_the_date(year: i32, day: u32, other_year: i32, other_day: u32)
    ensures
        marked(Some(marker(year, day)), other_year, other_day) <==> year == other_year && day
            == other_day,
        !marked(None, year, day),
{
    marker_is_trimmed(year, day);
    let a = marker(year, day);
    let b = marker(other_year, other_day);
    if a == b {
        reveal_strlit("-");
        let (da, db) = (decimal(day as nat), decimal(other_day as nat));
        let (ya, yb) = (signed_decimal(year as int), signed_decimal(other_year as int));
        crate::text::decimal_reads_back(day as nat);
        crate::text::decimal_reads_back(other_day as nat);
        assert(a[ya.len() as int] == '-' && b[yb.len() as int] == '-');
        if da.len() < db.len() {
            assert(b[ya.len() as int] == db[ya.len() - yb.len() - 1]);
            assert(crate::text::is_digit(db[ya.len() - yb.len() - 1]));
        } else if da.len() > db.len() {
            assert(a[yb.len() as int] == da[yb.len() - ya.len() - 1]);
            assert(crate::text::is_digit(da[yb.len() - ya.len() - 1]));
        }
        assert(ya =~= a.subrange(0, ya.len() as int));
        assert(yb =~= b.subrange(0, yb.len() as int));
        assert(da =~= a.subrange(ya.len() as int + 1, a.len() as int));
        assert(db =~= b.subrange(yb.len() as int + 1, b.len() as int));
        years_are_told_apart(year as int, other_year as int);
    }
}

proof fn years_are_told_apart(a: int, b: int)
    requires
        signed_decimal(a) == signed_decimal(b),
    ensures
        a == b,
{
    let (x, y) = (if a < 0 { -a } else { a }, if b < 0 { -b } else { b });
    crate::text::decimal_reads_back(x as nat);
    crate::text::decimal_reads_back(y as nat);
    assert(crate::text::is_digit(decimal(x as nat)[0]));
    assert(crate::text::is_digit(decimal(y as nat)[0]));
    assert(a < 0 <==> signed_decimal(a)[0] == '-');
    assert(b < 0 <==> signed_decimal(b)[0] == '-');
    if a < 0 {
        assert(signed_decimal(a).drop_first() =~= decimal(x as nat));
        assert(signed_decimal(b).drop_first() =~= decimal(y as nat));
    }
}

/// The marker file lies in the directory under its own name.
pub proof fn markers_lie_in_the_directory(dir: Seq<char>)
    ensures
        dir.len() > 0 && dir.last() != '/' ==> marker_path(dir) == dir.push('/')
            + ".ibctl-cold-restart-marker"@,
        dir.len() > 0 && dir.last() == '/' ==> marker_path(dir) == dir
            + ".ibctl-cold-restart-marker"@,
        dir.len() == 0 ==> marker_path(dir) == ".ibctl-cold-restart-marker"@,
{
    reveal_strlit("/");
    if dir.len() > 0 {
        assert(dir.subrange(dir.len() - 1, dir.len() as int) =~= seq![dir.last()]);
        assert("/"@ =~= seq!['/']);
        assert(seq![dir.last()][0] == dir.last() && seq!['/'][0] == '/');
        assert(dir.push('/') =~= dir + "/"@);
    } else {
        assert(marker_path(dir) =~= ".ibctl-cold-restart-marker"@);
    }
}

} // verus!
