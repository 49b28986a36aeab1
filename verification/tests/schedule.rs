use ibctl::cold_restart::{already_fired, marker_file, marker_text, parse_cold_restart_time, ColdRestartTimer, LocalTime, TimerStep};
use ibctl::event_stream::{is_event_line, subscription, EventReader, StreamEvent, StreamStep};
use ibctl::logging::{log_date, log_date_text, session_date, CivilDate, LogRotation};
use ibctl::port_probe::PortProbe;

#[test]
fn test_parse_cold_restart_time() {
    assert_eq!(parse_cold_restart_time("09:00"), Some((9, 0)));
    assert_eq!(parse_cold_restart_time("13:30"), Some((13, 30)));
    assert_eq!(parse_cold_restart_time(""), None);
    assert_eq!(parse_cold_restart_time("invalid"), None);
    assert_eq!(parse_cold_restart_time("25:00"), None);
}

#[test]
fn cold_restart_times_at_the_edges() {
    assert_eq!(parse_cold_restart_time(" 23:59\n"), Some((23, 59)));
    assert_eq!(parse_cold_restart_time("24:00"), None);
    assert_eq!(parse_cold_restart_time("12:60"), None);
    assert_eq!(parse_cold_restart_time("1:2:3"), None);
    assert_eq!(parse_cold_restart_time("+9:+5"), Some((9, 5)));
    assert_eq!(parse_cold_restart_time("9: 5"), None);
    assert_eq!(parse_cold_restart_time("99999999999:00"), None);
}

fn at(weekday: u32, hour: u32, minute: u32, day: u32) -> LocalTime {
    LocalTime { weekday, hour, minute, day_of_year: day, year: 2026 }
}

#[test]
fn cold_restart_fires_once_on_a_sunday() {
    let mut t = ColdRestartTimer::new("09:00", Some(at(0, 8, 0, 3))).unwrap();
    assert!(matches!(t.check(Some(at(0, 8, 59, 3)), None), TimerStep::Sleep(30)));
    assert!(matches!(t.check(Some(at(1, 9, 0, 4)), None), TimerStep::Sleep(30)));
    assert!(matches!(t.check(None, None), TimerStep::Sleep(30)));
    match t.check(Some(at(0, 9, 0, 3)), None) {
        TimerStep::Fire(m) => assert_eq!(m, "2026-3"),
        other => panic!("{:?}", other),
    }
    assert!(matches!(t.check(Some(at(0, 9, 0, 3)), None), TimerStep::Sleep(3630)));
    assert!(matches!(t.check(Some(at(1, 9, 0, 4)), None), TimerStep::Sleep(30)));
    assert!(matches!(t.check(Some(at(0, 9, 0, 10)), Some("2026-3")), TimerStep::Fire(_)));
    assert!(matches!(t.check(Some(at(0, 9, 0, 3)), Some("2026-10")), TimerStep::Sleep(3630)));
}

#[test]
fn the_marker_prevents_a_second_restart() {
    let mut t = ColdRestartTimer::new("09:00", None).unwrap();
    assert!(matches!(t.check(Some(at(0, 9, 0, 3)), Some(" 2026-3\n")), TimerStep::Sleep(30)));
    assert!(matches!(t.check(Some(at(0, 9, 0, 10)), Some("2026-3")), TimerStep::Fire(_)));
    assert!(already_fired(Some("2026-3"), 2026, 3));
    assert!(!already_fired(Some("2026-33"), 2026, 3));
    assert!(!already_fired(None, 2026, 3));
    assert_eq!(marker_text(-5, 0), "-5-0");
}

#[test]
fn a_late_start_waits_for_the_next_sunday() {
    let mut t = ColdRestartTimer::new("09:00", Some(at(0, 9, 1, 3))).unwrap();
    assert!(matches!(t.check(Some(at(0, 9, 0, 3)), None), TimerStep::Sleep(30)));
    assert!(matches!(t.check(Some(at(0, 9, 0, 10)), None), TimerStep::Fire(_)));
    assert!(ColdRestartTimer::new("", None).is_none());
}

#[test]
fn marker_paths() {
    assert_eq!(marker_file("/home/x"), "/home/x/.ibctl-cold-restart-marker");
    assert_eq!(marker_file("/home/x/"), "/home/x/.ibctl-cold-restart-marker");
    assert_eq!(marker_file(""), ".ibctl-cold-restart-marker");
}

#[test]
fn test_calendar_mode_returns_valid_date() {
    let date = log_date(false, 18);
    assert_eq!(date.len(), 10, "Expected YYYY-MM-DD, got: {}", date);
    assert!(date.contains('-'));
}

#[test]
fn test_futures_mode_returns_valid_date() {
    let date = log_date(true, 18);
    assert_eq!(date.len(), 10, "Expected YYYY-MM-DD, got: {}", date);
    assert!(date.contains('-'));
}

fn day(year: i16, month: i8, day: i8) -> CivilDate {
    CivilDate { year, month, day }
}

#[test]
fn sessions_change_at_the_reopen_hour() {
    assert_eq!(session_date(17, day(2024, 2, 28), 18), day(2024, 2, 28));
    assert_eq!(session_date(18, day(2024, 2, 28), 18), day(2024, 2, 29));
    assert_eq!(session_date(18, day(2024, 2, 29), 18), day(2024, 3, 1));
    assert_eq!(session_date(18, day(2023, 2, 28), 18), day(2023, 3, 1));
    assert_eq!(session_date(23, day(2023, 12, 31), 18), day(2024, 1, 1));
    assert_eq!(session_date(23, day(9999, 12, 31), 18), day(9999, 12, 31));
    assert_eq!(session_date(0, day(2024, 4, 30), 0), day(2024, 5, 1));
    assert_eq!(session_date(23, day(2024, 4, 30), 24), day(2024, 4, 30));
    assert_eq!(session_date(0, day(2024, 4, 30), 200), day(2024, 5, 1));
    assert_eq!(session_date(0, day(1900, 2, 28), 0), day(1900, 3, 1));
    assert_eq!(session_date(0, day(2000, 2, 28), 0), day(2000, 2, 29));
}

#[test]
fn dates_are_written_in_iso_form() {
    assert_eq!(log_date_text(day(2024, 3, 9)), "2024-03-09");
    assert_eq!(log_date_text(day(7, 12, 31)), "0007-12-31");
    assert_eq!(log_date_text(day(-2024, 3, 10)), "-002024-03-10");
}

#[test]
fn log_files_change_with_the_date() {
    let mut r = LogRotation::new("ibctl-live", "2024-03-09");
    assert!(r.maybe_rotate("2024-03-09").is_none());
    assert_eq!(r.maybe_rotate("2024-03-10").unwrap(), "ibctl-live-2024-03-10.log");
    r.rotated("2024-03-10", false);
    assert_eq!(r.current_date, "2024-03-09");
    r.rotated("2024-03-10", true);
    assert!(r.maybe_rotate("2024-03-10").is_none());
    assert_eq!(r.file_for("x"), "ibctl-live-x.log");
}

#[test]
fn backoff_doubles_up_to_five_seconds() {
    let mut r = EventReader::new();
    let mut waits = Vec::new();
    for _ in 0..8 {
        match r.next(StreamEvent::ConnectFailed) {
            StreamStep::ConnectAfter(ms) => waits.push(ms),
            other => panic!("{:?}", other),
        }
    }
    assert_eq!(waits, vec![100, 200, 400, 800, 1600, 3200, 5000, 5000]);
    assert_eq!(r.next(StreamEvent::SubscribeFailed), StreamStep::Connect);
    assert_eq!(r.backoff_ms, 5000);
    assert_eq!(r.next(StreamEvent::Subscribed), StreamStep::Read);
    assert_eq!(r.next(StreamEvent::Ended), StreamStep::ConnectAfter(100));
    assert_eq!(r.backoff_ms, 200);
}

#[test]
fn blank_lines_are_no_events() {
    assert!(!is_event_line("  \t\r\n"));
    assert!(is_event_line("{\"type\":\"keepalive\"}"));
    assert_eq!(subscription(), "SUBSCRIBE\n");
}

#[test]
fn the_probe_needs_failures_in_a_row() {
    let mut p = PortProbe::new(5, 3);
    assert_eq!(p.interval(), Some(5));
    assert!(!p.record(false));
    assert!(!p.record(false));
    assert!(!p.record(true));
    assert!(!p.record(false));
    assert!(!p.record(false));
    assert!(p.record(false));
    assert!(p.record(false));
    assert_eq!(PortProbe::new(0, 3).interval(), None);
}
