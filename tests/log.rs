use whirlwing::log::{
    set_engine_log_default, set_log_default, severity_colour, Colour, LocalTime, LogConfig, LogMessage, Logger,
    Severity,
};

fn at(y: i32, mo: u32, d: u32, h: u32, mi: u32, s: u32) -> LocalTime {
    LocalTime { year: y, month: mo, day: d, hour: h, minute: mi, second: s }
}

fn message(severity: Severity, engine: bool) -> LogMessage {
    LogMessage::at("hi".to_string(), severity, severity_colour(severity), engine, at(2024, 3, 5, 7, 8, 9))
}

#[test]
fn warn_filter_drops_trace_and_info_and_keeps_warn_and_error() {
    let l = Logger::new(Severity::Warn);
    assert!(l.print(&message(Severity::Trace, false)).is_none());
    assert!(l.print(&message(Severity::Info, false)).is_none());
    assert!(l.print(&message(Severity::Warn, false)).is_some());
    assert!(l.print(&message(Severity::Error, false)).is_some());
}

#[test]
fn off_filter_drops_every_message() {
    let l = Logger::new(Severity::Off);
    for s in [Severity::Trace, Severity::Info, Severity::Warn, Severity::Error, Severity::Off] {
        assert!(l.print(&message(s, false)).is_none());
    }
}

#[test]
fn user_line_is_coloured_and_timestamped() {
    let l = Logger::new(Severity::Trace);
    let line = l.print(&message(Severity::Warn, false)).unwrap();
    assert_eq!(line, "\x1b[33mLOG | WARNING\t| 05.03.2024 | 07:08:09 | hi\x1b[0m");
}

#[test]
fn engine_trace_line_uses_the_rgb_colour() {
    let l = Logger::new(Severity::Trace);
    let line = l.print(&message(Severity::Trace, true)).unwrap();
    assert_eq!(line, "\x1b[38;2;0;255;255mWHIRLWING | TRACE\t| 05.03.2024 | 07:08:09 | hi\x1b[0m");
}

#[test]
fn info_and_error_colours() {
    let l = Logger::new(Severity::Trace);
    assert_eq!(l.print(&message(Severity::Info, false)).unwrap(), "\x1b[37mLOG | INFO\t| 05.03.2024 | 07:08:09 | hi\x1b[0m");
    assert_eq!(l.print(&message(Severity::Error, false)).unwrap(), "\x1b[31mLOG | ERROR\t| 05.03.2024 | 07:08:09 | hi\x1b[0m");
    let m = LogMessage::at("x".to_string(), Severity::Info, Colour::Fixed(208), false, at(2024, 1, 1, 0, 0, 0));
    assert_eq!(l.print(&m).unwrap(), "\x1b[38;5;208mLOG | INFO\t| 01.01.2024 | 00:00:00 | x\x1b[0m");
}

#[test]
fn years_are_padded_to_four_digits_and_signed_outside_the_common_range() {
    let m = |t| LogMessage::at(String::new(), Severity::Info, Colour::White, false, t);
    assert_eq!(m(at(5, 12, 31, 23, 59, 59)).format_time(), "31.12.0005 | 23:59:59");
    assert_eq!(m(at(10000, 2, 29, 1, 2, 3)).format_time(), "29.02.+10000 | 01:02:03");
    assert_eq!(m(at(-44, 3, 15, 12, 0, 0)).format_time(), "15.03.-0044 | 12:00:00");
}

#[test]
fn a_message_written_now_has_a_time_of_the_usual_shape() {
    let m = LogMessage::with_severity("now".to_string(), Severity::Info, false);
    assert_eq!(m.colour, Colour::White);
    let t = m.format_time();
    assert_eq!(t.len(), "dd.mm.yyyy | hh:mm:ss".len());
    assert_eq!(&t[2..3], ".");
    assert_eq!(&t[10..13], " | ");
}

#[test]
fn each_channel_has_its_own_filter() {
    let mut c = LogConfig::new();
    set_log_default(&mut c, Severity::Error);
    assert_eq!(c.user.severity_filter, Severity::Error);
    assert_eq!(c.engine.severity_filter, Severity::Trace);
    assert!(c.print(&message(Severity::Warn, false)).is_none());
    assert!(c.print(&message(Severity::Warn, true)).is_some());
    set_engine_log_default(&mut c, Severity::Off);
    assert!(c.print(&message(Severity::Error, true)).is_none());
    assert!(c.print(&message(Severity::Error, false)).is_some());
}

#[test]
fn severities_are_ordered_and_named() {
    let all = [Severity::Trace, Severity::Info, Severity::Warn, Severity::Error, Severity::Off];
    let ranks: Vec<u8> = all.iter().map(|s| s.rank()).collect();
    assert_eq!(ranks, vec![1, 2, 3, 4, 5]);
    let names: Vec<String> = all.iter().map(|s| s.text()).collect();
    assert_eq!(names, vec!["TRACE", "INFO", "WARNING", "ERROR", "NONE"]);
}

#[test]
fn only_calendar_dates_and_times_of_day_are_valid() {
    assert!(at(2024, 2, 29, 0, 0, 0).is_valid());
    assert!(at(2000, 2, 29, 23, 59, 59).is_valid());
    assert!(at(-4, 2, 29, 0, 0, 0).is_valid());
    assert!(!at(2023, 2, 29, 0, 0, 0).is_valid());
    assert!(!at(1900, 2, 29, 0, 0, 0).is_valid());
    assert!(!at(2024, 4, 31, 0, 0, 0).is_valid());
    assert!(!at(2024, 13, 1, 0, 0, 0).is_valid());
    assert!(!at(2024, 1, 0, 0, 0, 0).is_valid());
    assert!(!at(2024, 1, 1, 24, 0, 0).is_valid());
    assert!(!at(2024, 1, 1, 0, 60, 0).is_valid());
    assert!(!at(262143, 1, 1, 0, 0, 0).is_valid());
}
