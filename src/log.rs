use vstd::prelude::*;
use crate::text::{decimal, digit, zero_padded};
use chrono::{Datelike, Timelike};
use ansi_term::Colour as AnsiColour;

verus! {

/// How serious a message is, from least to most; a filter of `Off` lets
/// nothing through.
#[derive(Debug, Clone, Copy, PartialEq, Eq, Structural)]
pub enum Severity {
    Trace,
    Info,
    Warn,
    Error,
    Off,
}

impl Severity {
    pub open spec fn spec_rank(self) -> u8 {
        match self {
            Severity::Trace => 1,
            Severity::Info => 2,
            Severity::Warn => 3,
            Severity::Error => 4,
            Severity::Off => 5,
        }
    }

    /// The place of the severity in the order.
    pub fn rank(&self) -> (r: u8)
        ensures
            r == self.spec_rank(),
    {
        match self {
            Severity::Trace => 1,
            Severity::Info => 2,
            Severity::Warn => 3,
            Severity::Error => 4,
            Severity::Off => 5,
        }
    }

    pub open spec fn spec_text(self) -> Seq<char> {
        match self {
            Severity::Trace => "TRACE"@,
            Severity::Info => "INFO"@,
            Severity::Warn => "WARNING"@,
            Severity::Error => "ERROR"@,
            Severity::Off => "NONE"@,
        }
    }

    /// The name of the severity, as a log line shows it.
    pub fn text(&self) -> (r: String)
        ensures
            r@ == self.spec_text(),
    {
        match self {
            Severity::Trace => String::from_str("TRACE"),
            Severity::Info => String::from_str("INFO"),
            Severity::Warn => String::from_str("WARNING"),
            Severity::Error => String::from_str("ERROR"),
            Severity::Off => String::from_str("NONE"),
        }
    }
}

/// A terminal text colour.
#[derive(Debug, Clone, Copy, PartialEq, Eq, Structural)]
pub enum Colour {
    Black,
    Red,
    Green,
    Yellow,
    Blue,
    Purple,
    Cyan,
    White,
    /// One of the 256 colours of the extended palette.
    Fixed(u8),
    /// A colour of 24 bits.
    RGB(u8, u8, u8),
}

/// The code that selects a colour for the text that follows.
pub open spec fn foreground_code(c: Colour) -> Seq<char> {
    match c {
        Colour::Black => "30"@,
        Colour::Red => "31"@,
        Colour::Green => "32"@,
        Colour::Yellow => "33"@,
        Colour::Blue => "34"@,
        Colour::Purple => "35"@,
        Colour::Cyan => "36"@,
        Colour::White => "37"@,
        Colour::Fixed(n) => "38;5;"@ + decimal(n as nat),
        Colour::RGB(r, g, b) => "38;2;"@ + decimal(r as nat) + ";"@ + decimal(g as nat) + ";"@
            + decimal(b as nat),
    }
}

/// `text` in colour `c` on a terminal: the escape sequence of the colour,
/// the text, and the sequence that resets all styles.
pub open spec fn painted(c: Colour, text: Seq<char>) -> Seq<char> {
    "\x1B["@ + foreground_code(c) + "m"@ + text + "\x1B[0m"@
}

/// Relies on ansi_term's `Colour::paint` and the `Display` of what it
/// returns: the colour's escape sequence, the text, then the reset sequence.
#[verifier::external_body]
fn paint(colour: Colour, text: &str) -> (r: String)
    ensures
        r@ == painted(colour, text@),
{
    let c = match colour {
        Colour::Black => AnsiColour::Black, Colour::Red => AnsiColour::Red, Colour::Green => AnsiColour::Green,
        Colour::Yellow => AnsiColour::Yellow, Colour::Blue => AnsiColour::Blue, Colour::Purple => AnsiColour::Purple,
        Colour::Cyan => AnsiColour::Cyan, Colour::White => AnsiColour::White, Colour::Fixed(n) => AnsiColour::Fixed(n),
        Colour::RGB(r, g, b) => AnsiColour::RGB(r, g, b),
    };
    c.paint(text).to_string()
}

/// The first and last years of the calendar that the clock library handles.
pub const MIN_YEAR: i32 = -262143;
pub const MAX_YEAR: i32 = 262142;

pub open spec fn is_leap_year(y: int) -> bool {
    (y % 4 == 0 && y % 100 != 0) || y % 400 == 0
}

pub open spec fn days_in_month(y: int, m: int) -> int {
    if m == 2 {
        if is_leap_year(y) {
            29
        } else {
            28
        }
    } else if m == 4 || m == 6 || m == 9 || m == 11 {
        30
    } else {
        31
    }
}

/// A wall-clock time in the machine's time zone, to the second.
#[derive(Debug, Clone, Copy, PartialEq, Eq, Structural)]
pub struct LocalTime {
    pub year: i32,
    pub month: u32,
    pub day: u32,
    pub hour: u32,
    pub minute: u32,
    pub second: u32,
}

/// Two decimal digits of `n`, which is below 100.
pub open spec fn two_digits(n: nat) -> Seq<char> {
    seq![digit(n / 10), digit(n % 10)]
}

/// A year as four digits at least, signed outside 0 to 9999.
pub open spec fn year_text(y: int) -> Seq<char> {
    if 0 <= y <= 9999 {
        zero_padded(decimal(y as nat), 4)
    } else if y > 9999 {
        "+"@ + decimal(y as nat)
    } else {
        "-"@ + zero_padded(decimal((-y) as nat), 4)
    }
}

impl LocalTime {
    /// A date that the calendar has, and a time of day.
    pub open spec fn wf(&self) -> bool {
        &&& MIN_YEAR <= self.year <= MAX_YEAR
        &&& 1 <= self.month <= 12
        &&& 1 <= self.day <= days_in_month(self.year as int, self.month as int)
        &&& self.hour < 24
        &&& self.minute < 60
        &&& self.second < 60
    }

    /// Whether this is a date that the calendar has, and a time of day.
    pub fn is_valid(&self) -> (r: bool)
        ensures
            r == self.wf(),
    {
        if self.year < MIN_YEAR || self.year > MAX_YEAR || self.month < 1 || self.month > 12 {
            return false;
        }
        let leap = (self.year % 4 == 0 && self.year % 100 != 0) || self.year % 400 == 0;
        let days: u32 = if self.month == 2 {
            if leap {
                29
            } else {
                28
            }
        } else if self.month == 4 || self.month == 6 || self.month == 9 || self.month == 11 {
            30
        } else {
            31
        };
        1 <= self.day && self.day <= days && self.hour < 24 && self.minute < 60 && self.second < 60
    }

    /// The time as `day.month.year | hour:minute:second`.
    pub open spec fn spec_text(&self) -> Seq<char> {
        two_digits(self.day as nat) + "."@ + two_digits(self.month as nat) + "."@ + year_text(
            self.year as int,
        ) + " | "@ + two_digits(self.hour as nat) + ":"@ + two_digits(self.minute as nat) + ":"@
            + two_digits(self.second as nat)
    }
}

/// Relies on chrono's `Local::now`: the current date and time in the
/// machine's time zone, which is always a date of the calendar that chrono
/// handles, with each part in its documented range.
#[verifier::external_body]
fn local_now() -> (r: LocalTime)
    ensures
        r.wf(),
{
    let now = chrono::Local::now();
    LocalTime {
        year: now.year(),
        month: now.month(),
        day: now.day(),
        hour: now.hour(),
        minute: now.minute(),
        second: now.second(),
    }
}

/// Relies on chrono's `format` with the pattern `%d.%m.%Y | %H:%M:%S`: each
/// field zero-padded to two digits, the year to four, with a sign outside 0
/// to 9999.
#[verifier::external_body]
fn format_local_time(t: &LocalTime) -> (r: String)
    requires
        t.wf(),
    ensures
        r@ == t.spec_text(),
{
    let date = chrono::NaiveDate::from_ymd_opt(t.year, t.month, t.day);
    let time = chrono::NaiveTime::from_hms_opt(t.hour, t.minute, t.second);
    match (date, time) {
        (Some(d), Some(tm)) => d.and_time(tm).format("%d.%m.%Y | %H:%M:%S").to_string(),
        _ => String::new(),
    }
}

/// One message for a logger.
#[derive(Debug, Clone)]
pub struct LogMessage {
    pub content: String,
    pub severity: Severity,
    pub time: LocalTime,
    pub colour: Colour,
    /// Whether the engine itself, rather than its user, wrote the message.
    pub engine_log: bool,
}

/// The colour in which messages of a severity are shown.
pub open spec fn spec_severity_colour(s: Severity) -> Colour {
    match s {
        Severity::Trace => Colour::RGB(0, 255, 255),
        Severity::Info => Colour::White,
        Severity::Warn => Colour::Yellow,
        _ => Colour::Red,
    }
}

pub fn severity_colour(s: Severity) -> (r: Colour)
    ensures
        r == spec_severity_colour(s),
{
    match s {
        Severity::Trace => Colour::RGB(0, 255, 255),
        Severity::Info => Colour::White,
        Severity::Warn => Colour::Yellow,
        _ => Colour::Red,
    }
}

impl LogMessage {
    /// A message written now.
    pub fn new(content: String, severity: Severity, colour: Colour, engine_log: bool) -> (r: Self)
        ensures
            r.content == content,
            r.severity == severity,
            r.colour == colour,
            r.engine_log == engine_log,
            r.time.wf(),
    {
        LogMessage::at(content, severity, colour, engine_log, local_now())
    }

    /// A message written at `time`.
    pub fn at(content: String, severity: Severity, colour: Colour, engine_log: bool, time: LocalTime) -> (r: Self)
        ensures
            r.content == content,
            r.severity == severity,
            r.colour == colour,
            r.engine_log == engine_log,
            r.time == time,
    {
        LogMessage { content, severity, time, colour, engine_log }
    }

    /// A message written now, in the colour of its severity.
    pub fn with_severity(content: String, severity: Severity, engine_log: bool) -> (r: Self)
        ensures
            r.content == content,
            r.severity == severity,
            r.colour == spec_severity_colour(severity),
            r.engine_log == engine_log,
            r.time.wf(),
    {
        LogMessage::new(content, severity, severity_colour(severity), engine_log)
    }

    /// When the message was written, as `day.month.year | hour:minute:second`.
    pub fn format_time(&self) -> (r: String)
        requires
            self.time.wf(),
        ensures
            r@ == self.time.spec_text(),
    {
        format_local_time(&self.time)
    }

    /// The line of the message before colouring: who wrote it, its
    /// severity, its time and its text.
    pub open spec fn spec_line(&self) -> Seq<char> {
        (if self.engine_log {
            "WHIRLWING | "@
        } else {
            "LOG | "@
        }) + self.severity.spec_text() + "\t| "@ + self.time.spec_text() + " | "@ + self.content@
    }
}

/// A logger that keeps the messages at or above a severity.
#[derive(Debug, Clone, Copy, PartialEq, Eq, Structural)]
pub struct Logger {
    pub severity_filter: Severity,
}

impl Logger {
    pub fn new(severity_filter: Severity) -> (r: Self)
        ensures
            r.severity_filter == severity_filter,
    {
        Logger { severity_filter }
    }

    /// Whether the logger keeps a message of severity `s`: never under a
    /// filter of `Off`, else when `s` is at least the filter.
    pub open spec fn keeps(&self, s: Severity) -> bool {
        self.severity_filter != Severity::Off && s.spec_rank() >= self.severity_filter.spec_rank()
    }

    /// The coloured line to write to the error stream for `message`, or
    /// nothing where the filter drops it.
    pub fn print(&self, message: &LogMessage) -> (r: Option<String>)
        requires
            message.time.wf(),
        ensures
            r is Some <==> self.keeps(message.severity),
            r is Some ==> r->0@ == painted(message.colour, message.spec_line()),
    {
        if self.severity_filter == Severity::Off || message.severity.rank() < self.severity_filter.rank() {
            return None;
        }
        let mut line = if message.engine_log {
            String::from_str("WHIRLWING | ")
        } else {
            String::from_str("LOG | ")
        };
        line.append(message.severity.text().as_str());
        line.append("\t| ");
        line.append(message.format_time().as_str());
        line.append(" | ");
        line.append(message.content.as_str());
        Some(paint(message.colour, line.as_str()))
    }
}

/// Under a filter of `Warn`, trace and info messages are dropped and
/// warnings and errors kept; under a filter of `Off`, every message is
/// dropped.
pub proof fn lemma_severity_filtering()
    ensures
        !(Logger { severity_filter: Severity::Warn }).keeps(Severity::Trace),
        !(Logger { severity_filter: Severity::Warn }).keeps(Severity::Info),
        (Logger { severity_filter: Severity::Warn }).keeps(Severity::Warn),
        (Logger { severity_filter: Severity::Warn }).keeps(Severity::Error),
        forall|s: Severity| !(Logger { severity_filter: Severity::Off }).keeps(s),
{
}

/// The two loggers of a process: one for the user's messages, one for the
/// engine's own.
#[derive(Debug, Clone, Copy, PartialEq, Eq, Structural)]
pub struct LogConfig {
    pub user: Logger,
    pub engine: Logger,
}

impl LogConfig {
    /// Both loggers keep every message.
    pub fn new() -> (r: Self)
        ensures
            r.user.severity_filter == Severity::Trace,
            r.engine.severity_filter == Severity::Trace,
    {
        LogConfig { user: Logger::new(Severity::Trace), engine: Logger::new(Severity::Trace) }
    }

    /// The line for `message` from the logger of whoever wrote it.
    pub fn print(&self, message: &LogMessage) -> (r: Option<String>)
        requires
            message.time.wf(),
        ensures
            ({
                let l = if message.engine_log {
                    self.engine
                } else {
                    self.user
                };
                &&& r is Some <==> l.keeps(message.severity)
                &&& r is Some ==> r->0@ == painted(message.colour, message.spec_line())
            }),
    {
        if message.engine_log {
            self.engine.print(message)
        } else {
            self.user.print(message)
        }
    }
}

/// Sets the user's logger to the standard one with this filter.
pub fn set_log_default(config: &mut LogConfig, severity_filter: Severity)
    ensures
        final(config).user == (Logger { severity_filter }),
        final(config).engine == old(config).engine,
{
    config.user = Logger::new(severity_filter);
}

/// Sets the engine's logger to the standard one with this filter.
pub fn set_engine_log_default(config: &mut LogConfig, severity_filter: Severity)
    ensures
        final(config).engine == (Logger { severity_filter }),
        final(config).user == old(config).user,
{
    config.engine = Logger::new(severity_filter);
}

} // verus!
