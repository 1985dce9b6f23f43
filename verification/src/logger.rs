//! The log sink's rules: which levels are recorded and under which tag, how
//! a line is written, and the holding back of lines until the log file is
//! there.

use vstd::prelude::*;
use vstd::string::*;

verus! {

/// The level of a log message, from the gravest to the most detailed.
#[derive(Clone, Copy, Debug, PartialEq, Eq, Structural)]
pub enum Level {
    Error,
    Warn,
    Info,
    Debug,
    Trace,
}

impl Level {
    /// The level's rank: 1 for errors, up to 5 for traces.
    pub open spec fn rank_spec(self) -> int {
        match self {
            Level::Error => 1,
            Level::Warn => 2,
            Level::Info => 3,
            Level::Debug => 4,
            Level::Trace => 5,
        }
    }

    pub fn rank(self) -> (r: u8)
        ensures
            r == self.rank_spec(),
    {
        match self {
            Level::Error => 1,
            Level::Warn => 2,
            Level::Info => 3,
            Level::Debug => 4,
            Level::Trace => 5,
        }
    }

    pub open spec fn name_spec(self) -> Seq<char> {
        match self {
            Level::Error => "ERROR"@,
            Level::Warn => "WARN"@,
            Level::Info => "INFO"@,
            Level::Debug => "DEBUG"@,
            Level::Trace => "TRACE"@,
        }
    }

    /// The level's name as a log line shows it.
    pub fn name(self) -> (name: &'static str)
        ensures
            name@ == self.name_spec(),
    {
        match self {
            Level::Error => "ERROR",
            Level::Warn => "WARN",
            Level::Info => "INFO",
            Level::Debug => "DEBUG",
            Level::Trace => "TRACE",
        }
    }
}

/// Whether messages of this level are recorded: all but traces.
pub fn enabled(level: Level) -> (yes: bool)
    ensures
        yes == (level.rank_spec() <= Level::Debug.rank_spec()),
{
    level.rank() <= 4
}

/// The priority under which the system log of a phone takes a message of
/// this level: 6 for errors, down to 2 for traces.
pub fn system_priority(level: Level) -> (priority: i32)
    ensures
        priority == 7 - level.rank_spec(),
{
    7 - level.rank() as i32
}

/// The tag under which messages are printed.
pub fn tag(is_levi_launcher: bool) -> (tag: &'static str)
    ensures
        tag@ == if is_levi_launcher {
            "LeviLogger"@
        } else {
            "BuildLimitChanger"@
        },
{
    if is_levi_launcher {
        "LeviLogger"
    } else {
        "BuildLimitChanger"
    }
}

/// The time of day of a moment given in milliseconds since the epoch.
#[derive(Clone, Copy, Debug, PartialEq, Eq, Structural)]
pub struct ClockTime {
    pub hours: u8,
    pub minutes: u8,
    pub seconds: u8,
    pub millis: u16,
}

pub open spec fn clock_time_spec(since_epoch: u64) -> ClockTime {
    ClockTime {
        hours: (since_epoch / 3_600_000 % 24) as u8,
        minutes: (since_epoch / 60_000 % 60) as u8,
        seconds: (since_epoch / 1000 % 60) as u8,
        millis: (since_epoch % 1000) as u16,
    }
}

/// Splits a moment, in milliseconds since the epoch, into the hour of the
/// day, the minute, the second and the millisecond.
pub fn clock_time(since_epoch: u64) -> (time: ClockTime)
    ensures
        time == clock_time_spec(since_epoch),
        time.hours < 24,
        time.minutes < 60,
        time.seconds < 60,
        time.millis < 1000,
{
    ClockTime {
        hours: (since_epoch / 3_600_000 % 24) as u8,
        minutes: (since_epoch / 60_000 % 60) as u8,
        seconds: (since_epoch / 1000 % 60) as u8,
        millis: (since_epoch % 1000) as u16,
    }
}

/// The character of a decimal digit.
pub open spec fn digit_char(d: int) -> char {
    ((0x30 + d) as u8) as char
}

/// The two decimal digits of a number below 100.
pub open spec fn two_digits(v: int) -> Seq<char> {
    seq![digit_char(v / 10), digit_char(v % 10)]
}

/// The three decimal digits of a number below 1000.
pub open spec fn three_digits(v: int) -> Seq<char> {
    seq![digit_char(v / 100), digit_char(v / 10 % 10), digit_char(v % 10)]
}

/// The time of day as a log line shows it: hours, minutes and seconds of
/// two digits each with colons between them, then a point and three digits
/// of milliseconds.
pub open spec fn timestamp_spec(since_epoch: u64) -> Seq<char> {
    let t = clock_time_spec(since_epoch);
    two_digits(t.hours as int) + seq![':'] + two_digits(t.minutes as int) + seq![':']
        + two_digits(t.seconds as int) + seq!['.'] + three_digits(t.millis as int)
}

/// A line of the log file: the time of day and the level's name, each in
/// square brackets, then the message and a line feed.
pub open spec fn log_line_spec(since_epoch: u64, level: Level, message: Seq<char>) -> Seq<char> {
    seq!['['] + timestamp_spec(since_epoch) + seq![']', ' ', '['] + level.name_spec() + seq![
        ']',
        ' ',
    ] + message + seq!['\n']
}

fn digit_text(d: u8) -> (text: &'static str)
    requires
        d < 10,
    ensures
        text@ == seq![digit_char(d as int)],
{
    proof {
        reveal_strlit("0");
        reveal_strlit("1");
        reveal_strlit("2");
        reveal_strlit("3");
        reveal_strlit("4");
        reveal_strlit("5");
        reveal_strlit("6");
        reveal_strlit("7");
        reveal_strlit("8");
        reveal_strlit("9");
    }
    let text: &'static str = match d {
        0 => "0",
        1 => "1",
        2 => "2",
        3 => "3",
        4 => "4",
        5 => "5",
        6 => "6",
        7 => "7",
        8 => "8",
        _ => "9",
    };
    text
}

fn push_two_digits(out: &mut String, v: u8)
    requires
        v < 100,
    ensures
        final(out)@ == old(out)@ + two_digits(v as int),
{
    out.append(digit_text(v / 10));
    out.append(digit_text(v % 10));
}

/// Writes the time of day of a moment, in milliseconds since the epoch, as
/// the twelve characters `HH:MM:SS.mmm`.
pub fn timestamp(since_epoch: u64) -> (text: String)
    ensures
        text@ == timestamp_spec(since_epoch),
        text@.len() == 12,
{
    let t: ClockTime = clock_time(since_epoch);
    let mut text: String = String::new();
    proof {
        reveal_strlit(":");
        reveal_strlit(".");
    }
    push_two_digits(&mut text, t.hours);
    text.append(":");
    push_two_digits(&mut text, t.minutes);
    text.append(":");
    push_two_digits(&mut text, t.seconds);
    text.append(".");
    text.append(digit_text((t.millis / 100) as u8));
    text.append(digit_text((t.millis / 10 % 10) as u8));
    text.append(digit_text((t.millis % 10) as u8));
    text
}

/// Writes the line that the log file gets for a message.
pub fn log_line(since_epoch: u64, level: Level, message: &str) -> (line: String)
    ensures
        line@ == log_line_spec(since_epoch, level, message@),
{
    proof {
        reveal_strlit("[");
        reveal_strlit("] [");
        reveal_strlit("] ");
        reveal_strlit("\n");
    }
    let mut line: String = String::from_str("[");
    let time: String = timestamp(since_epoch);
    line.append(time.as_str());
    line.append("] [");
    line.append(level.name());
    line.append("] ");
    line.append(message);
    line.append("\n");
    line
}

/// A message on its way to the log: the line for the log file, and the bare
/// text for the console.
#[derive(Debug)]
pub struct LogEntry {
    pub line: String,
    pub text: String,
}

/// The sink's two states: holding lines back while the log file is not
/// there, and passing them on once it is.
pub struct LogSink {
    attached: bool,
    pending: Vec<LogEntry>,
}

impl LogSink {
    /// Whether the log file is there.
    pub closed spec fn is_attached(&self) -> bool {
        self.attached
    }

    /// The entries held back, the oldest first.
    pub closed spec fn pending(&self) -> Seq<LogEntry> {
        self.pending@
    }

    /// A sink without log file that holds nothing back yet.
    pub fn new() -> (sink: LogSink)
        ensures
            !sink.is_attached(),
            sink.pending().len() == 0,
    {
        LogSink { attached: false, pending: Vec::new() }
    }

    /// Takes an entry. Once the log file is there, the entry comes back to
    /// be written at once; before that it is held back in its turn.
    pub fn record(&mut self, entry: LogEntry) -> (now: Option<LogEntry>)
        ensures
            final(self).is_attached() == old(self).is_attached(),
            old(self).is_attached() ==> now == Some(entry) && final(self).pending() == old(
                self,
            ).pending(),
            !old(self).is_attached() ==> now is None && final(self).pending() == old(
                self,
            ).pending().push(entry),
    {
        if self.attached {
            Some(entry)
        } else {
            self.pending.push(entry);
            None
        }
    }

    /// Marks the log file as there and hands out what was held back, the
    /// oldest entry first. Nothing is held back afterwards, so that no
    /// entry is handed out twice.
    pub fn attach(&mut self) -> (backlog: Vec<LogEntry>)
        ensures
            final(self).is_attached(),
            final(self).pending().len() == 0,
            backlog@ == old(self).pending(),
    {
        let mut backlog: Vec<LogEntry> = Vec::new();
        std::mem::swap(&mut self.pending, &mut backlog);
        self.attached = true;
        backlog
    }
}

} // verus!
