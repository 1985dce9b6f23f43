use build_limit_changer::logger::{
    clock_time, enabled, log_line, system_priority, tag, timestamp, ClockTime, Level, LogEntry,
    LogSink,
};

fn entry(text: &str) -> LogEntry {
    LogEntry { line: format!("[00:00:00.000] [INFO] {}\n", text), text: text.to_string() }
}

#[test]
fn all_levels_but_traces_are_recorded() {
    assert!(enabled(Level::Error));
    assert!(enabled(Level::Warn));
    assert!(enabled(Level::Info));
    assert!(enabled(Level::Debug));
    assert!(!enabled(Level::Trace));
}

#[test]
fn levels_have_ranks_names_and_priorities() {
    let levels = [Level::Error, Level::Warn, Level::Info, Level::Debug, Level::Trace];
    let ranks: Vec<u8> = levels.iter().map(|l| l.rank()).collect();
    assert_eq!(ranks, vec![1, 2, 3, 4, 5]);
    let names: Vec<&str> = levels.iter().map(|l| l.name()).collect();
    assert_eq!(names, vec!["ERROR", "WARN", "INFO", "DEBUG", "TRACE"]);
    let priorities: Vec<i32> = levels.iter().map(|l| system_priority(*l)).collect();
    assert_eq!(priorities, vec![6, 5, 4, 3, 2]);
}

#[test]
fn the_tag_follows_the_launcher() {
    assert_eq!(tag(true), "LeviLogger");
    assert_eq!(tag(false), "BuildLimitChanger");
}

#[test]
fn a_moment_is_split_into_the_time_of_day() {
    assert_eq!(clock_time(0), ClockTime { hours: 0, minutes: 0, seconds: 0, millis: 0 });
    assert_eq!(
        clock_time(1_700_000_000_123),
        ClockTime { hours: 22, minutes: 13, seconds: 20, millis: 123 }
    );
    assert_eq!(
        clock_time(86_399_999),
        ClockTime { hours: 23, minutes: 59, seconds: 59, millis: 999 }
    );
    assert_eq!(clock_time(86_400_000), ClockTime { hours: 0, minutes: 0, seconds: 0, millis: 0 });
    assert_eq!(
        clock_time(u64::MAX),
        ClockTime { hours: 14, minutes: 25, seconds: 51, millis: 615 }
    );
}

#[test]
fn the_time_of_day_is_written_in_twelve_characters() {
    assert_eq!(timestamp(0), "00:00:00.000");
    assert_eq!(timestamp(1_700_000_000_123), "22:13:20.123");
    assert_eq!(timestamp(86_399_999), "23:59:59.999");
    assert_eq!(timestamp(3_723_004), "01:02:03.004");
    assert_eq!(timestamp(45_296_070), "12:34:56.070");
}

#[test]
fn a_line_holds_time_level_and_message() {
    assert_eq!(
        log_line(3_723_004, Level::Info, "Hooked function at 0x1000"),
        "[01:02:03.004] [INFO] Hooked function at 0x1000\n"
    );
    assert_eq!(log_line(0, Level::Error, ""), "[00:00:00.000] [ERROR] \n");
    assert_eq!(log_line(86_399_999, Level::Debug, "a\nb"), "[23:59:59.999] [DEBUG] a\nb\n");
}

#[test]
fn lines_are_held_back_until_the_file_is_there() {
    let mut sink = LogSink::new();
    assert!(sink.record(entry("first")).is_none());
    assert!(sink.record(entry("second")).is_none());
    assert!(sink.record(entry("third")).is_none());
    let backlog = sink.attach();
    let texts: Vec<&str> = backlog.iter().map(|e| e.text.as_str()).collect();
    assert_eq!(texts, vec!["first", "second", "third"]);
    assert_eq!(backlog[0].line, "[00:00:00.000] [INFO] first\n");
}

#[test]
fn lines_pass_at_once_when_the_file_is_there() {
    let mut sink = LogSink::new();
    assert!(sink.attach().is_empty());
    let passed = sink.record(entry("now")).expect("the entry comes back");
    assert_eq!(passed.text, "now");
    assert!(sink.attach().is_empty());
}

#[test]
fn the_backlog_is_handed_out_once() {
    let mut sink = LogSink::new();
    assert!(sink.record(entry("early")).is_none());
    assert_eq!(sink.attach().len(), 1);
    assert!(sink.attach().is_empty());
    assert!(sink.record(entry("late")).is_some());
    assert!(sink.attach().is_empty());
}
