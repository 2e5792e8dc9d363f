use goolog::format::{starts_with_sentinel, ANSI_DIM_BOLD, ANSI_RESET, SEPARATOR};
use goolog::{FormatterPolicy, Level, LevelLabel, Record, TargetPolicy, Timestamp, FATAL_SENTINEL};

fn policy(include_timestamp: bool, colorize: bool, recognize_fatal_sentinel: bool) -> FormatterPolicy {
    FormatterPolicy { include_timestamp, colorize, recognize_fatal_sentinel }
}

fn wall_time() -> Timestamp {
    Timestamp::new(2024, 1, 2, 3, 4, 5)
}

fn hello() -> Record {
    Record::new("Main", Level::Info, "Hello World!").at(wall_time())
}

fn without_ansi(line: &str) -> String {
    let mut out = String::new();
    let mut chars = line.chars();
    while let Some(c) = chars.next() {
        if c == '\x1b' {
            for skipped in chars.by_ref() {
                if skipped == 'm' {
                    break;
                }
            }
        } else {
            out.push(c);
        }
    }
    out
}

#[test]
fn constants_are_as_documented() {
    assert_eq!(FATAL_SENTINEL, "$goolog:fatal=");
    assert_eq!(FATAL_SENTINEL.chars().count(), 14);
    assert_eq!(SEPARATOR, " | ");
    assert_eq!(ANSI_RESET, "\x1b[0m");
    assert_eq!(ANSI_DIM_BOLD, "\x1b[2m\x1b[1m");
}

#[test]
fn plain_line_with_narrow_level() {
    let line = policy(true, false, false).format(&TargetPolicy::new(16), &hello());
    assert_eq!(line, "02.01.2024 | 03:04:05 | Main             | INFO  | Hello World!");
}

#[test]
fn plain_fatal_aware_line_has_a_wide_level() {
    let line = FormatterPolicy::plain().format(&TargetPolicy::new(16), &hello());
    assert_eq!(line, "02.01.2024 | 03:04:05 | Main             | INFO           | Hello World!");
}

#[test]
fn decorated_line_wraps_timestamp_and_level() {
    let line = FormatterPolicy::decorated().format(&TargetPolicy::new(16), &hello());
    assert_eq!(
        line,
        "\x1b[2m\x1b[1m02.01.2024\x1b[0m | \x1b[2m\x1b[1m03:04:05\x1b[0m | Main             | \x1b[32mINFO \x1b[0m | Hello World!"
    );
}

#[test]
fn decorated_line_reads_like_the_plain_one() {
    let line = FormatterPolicy::decorated().format(&TargetPolicy::new(16), &hello());
    assert_eq!(without_ansi(&line), "02.01.2024 | 03:04:05 | Main             | INFO  | Hello World!");
}

#[test]
fn line_without_timestamp_starts_with_the_target() {
    let line = policy(false, false, false).format(&TargetPolicy::new(16), &hello());
    assert_eq!(line, "Main             | INFO  | Hello World!");
}

#[test]
fn record_without_timestamp_gets_none() {
    let record = Record::new("Main", Level::Warn, "no clock");
    let line = policy(true, false, false).format(&TargetPolicy::new(6), &record);
    assert_eq!(line, "Main   | WARN  | no clock");
    let colored = policy(true, true, false).format(&TargetPolicy::new(6), &record);
    assert_eq!(colored, "Main   | \x1b[33mWARN \x1b[0m | no clock");
}

#[test]
fn width_zero_shows_the_target_verbatim() {
    let line = policy(false, false, false).format(&TargetPolicy::new(0), &hello());
    assert_eq!(line, "Main | INFO  | Hello World!");
}

#[test]
fn every_level_has_its_color() {
    let expected = [
        (Level::Trace, "\x1b[37mTRACE\x1b[0m"),
        (Level::Debug, "\x1b[34mDEBUG\x1b[0m"),
        (Level::Info, "\x1b[32mINFO \x1b[0m"),
        (Level::Warn, "\x1b[33mWARN \x1b[0m"),
        (Level::Error, "\x1b[31mERROR\x1b[0m"),
    ];
    for (level, field) in expected {
        let line = policy(false, true, true).format(&TargetPolicy::new(1), &Record::new("t", level, "m"));
        assert_eq!(line, format!("t | {} | m", field));
    }
}

#[test]
fn level_labels_and_colors() {
    assert_eq!(LevelLabel::of(Level::Trace), LevelLabel::Trace);
    assert_eq!(LevelLabel::of(Level::Debug), LevelLabel::Debug);
    assert_eq!(LevelLabel::of(Level::Info), LevelLabel::Info);
    assert_eq!(LevelLabel::of(Level::Warn), LevelLabel::Warn);
    assert_eq!(LevelLabel::of(Level::Error), LevelLabel::Error);
    assert_eq!(LevelLabel::Trace.name(), "TRACE");
    assert_eq!(LevelLabel::Debug.name(), "DEBUG");
    assert_eq!(LevelLabel::Info.name(), "INFO");
    assert_eq!(LevelLabel::Warn.name(), "WARN");
    assert_eq!(LevelLabel::Error.name(), "ERROR");
    assert_eq!(LevelLabel::Fatal.name(), "FATAL");
    assert_eq!(LevelLabel::Fatal.color(), "\x1b[31m");
    assert_eq!(LevelLabel::Fatal.color(), LevelLabel::Error.color());
    assert_eq!(LevelLabel::Trace.color(), "\x1b[37m");
    assert_eq!(LevelLabel::Debug.color(), "\x1b[34m");
    assert_eq!(LevelLabel::Info.color(), "\x1b[32m");
    assert_eq!(LevelLabel::Warn.color(), "\x1b[33m");
}

#[test]
fn level_width_per_policy() {
    assert_eq!(policy(true, true, true).level_width(), 5);
    assert_eq!(policy(true, true, false).level_width(), 5);
    assert_eq!(policy(true, false, true).level_width(), 14);
    assert_eq!(policy(true, false, false).level_width(), 5);
}

#[test]
fn named_policies() {
    assert_eq!(FormatterPolicy::decorated(), policy(true, true, true));
    assert_eq!(FormatterPolicy::plain(), policy(true, false, true));
}

#[test]
fn fatal_sentinel_is_rewritten() {
    let record = Record::new("Main", Level::Error, "$goolog:fatal=disk full");
    let plain = policy(false, false, true).format(&TargetPolicy::new(4), &record);
    assert_eq!(plain, "Main | FATAL          | disk full");
    let colored = policy(false, true, true).format(&TargetPolicy::new(4), &record);
    assert_eq!(colored, "Main | \x1b[31mFATAL\x1b[0m | disk full");
}

#[test]
fn fatal_sentinel_is_left_alone_by_an_unaware_policy() {
    let record = Record::new("Main", Level::Error, "$goolog:fatal=disk full");
    let line = policy(false, false, false).format(&TargetPolicy::new(4), &record);
    assert_eq!(line, "Main | ERROR | $goolog:fatal=disk full");
}

#[test]
fn fatal_sentinel_counts_only_on_errors() {
    for level in [Level::Trace, Level::Debug, Level::Info, Level::Warn] {
        let record = Record::new("Main", level, "$goolog:fatal=disk full");
        let line = policy(false, false, true).format(&TargetPolicy::new(4), &record);
        assert_eq!(
            line,
            format!("Main | {:14} | $goolog:fatal=disk full", LevelLabel::of(level).name())
        );
    }
}

#[test]
fn fatal_sentinel_counts_only_at_the_start() {
    let record = Record::new("Main", Level::Error, " $goolog:fatal=disk full");
    let line = policy(false, false, true).format(&TargetPolicy::new(4), &record);
    assert_eq!(line, "Main | ERROR          |  $goolog:fatal=disk full");
}

#[test]
fn fatal_sentinel_alone_leaves_an_empty_message() {
    let record = Record::new("Main", Level::Error, "$goolog:fatal=");
    let line = policy(false, false, true).format(&TargetPolicy::new(4), &record);
    assert_eq!(line, "Main | FATAL          | ");
}

#[test]
fn fatal_sentinel_is_stripped_once() {
    let record = Record::new("Main", Level::Error, "$goolog:fatal=$goolog:fatal=x");
    let line = policy(false, false, true).format(&TargetPolicy::new(4), &record);
    assert_eq!(line, "Main | FATAL          | $goolog:fatal=x");
}

#[test]
fn sentinel_is_found_only_as_a_prefix() {
    assert!(starts_with_sentinel("$goolog:fatal="));
    assert!(starts_with_sentinel("$goolog:fatal=disk full"));
    assert!(!starts_with_sentinel(""));
    assert!(!starts_with_sentinel("$goolog:fatal"));
    assert!(!starts_with_sentinel("$goolog:fatal:"));
    assert!(!starts_with_sentinel("x$goolog:fatal="));
    assert!(!starts_with_sentinel("$GOOLOG:FATAL=disk full"));
    assert!(!starts_with_sentinel("äöü"));
}

#[test]
fn rendering_twice_gives_the_same_bytes() {
    let targets = TargetPolicy::new(16);
    for colorize in [false, true] {
        for aware in [false, true] {
            for stamped in [false, true] {
                let rules = policy(stamped, colorize, aware);
                let first = rules.format(&targets, &hello());
                let second = rules.format(&targets, &hello());
                assert_eq!(first.as_bytes(), second.as_bytes());
            }
        }
    }
}

#[test]
fn message_with_multi_byte_characters_is_kept() {
    let record = Record::new("Ü", Level::Error, "$goolog:fatal=Größe überschritten 🦀");
    let line = policy(false, false, true).format(&TargetPolicy::new(3), &record);
    assert_eq!(line, "Ü   | FATAL          | Größe überschritten 🦀");
}

#[test]
fn record_received_takes_the_time_or_none() {
    let record = Record::new("Main", Level::Info, "Hello World!");
    let timed = record.clone().received(Some(wall_time()));
    assert_eq!(timed, record.clone().at(wall_time()));
    let untimed = timed.received(None);
    assert_eq!(untimed, record);
}

#[test]
fn record_new_and_at() {
    let record = Record::new("Main", Level::Info, "Hello World!");
    assert_eq!(record.target, "Main");
    assert_eq!(record.level, Level::Info);
    assert_eq!(record.message, "Hello World!");
    assert_eq!(record.timestamp, None);
    let stamped = record.clone().at(wall_time());
    assert_eq!(stamped.timestamp, Some(wall_time()));
    assert_eq!(stamped.target, record.target);
    assert_eq!(stamped.message, record.message);
    assert_eq!(stamped.level, record.level);
}
