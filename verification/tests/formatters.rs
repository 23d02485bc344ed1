use chrono::{Local, TimeZone, Utc};
use logview::clock::TIME_PATTERN;
use logview::error::RenderError;
use logview::formatter::{
    format_field, Field, InFormatter, LevelFormatter, PidFormatter, TextFormatter, WhatFormatter,
    WhenFormatter, LEVEL_PLACEHOLDER, LEVEL_WIDTH, PID_PLACEHOLDER, PID_WIDTH, WHEN_PLACEHOLDER,
};
use logview::style::Colour;

fn local_text_of(year: i32, month: u32, day: u32, hour: u32, minute: u32, second: u32) -> String {
    Utc.with_ymd_and_hms(year, month, day, hour, minute, second)
        .unwrap()
        .with_timezone(&Local)
        .format("%Y-%m-%d %H:%M:%S")
        .to_string()
}

#[test]
fn placeholders_and_widths_are_fixed() {
    assert_eq!(TIME_PATTERN, "%Y-%m-%d %H:%M:%S");
    assert_eq!(WHEN_PLACEHOLDER, "XXXX-XX-XX XX:XX:XX");
    assert_eq!(WHEN_PLACEHOLDER.len(), 19);
    assert_eq!(LEVEL_PLACEHOLDER, "XXXXXX");
    assert_eq!(PID_PLACEHOLDER, "XXXXXX");
    assert_eq!(LEVEL_WIDTH, 7);
    assert_eq!(PID_WIDTH, 10);
}

#[test]
fn level_error_is_red_and_centred() {
    assert_eq!(LevelFormatter::format(Some("error")), "\u{1b}[31m[ error ]\u{1b}[0m");
}

#[test]
fn level_colours_follow_the_table() {
    assert_eq!(LevelFormatter::colour("alert"), Colour::Red);
    assert_eq!(LevelFormatter::colour("critical"), Colour::Red);
    assert_eq!(LevelFormatter::colour("error"), Colour::Red);
    assert_eq!(LevelFormatter::colour("warning"), Colour::Yellow);
    assert_eq!(LevelFormatter::colour("notice"), Colour::Yellow);
    assert_eq!(LevelFormatter::colour("info"), Colour::Blue);
    assert_eq!(LevelFormatter::colour("debug"), Colour::Purple);
}

#[test]
fn level_segments_of_the_known_levels() {
    assert_eq!(LevelFormatter::format(Some("alert")), "\u{1b}[31m[ alert ]\u{1b}[0m");
    assert_eq!(LevelFormatter::format(Some("critical")), "\u{1b}[31m[critical]\u{1b}[0m");
    assert_eq!(LevelFormatter::format(Some("warning")), "\u{1b}[33m[warning]\u{1b}[0m");
    assert_eq!(LevelFormatter::format(Some("notice")), "\u{1b}[33m[notice ]\u{1b}[0m");
    assert_eq!(LevelFormatter::format(Some("info")), "\u{1b}[34m[ info  ]\u{1b}[0m");
    assert_eq!(LevelFormatter::format(Some("debug")), "\u{1b}[35m[ debug ]\u{1b}[0m");
}

#[test]
fn level_outside_the_table_takes_the_colour_of_info() {
    let info = LevelFormatter::colour("info");
    let levels =
        vec!["trace", "fatal", "", "ERROR", "Info", "errors", "warn", "XXXXXX", "information"];
    for level in levels {
        assert_eq!(LevelFormatter::colour(level), info);
    }
    assert_eq!(LevelFormatter::format(Some("trace")), "\u{1b}[34m[ trace ]\u{1b}[0m");
    assert_eq!(LevelFormatter::format(Some("")), "\u{1b}[34m[       ]\u{1b}[0m");
}

#[test]
fn level_is_the_same_on_every_call() {
    let first = LevelFormatter::format(Some("mystery"));
    let second = LevelFormatter::format(Some("mystery"));
    assert_eq!(first, second);
    assert_eq!(first, "\u{1b}[34m[mystery]\u{1b}[0m");
}

#[test]
fn level_missing_shows_the_placeholder_in_the_colour_of_info() {
    assert_eq!(LevelFormatter::format(None), "\u{1b}[34m[XXXXXX ]\u{1b}[0m");
}

#[test]
fn level_wider_than_its_column_is_not_cut() {
    assert_eq!(LevelFormatter::format(Some("emergency")), "\u{1b}[34m[emergency]\u{1b}[0m");
}

#[test]
fn level_agrees_with_std_centering() {
    for level in vec!["a", "ab", "abc", "info", "error", "notice", "warning", "critical", "é"] {
        let painted = LevelFormatter::format(Some(level));
        assert!(painted.ends_with(&format!("m[{:^7}]\u{1b}[0m", level)));
    }
}

#[test]
fn when_missing_shows_the_placeholder() {
    assert_eq!(WhenFormatter::format(None), "\u{1b}[34mXXXX-XX-XX XX:XX:XX\u{1b}[0m");
    assert_eq!(
        WhenFormatter::try_format(None),
        Ok(String::from("\u{1b}[34mXXXX-XX-XX XX:XX:XX\u{1b}[0m"))
    );
    assert_eq!(WhenFormatter::style(None), "\u{1b}[34mXXXX-XX-XX XX:XX:XX\u{1b}[0m");
}

#[test]
fn when_style_paints_a_local_time_blue() {
    assert_eq!(
        WhenFormatter::style(Some("2023-01-01 11:00:00")),
        "\u{1b}[34m2023-01-01 11:00:00\u{1b}[0m"
    );
}

#[test]
fn when_at_offset_moves_the_clock() {
    let time = "2023-01-01T10:00:00Z";
    assert_eq!(WhenFormatter::at_offset(time, 0), "\u{1b}[34m2023-01-01 10:00:00\u{1b}[0m");
    assert_eq!(WhenFormatter::at_offset(time, 3600), "\u{1b}[34m2023-01-01 11:00:00\u{1b}[0m");
    assert_eq!(WhenFormatter::at_offset(time, -18000), "\u{1b}[34m2023-01-01 05:00:00\u{1b}[0m");
    assert_eq!(WhenFormatter::at_offset(time, 19800), "\u{1b}[34m2023-01-01 15:30:00\u{1b}[0m");
}

#[test]
fn when_at_offset_crosses_midnight_and_the_year() {
    let time = "2023-01-01T10:00:00Z";
    assert_eq!(WhenFormatter::at_offset(time, 50400), "\u{1b}[34m2023-01-02 00:00:00\u{1b}[0m");
    assert_eq!(WhenFormatter::at_offset(time, -39600), "\u{1b}[34m2022-12-31 23:00:00\u{1b}[0m");
    assert_eq!(WhenFormatter::at_offset(time, 86399), "\u{1b}[34m2023-01-02 09:59:59\u{1b}[0m");
    assert_eq!(WhenFormatter::at_offset(time, -86399), "\u{1b}[34m2022-12-31 10:00:01\u{1b}[0m");
}

#[test]
fn when_at_offset_reads_the_offset_of_the_timestamp() {
    let painted = "\u{1b}[34m2012-12-12 10:12:12\u{1b}[0m";
    assert_eq!(WhenFormatter::at_offset("2012-12-12T12:12:12+02:00", 0), painted);
    assert_eq!(WhenFormatter::at_offset("2012-12-12 12:12:12+0200", 0), painted);
    assert_eq!(WhenFormatter::at_offset("2012-12-12T10:12:12.750Z", 0), painted);
    assert_eq!(
        WhenFormatter::at_offset("2012-12-12T12:12:12+02:00", 7200),
        "\u{1b}[34m2012-12-12 12:12:12\u{1b}[0m"
    );
}

#[test]
fn when_at_offset_knows_leap_days() {
    assert_eq!(
        WhenFormatter::at_offset("2020-02-28T23:30:00Z", 3600),
        "\u{1b}[34m2020-02-29 00:30:00\u{1b}[0m"
    );
    assert_eq!(
        WhenFormatter::at_offset("2021-02-28T23:30:00Z", 3600),
        "\u{1b}[34m2021-03-01 00:30:00\u{1b}[0m"
    );
}

#[test]
fn when_is_shown_in_local_time() {
    let expected = local_text_of(2023, 1, 1, 10, 0, 0);
    assert_eq!(expected.len(), 19);
    let painted = format!("\u{1b}[34m{}\u{1b}[0m", expected);
    assert_eq!(WhenFormatter::format(Some("2023-01-01T10:00:00Z")), painted);
    assert_eq!(WhenFormatter::try_format(Some("2023-01-01T10:00:00Z")), Ok(painted.clone()));
    let offset = Local.timestamp_opt(1672567200, 0).unwrap().offset().local_minus_utc();
    assert_eq!(WhenFormatter::at_offset("2023-01-01T10:00:00Z", offset), painted);
}

#[test]
fn when_with_an_offset_names_the_same_instant() {
    let expected = local_text_of(2012, 12, 12, 10, 12, 12);
    let painted = format!("\u{1b}[34m{}\u{1b}[0m", expected);
    assert_eq!(WhenFormatter::format(Some("2012-12-12T12:12:12+02:00")), painted);
    assert_eq!(WhenFormatter::format(Some("2012-12-12 12:12:12+02:00")), painted);
    assert_eq!(WhenFormatter::format(Some("2012-12-12T10:12:12.750Z")), painted);
}

#[test]
fn when_unreadable_is_an_error() {
    for time in vec![
        "yesterday",
        "not a time",
        "",
        "2023-01-01",
        "2023-01-01T10:00:00",
        "2023-13-01T10:00:00Z",
        "2023-02-30T10:00:00Z",
        "XXXX-XX-XX XX:XX:XX",
    ] {
        assert_eq!(WhenFormatter::try_format(Some(time)), Err(RenderError::BadTimestamp));
        assert_eq!(format_field(Field::When, Some(time)), Err(RenderError::BadTimestamp));
    }
}

#[test]
fn field_keys_are_those_of_the_record() {
    assert_eq!(Field::When.key(), "when");
    assert_eq!(Field::Level.key(), "level");
    assert_eq!(Field::Pid.key(), "pid");
    assert_eq!(Field::In.key(), "in");
    assert_eq!(Field::What.key(), "what");
}

#[test]
fn format_field_follows_the_rule_of_the_field() {
    for value in vec![None, Some(""), Some("error"), Some("4711"), Some("a b")] {
        assert_eq!(format_field(Field::Level, value), Ok(LevelFormatter::format(value)));
        assert_eq!(format_field(Field::Pid, value), Ok(PidFormatter::format(value)));
        assert_eq!(format_field(Field::In, value), Ok(InFormatter::format(value)));
        assert_eq!(format_field(Field::What, value), Ok(WhatFormatter::format(value)));
    }
    assert_eq!(
        format_field(Field::Level, Some("error")),
        Ok(String::from("\u{1b}[31m[ error ]\u{1b}[0m"))
    );
    assert_eq!(format_field(Field::In, None), Ok(String::from("\u{1b}[37m| \u{1b}[0m")));
}

#[test]
fn format_field_shows_the_time_in_local_time() {
    assert_eq!(
        format_field(Field::When, None),
        Ok(String::from("\u{1b}[34mXXXX-XX-XX XX:XX:XX\u{1b}[0m"))
    );
    assert_eq!(
        format_field(Field::When, Some("2023-01-01T10:00:00Z")),
        Ok(format!("\u{1b}[34m{}\u{1b}[0m", local_text_of(2023, 1, 1, 10, 0, 0)))
    );
}

#[test]
fn pid_is_set_left_in_a_column_of_ten() {
    assert_eq!(PidFormatter::format(Some("42")), "\u{1b}[34m42        \u{1b}[0m");
    assert_eq!(PidFormatter::format(Some("1234567890")), "\u{1b}[34m1234567890\u{1b}[0m");
    assert_eq!(PidFormatter::format(Some("12345678901")), "\u{1b}[34m12345678901\u{1b}[0m");
    assert_eq!(PidFormatter::format(Some("")), "\u{1b}[34m          \u{1b}[0m");
}

#[test]
fn pid_missing_shows_the_placeholder() {
    assert_eq!(PidFormatter::format(None), "\u{1b}[34mXXXXXX    \u{1b}[0m");
}

#[test]
fn what_is_shown_as_it_is() {
    assert_eq!(WhatFormatter::format(Some("src/main.rs:12")), "\u{1b}[37msrc/main.rs:12\u{1b}[0m");
    assert_eq!(WhatFormatter::format(Some("  two  words ")), "\u{1b}[37m  two  words \u{1b}[0m");
}

#[test]
fn what_missing_is_painted_empty() {
    assert_eq!(WhatFormatter::format(None), "\u{1b}[37m\u{1b}[0m");
    assert_eq!(WhatFormatter::format(Some("")), "\u{1b}[37m\u{1b}[0m");
}

#[test]
fn in_follows_a_bar() {
    assert_eq!(InFormatter::format(Some("worker")), "\u{1b}[37m| worker\u{1b}[0m");
}

#[test]
fn in_missing_shows_the_bar_alone() {
    assert_eq!(InFormatter::format(None), "\u{1b}[37m| \u{1b}[0m");
    assert_eq!(InFormatter::format(Some("")), "\u{1b}[37m| \u{1b}[0m");
}

#[test]
fn text_follows_a_bold_arrow() {
    assert_eq!(
        TextFormatter::format(Some("disk is full")),
        "\u{1b}[1;34m>>\u{1b}[0m \u{1b}[32mdisk is full\u{1b}[0m"
    );
    assert_eq!(TextFormatter::format(Some("")), "\u{1b}[1;34m>>\u{1b}[0m \u{1b}[32m\u{1b}[0m");
}

#[test]
fn error_messages_say_what_went_wrong() {
    assert_eq!(RenderError::BadTimestamp.message(), "the time of event is not a timestamp");
    assert_eq!(RenderError::Highlight.message(), "the remaining fields cannot be highlighted");
    assert_ne!(RenderError::BadTimestamp, RenderError::Highlight);
}
