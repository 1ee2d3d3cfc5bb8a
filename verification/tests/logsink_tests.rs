use rathole_panel::clock::format_date;
use rathole_panel::clock::format_timestamp;
use rathole_panel::clock::now;
use rathole_panel::clock::ClockReading;
use rathole_panel::logsink::broadcast_line;
use rathole_panel::logsink::log_file_name;
use rathole_panel::logsink::persisted_line;
use rathole_panel::logsink::read_logs;
use rathole_panel::logsink::tail;

fn reading(
    year: u32,
    month: u32,
    day: u32,
    hour: u32,
    minute: u32,
    second: u32,
    millis: u32,
) -> ClockReading {
    ClockReading { year, month, day, hour, minute, second, millis }
}

#[test]
fn timestamp_has_iso_like_shape() {
    let c = reading(2026, 10, 12, 13, 45, 1, 7);
    assert_eq!(format_timestamp(&c), "2026-10-12 13:45:01.007");
}

#[test]
fn timestamp_pads_every_field() {
    let c = reading(42, 1, 2, 3, 4, 5, 90);
    assert_eq!(format_timestamp(&c), "0042-01-02 03:04:05.090");
}

#[test]
fn timestamp_agrees_with_chrono_rendering() {
    let c = reading(2026, 10, 12, 13, 45, 1, 7);
    let d = chrono::NaiveDate::from_ymd_opt(2026, 10, 12)
        .unwrap()
        .and_hms_milli_opt(13, 45, 1, 7)
        .unwrap();
    assert_eq!(format_timestamp(&c), d.format("%Y-%m-%d %H:%M:%S%.3f").to_string());
}

#[test]
fn date_is_iso_formatted() {
    assert_eq!(format_date(&reading(2026, 3, 9, 0, 0, 0, 0)), "2026-03-09");
}

#[test]
fn log_file_is_named_for_the_day() {
    let c = reading(2026, 10, 12, 23, 59, 59, 999);
    assert_eq!(log_file_name(&c), "rathole-2026-10-12.log");
}

#[test]
fn persisted_stdout_line_has_timestamp_only() {
    let c = reading(2026, 10, 12, 13, 45, 1, 7);
    let line = persisted_line(&c, "listening on 0.0.0.0:2333", false);
    assert_eq!(line, "[2026-10-12 13:45:01.007] listening on 0.0.0.0:2333");
}

#[test]
fn persisted_stderr_line_carries_error_marker() {
    let c = reading(2026, 10, 12, 13, 45, 1, 7);
    let line = persisted_line(&c, "connection refused", true);
    assert_eq!(line, "[2026-10-12 13:45:01.007] [ERR] connection refused");
}

#[test]
fn broadcast_marks_stderr_only() {
    assert_eq!(broadcast_line("plain", false), "plain");
    assert_eq!(broadcast_line("bad news", true), "[ERR] bad news");
}

#[test]
fn persisted_timestamps_follow_the_clock() {
    let c1 = reading(2026, 10, 12, 23, 59, 59, 999);
    let c2 = reading(2026, 10, 13, 0, 0, 0, 0);
    let l1 = persisted_line(&c1, "before midnight", false);
    let l2 = persisted_line(&c2, "after midnight", false);
    assert!(l1[1..24] <= l2[1..24]);
}

#[test]
fn missing_log_file_reads_as_no_lines() {
    let r = read_logs(None, 50);
    assert!(r.is_empty());
}

#[test]
fn short_log_comes_back_whole_in_order() {
    let lines = vec![String::from("a"), String::from("b"), String::from("c")];
    assert_eq!(tail(&lines, 5), lines);
    assert_eq!(read_logs(Some(&lines), 5), lines);
}

#[test]
fn long_log_yields_exactly_the_last_n_in_order() {
    let lines: Vec<String> = (0..10).map(|i| format!("line {}", i)).collect();
    let r = tail(&lines, 3);
    assert_eq!(r, vec![
        String::from("line 7"),
        String::from("line 8"),
        String::from("line 9")
    ]);
}

#[test]
fn tail_of_exact_length_is_identity() {
    let lines = vec![String::from("x"), String::from("y")];
    assert_eq!(tail(&lines, 2), lines);
    assert_eq!(tail(&lines, 0), Vec::<String>::new());
}

#[test]
fn live_clock_reading_is_well_formed() {
    let c = now();
    assert!(c.year <= 9999);
    assert!((1..=12).contains(&c.month));
    assert!((1..=31).contains(&c.day));
    assert!(c.hour <= 23);
    assert!(c.minute <= 59);
    assert!(c.second <= 59);
    assert!(c.millis <= 999);
    assert_eq!(format_timestamp(&c).len(), 23);
}
