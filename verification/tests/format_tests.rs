//! Tests of the textual forms: timestamps, records, and report lines.

use punch_clock::intervals::{intervals_of_log, Interval};
use punch_clock::record::{parse_in_record, parse_out_record, render_record, RecordKind};
use punch_clock::report::format_time_worked;
use punch_clock::timestamp::{epoch_seconds, parse_time, render_timestamp, same_day, Timestamp};

fn ts(wday: u8, mday: u8, mon: u8, year: u16, hour: u8, min: u8, sec: u8) -> Timestamp {
    Timestamp { wday, mday, mon, year, hour, min, sec }
}

#[test]
fn render_timestamp_exact() {
    let t = ts(1, 1, 1, 2018, 9, 0, 0);
    assert_eq!(render_timestamp(&t), "Mon, 01 Jan 2018 09:00:00 UTC");
    let t2 = ts(6, 31, 12, 9999, 23, 59, 60);
    assert_eq!(render_timestamp(&t2), "Sat, 31 Dec 9999 23:59:60 UTC");
}

#[test]
fn render_record_exact() {
    let t = ts(1, 1, 1, 2018, 9, 0, 0);
    assert_eq!(render_record(RecordKind::In, &t), "in: Mon, 01 Jan 2018 09:00:00 UTC");
    assert_eq!(render_record(RecordKind::Out, &t), "out: Mon, 01 Jan 2018 09:00:00 UTC");
}

#[test]
fn parse_time_valid() {
    let got = parse_time("Mon, 01 Jan 2018 09:00:00 UTC");
    assert_eq!(got, Some(ts(1, 1, 1, 2018, 9, 0, 0)));
    let got2 = parse_time("Thu, 05 Feb 2015 17:30:59 UTC");
    assert_eq!(got2, Some(ts(4, 5, 2, 2015, 17, 30, 59)));
}

#[test]
fn parse_time_rejects_bad_input() {
    // wrong length
    assert_eq!(parse_time(""), None);
    assert_eq!(parse_time("Mon, 1 Jan 2018 09:00:00 UTC"), None);
    // unknown weekday or month name
    assert_eq!(parse_time("Xyz, 01 Jan 2018 09:00:00 UTC"), None);
    assert_eq!(parse_time("Mon, 01 Foo 2018 09:00:00 UTC"), None);
    // out-of-range fields
    assert_eq!(parse_time("Mon, 00 Jan 2018 09:00:00 UTC"), None);
    assert_eq!(parse_time("Mon, 32 Jan 2018 09:00:00 UTC"), None);
    assert_eq!(parse_time("Mon, 01 Jan 2018 24:00:00 UTC"), None);
    assert_eq!(parse_time("Mon, 01 Jan 2018 09:60:00 UTC"), None);
    assert_eq!(parse_time("Mon, 01 Jan 2018 09:00:61 UTC"), None);
    // wrong separators or zone
    assert_eq!(parse_time("Mon; 01 Jan 2018 09:00:00 UTC"), None);
    assert_eq!(parse_time("Mon, 01 Jan 2018 09-00-00 UTC"), None);
    assert_eq!(parse_time("Mon, 01 Jan 2018 09:00:00 GMT"), None);
    // digits where digits are not
    assert_eq!(parse_time("Mon, 0a Jan 2018 09:00:00 UTC"), None);
    assert_eq!(parse_time("Mon, 01 Jan 2x18 09:00:00 UTC"), None);
}

#[test]
fn parse_render_roundtrip_concrete() {
    let samples = [
        ts(1, 1, 1, 2018, 9, 0, 0),
        ts(0, 31, 12, 9999, 23, 59, 60),
        ts(4, 1, 1, 1970, 0, 0, 0),
        ts(2, 29, 2, 2000, 12, 34, 56),
    ];
    for t in samples.iter() {
        let line = render_timestamp(t);
        assert_eq!(parse_time(&line), Some(*t));
    }
}

#[test]
fn all_weekday_and_month_names_roundtrip() {
    for w in 0..7u8 {
        let t = ts(w, 1, 1, 2018, 0, 0, 0);
        assert_eq!(parse_time(&render_timestamp(&t)), Some(t));
    }
    for m in 1..13u8 {
        let t = ts(0, 15, m, 2018, 12, 0, 0);
        assert_eq!(parse_time(&render_timestamp(&t)), Some(t));
    }
}

#[test]
fn record_parse_roundtrip() {
    let t = ts(1, 1, 1, 2018, 9, 0, 0);
    let in_line = render_record(RecordKind::In, &t);
    let out_line = render_record(RecordKind::Out, &t);
    assert_eq!(parse_in_record(&in_line), Some(t));
    assert_eq!(parse_out_record(&out_line), Some(t));
    // the markers do not cross
    assert_eq!(parse_in_record(&out_line), None);
    assert_eq!(parse_out_record(&in_line), None);
}

#[test]
fn epoch_seconds_known_values() {
    assert_eq!(epoch_seconds(&ts(4, 1, 1, 1970, 0, 0, 0)), 0);
    assert_eq!(epoch_seconds(&ts(1, 1, 1, 2018, 9, 0, 0)), 1_514_797_200);
    assert_eq!(epoch_seconds(&ts(3, 31, 12, 1969, 23, 59, 59)), -1);
    // a leap-year day
    assert_eq!(epoch_seconds(&ts(2, 29, 2, 2000, 0, 0, 0)), 951_782_400);
    // one day apart across a month boundary
    let a = epoch_seconds(&ts(0, 31, 1, 2021, 0, 0, 0));
    let b = epoch_seconds(&ts(1, 1, 2, 2021, 0, 0, 0));
    assert_eq!(b - a, 86_400);
}

#[test]
fn same_day_compares_dates_only() {
    let a = ts(1, 1, 1, 2018, 9, 0, 0);
    let b = ts(1, 1, 1, 2018, 23, 59, 59);
    let c = ts(2, 2, 1, 2018, 0, 0, 0);
    assert!(same_day(&a, &b));
    assert!(!same_day(&a, &c));
}

#[test]
fn format_time_worked_exact() {
    let d = ts(1, 1, 1, 2018, 0, 0, 0);
    assert_eq!(format_time_worked(&d, 8 * 3600 + 30 * 60), "Mon, 01 Jan 2018: 8:30");
    assert_eq!(format_time_worked(&d, 20 * 60), "Mon, 01 Jan 2018: 0:20");
    assert_eq!(format_time_worked(&d, 0), "Mon, 01 Jan 2018: 0:00");
    assert_eq!(format_time_worked(&d, 100 * 3600), "Mon, 01 Jan 2018: 100:00");
    // seconds never round the minute up
    assert_eq!(format_time_worked(&d, 59), "Mon, 01 Jan 2018: 0:00");
    assert_eq!(format_time_worked(&d, 3600 + 59 * 60 + 59), "Mon, 01 Jan 2018: 1:59");
}

#[test]
fn intervals_duration_is_epoch_difference() {
    let start = ts(1, 1, 1, 2018, 23, 50, 0);
    let end = ts(2, 2, 1, 2018, 0, 10, 0);
    let iv = Interval { start, end };
    assert_eq!(
        epoch_seconds(&iv.end) - epoch_seconds(&iv.start),
        20 * 60,
    );
    // the same pair read from a log
    let lines = vec![
        String::from("in: Mon, 01 Jan 2018 23:50:00 UTC"),
        String::from("out: Tue, 02 Jan 2018 00:10:00 UTC"),
    ];
    let now = ts(2, 2, 1, 2018, 12, 0, 0);
    let ivs = intervals_of_log(&lines, &now).unwrap();
    assert_eq!(ivs, vec![iv]);
}
