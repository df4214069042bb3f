//! Tests of interval reconstruction and of the daily report.

use punch_clock::errors::PunchClockError;
use punch_clock::intervals::intervals_of_log;
use punch_clock::report::report_daily_hours;
use punch_clock::timestamp::Timestamp;

fn ts(wday: u8, mday: u8, mon: u8, year: u16, hour: u8, min: u8, sec: u8) -> Timestamp {
    Timestamp { wday, mday, mon, year, hour, min, sec }
}

fn noon(mday: u8) -> Timestamp {
    ts(1, mday, 1, 2018, 12, 0, 0)
}

#[test]
fn empty_log_yields_no_intervals() {
    let lines: Vec<String> = Vec::new();
    let ivs = intervals_of_log(&lines, &noon(1)).unwrap();
    assert_eq!(ivs.len(), 0);
}

#[test]
fn open_interval_ends_now() {
    let lines = vec![String::from("in: Mon, 01 Jan 2018 09:00:00 UTC")];
    let now = noon(1);
    let ivs = intervals_of_log(&lines, &now).unwrap();
    assert_eq!(ivs.len(), 1);
    assert_eq!(ivs[0].start, ts(1, 1, 1, 2018, 9, 0, 0));
    assert_eq!(ivs[0].end, now);
}

#[test]
fn interval_count_is_half_the_records_rounded_up() {
    // five records: two closed intervals plus one open
    let lines = vec![
        String::from("in: Mon, 01 Jan 2018 09:00:00 UTC"),
        String::from("out: Mon, 01 Jan 2018 10:00:00 UTC"),
        String::from("in: Mon, 01 Jan 2018 11:00:00 UTC"),
        String::from("out: Mon, 01 Jan 2018 12:00:00 UTC"),
        String::from("in: Mon, 01 Jan 2018 13:00:00 UTC"),
    ];
    let ivs = intervals_of_log(&lines, &noon(1)).unwrap();
    assert_eq!(ivs.len(), (lines.len() + 1) / 2);
    assert_eq!(ivs.len(), 3);
}

#[test]
fn two_consecutive_in_records_are_corruption() {
    let lines = vec![
        String::from("in: Mon, 01 Jan 2018 09:00:00 UTC"),
        String::from("in: Mon, 01 Jan 2018 10:00:00 UTC"),
    ];
    let err = intervals_of_log(&lines, &noon(1)).unwrap_err();
    assert_eq!(err, PunchClockError::CorruptedTimeSheet);
}

#[test]
fn log_starting_with_out_is_corruption() {
    let lines = vec![String::from("out: Mon, 01 Jan 2018 09:00:00 UTC")];
    let err = intervals_of_log(&lines, &noon(1)).unwrap_err();
    assert_eq!(err, PunchClockError::CorruptedTimeSheet);
}

#[test]
fn unparseable_timestamp_is_corruption() {
    let lines = vec![String::from("in: Mon, 01 Jan 2018 09:00:00")];
    let err = intervals_of_log(&lines, &noon(1)).unwrap_err();
    assert_eq!(err, PunchClockError::CorruptedTimeSheet);
}

#[test]
fn report_of_empty_log_prints_nothing() {
    let lines: Vec<String> = Vec::new();
    let (out, err) = report_daily_hours(&lines, &noon(1));
    assert_eq!(out, Vec::<String>::new());
    assert_eq!(err, None);
}

#[test]
fn report_closes_open_interval_with_now() {
    let lines = vec![String::from("in: Mon, 01 Jan 2018 09:00:00 UTC")];
    let now = ts(1, 1, 1, 2018, 17, 30, 0);
    let (out, err) = report_daily_hours(&lines, &now);
    assert_eq!(out, vec![String::from("Mon, 01 Jan 2018: 8:30")]);
    assert_eq!(err, None);
}

#[test]
fn report_single_closed_interval() {
    let lines = vec![
        String::from("in: Mon, 01 Jan 2018 09:00:00 UTC"),
        String::from("out: Mon, 01 Jan 2018 17:30:00 UTC"),
    ];
    let (out, err) = report_daily_hours(&lines, &noon(2));
    assert_eq!(out, vec![String::from("Mon, 01 Jan 2018: 8:30")]);
    assert_eq!(err, None);
}

#[test]
fn midnight_interval_belongs_to_its_start_day() {
    let lines = vec![
        String::from("in: Mon, 01 Jan 2018 23:50:00 UTC"),
        String::from("out: Tue, 02 Jan 2018 00:10:00 UTC"),
    ];
    let (out, err) = report_daily_hours(&lines, &noon(2));
    assert_eq!(out, vec![String::from("Mon, 01 Jan 2018: 0:20")]);
    assert_eq!(err, None);
}

#[test]
fn report_of_corrupt_log_prints_nothing_for_the_open_day() {
    let lines = vec![
        String::from("in: Mon, 01 Jan 2018 09:00:00 UTC"),
        String::from("in: Mon, 01 Jan 2018 10:00:00 UTC"),
    ];
    let (out, err) = report_daily_hours(&lines, &noon(1));
    assert_eq!(out, Vec::<String>::new());
    assert_eq!(err, Some(PunchClockError::CorruptedTimeSheet));
}

#[test]
fn consecutive_in_later_in_the_log_is_corruption() {
    let lines = vec![
        String::from("in: Mon, 01 Jan 2018 09:00:00 UTC"),
        String::from("out: Mon, 01 Jan 2018 10:00:00 UTC"),
        String::from("in: Mon, 01 Jan 2018 11:00:00 UTC"),
        String::from("in: Mon, 01 Jan 2018 12:00:00 UTC"),
    ];
    let now = noon(1);
    assert!(intervals_of_log(&lines, &now).is_err());
    let (out, err) = report_daily_hours(&lines, &now);
    // the whole day was still in progress when the corruption was hit
    assert_eq!(out, Vec::<String>::new());
    assert_eq!(err, Some(PunchClockError::CorruptedTimeSheet));
}

#[test]
fn report_keeps_days_flushed_before_the_corruption() {
    let lines = vec![
        String::from("in: Mon, 01 Jan 2018 09:00:00 UTC"),
        String::from("out: Mon, 01 Jan 2018 17:00:00 UTC"),
        String::from("in: Tue, 02 Jan 2018 09:00:00 UTC"),
        String::from("out: Tue, 02 Jan 2018 10:00:00 UTC"),
        String::from("in: Tue, 02 Jan 2018 11:00:00 UTC"),
        String::from("in: Tue, 02 Jan 2018 12:00:00 UTC"),
    ];
    let (out, err) = report_daily_hours(&lines, &noon(2));
    // day one was flushed when day two began; day two was still in progress
    assert_eq!(out, vec![String::from("Mon, 01 Jan 2018: 8:00")]);
    assert_eq!(err, Some(PunchClockError::CorruptedTimeSheet));
}

#[test]
fn report_sums_same_day_intervals() {
    let lines = vec![
        String::from("in: Mon, 01 Jan 2018 09:00:00 UTC"),
        String::from("out: Mon, 01 Jan 2018 10:00:00 UTC"),
        String::from("in: Mon, 01 Jan 2018 11:00:00 UTC"),
        String::from("out: Mon, 01 Jan 2018 12:30:00 UTC"),
    ];
    let (out, err) = report_daily_hours(&lines, &noon(2));
    assert_eq!(out, vec![String::from("Mon, 01 Jan 2018: 2:30")]);
    assert_eq!(err, None);
}

#[test]
fn report_emits_one_line_per_day() {
    let lines = vec![
        String::from("in: Mon, 01 Jan 2018 09:00:00 UTC"),
        String::from("out: Mon, 01 Jan 2018 17:00:00 UTC"),
        String::from("in: Tue, 02 Jan 2018 09:00:00 UTC"),
        String::from("out: Tue, 02 Jan 2018 13:15:00 UTC"),
    ];
    let (out, err) = report_daily_hours(&lines, &noon(3));
    assert_eq!(
        out,
        vec![
            String::from("Mon, 01 Jan 2018: 8:00"),
            String::from("Tue, 02 Jan 2018: 4:15"),
        ]
    );
    assert_eq!(err, None);
}

#[test]
fn report_skips_a_day_with_zero_total() {
    let lines = vec![
        String::from("in: Mon, 01 Jan 2018 09:00:00 UTC"),
        String::from("out: Mon, 01 Jan 2018 09:00:00 UTC"),
    ];
    let (out, err) = report_daily_hours(&lines, &noon(2));
    assert_eq!(out, Vec::<String>::new());
    assert_eq!(err, None);
}

#[test]
fn report_reopens_a_day_seen_before() {
    // runs of same-day intervals are aggregated, not days globally:
    // coming back to an earlier day opens a new run with its own line
    let lines = vec![
        String::from("in: Mon, 01 Jan 2018 09:00:00 UTC"),
        String::from("out: Mon, 01 Jan 2018 10:00:00 UTC"),
        String::from("in: Tue, 02 Jan 2018 09:00:00 UTC"),
        String::from("out: Tue, 02 Jan 2018 10:00:00 UTC"),
        String::from("in: Mon, 01 Jan 2018 11:00:00 UTC"),
        String::from("out: Mon, 01 Jan 2018 12:00:00 UTC"),
    ];
    let (out, err) = report_daily_hours(&lines, &noon(3));
    assert_eq!(
        out,
        vec![
            String::from("Mon, 01 Jan 2018: 1:00"),
            String::from("Tue, 02 Jan 2018: 1:00"),
            String::from("Mon, 01 Jan 2018: 1:00"),
        ]
    );
    assert_eq!(err, None);
}
