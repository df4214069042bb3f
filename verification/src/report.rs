//! The daily aggregator: rolls working intervals into one printed line per
//! run of same-day intervals, attributing each interval wholly to the
//! calendar day of its start, and rendering totals as hours and minutes.

use vstd::prelude::*;

use crate::errors::PunchClockError;
use crate::intervals::{
    collect_intervals, duration_spec, iv_wf, lemma_parse_log_prefix_complete,
    lemma_parse_log_prefix_wf, lemma_two_record_log, parse_log_prefix, parse_log_spec, Interval,
};
use crate::record::{record_chars, RecordKind};
use crate::text::{
    dec_int_chars, four_digit_chars, four_digit_str, pad2_int_chars, render_int, render_pad2,
    two_digit_chars, two_digit_str,
};
use crate::timestamp::{
    epoch_seconds, mon_name_chars, mon_str, same_day, same_day_spec, wday_name_chars, wday_str,
    Timestamp, EPOCH_BOUND,
};

verus! {

/// A bound on the magnitude of any single interval's duration in seconds,
/// from the epoch bound of its two well-formed endpoints.
pub const DURATION_BOUND: i128 = 520_000_000_000;

/// Integer division truncating toward zero, as the report's hour and minute
/// arithmetic uses it.
pub open spec fn trunc_div(a: int, b: int) -> int {
    if a >= 0 {
        a / b
    } else {
        -((-a) / b)
    }
}

/// A worked total rendered as hours and remainder minutes: hours are the
/// total minutes divided by 60 (seconds never round up), minutes the
/// remainder, zero-padded to two digits.
pub open spec fn total_chars(total_secs: int) -> Seq<char> {
    let total_min = trunc_div(total_secs, 60);
    let hours = trunc_div(total_min, 60);
    let rem = total_min - hours * 60;
    dec_int_chars(hours) + seq![':'] + pad2_int_chars(rem)
}

/// One report line: the day as weekday, zero-padded day of month, month
/// abbreviation and four-digit year, then the worked total.
pub open spec fn day_line_chars(day: Timestamp, total_secs: int) -> Seq<char> {
    wday_name_chars(day.wday as int) + seq![',', ' '] + two_digit_chars(day.mday as int)
        + seq![' '] + mon_name_chars(day.mon as int) + seq![' '] + four_digit_chars(
        day.year as int,
    ) + seq![':', ' '] + total_chars(total_secs)
}

/// Renders one report line for a day and its worked total in seconds.
pub fn format_time_worked(day: &Timestamp, total_secs: i128) -> (r: String)
    requires
        day.wf(),
        total_secs != i128::MIN,
    ensures
        r@ == day_line_chars(*day, total_secs as int),
{
    proof {
        reveal_strlit(", ");
        reveal_strlit(" ");
        reveal_strlit(": ");
        reveal_strlit(":");
    }
    let neg = total_secs < 0;
    let mag: u128 = if total_secs < 0 {
        (-total_secs) as u128
    } else {
        total_secs as u128
    };
    let min_mag: u128 = mag / 60;
    let hours_mag: u128 = min_mag / 60;
    let rem_mag: u128 = min_mag % 60;
    let hours: i128 = if neg {
        -(hours_mag as i128)
    } else {
        hours_mag as i128
    };
    let rem: i128 = if neg {
        -(rem_mag as i128)
    } else {
        rem_mag as i128
    };
    proof {
        let t = total_secs as int;
        let total_min = trunc_div(t, 60);
        assert(total_min == if neg {
            -(min_mag as int)
        } else {
            min_mag as int
        });
        assert(hours as int == trunc_div(total_min, 60));
        assert(rem as int == total_min - trunc_div(total_min, 60) * 60);
    }
    let mut s = String::from_str(wday_str(day.wday));
    s.append(", ");
    let dd = two_digit_str(day.mday);
    s.append(dd.as_str());
    s.append(" ");
    s.append(mon_str(day.mon));
    s.append(" ");
    let yy = four_digit_str(day.year);
    s.append(yy.as_str());
    s.append(": ");
    let hh = render_int(hours);
    s.append(hh.as_str());
    s.append(":");
    let mm = render_pad2(rem);
    s.append(mm.as_str());
    proof {
        assert(s@ =~= day_line_chars(*day, total_secs as int));
    }
    s
}

/// The aggregator's running state after consuming a sequence of intervals:
/// the first timestamp of the current same-day run (None before the first
/// interval) and the seconds accumulated for that run.
pub open spec fn agg_state(ivs: Seq<Interval>) -> (Option<Timestamp>, int)
    decreases ivs.len(),
{
    if ivs.len() == 0 {
        (None, 0)
    } else {
        let prev = agg_state(ivs.drop_last());
        let iv = ivs.last();
        match prev.0 {
            Some(c) => if same_day_spec(iv.start, c) {
                (prev.0, prev.1 + duration_spec(iv))
            } else {
                (Some(iv.start), duration_spec(iv))
            },
            None => (Some(iv.start), duration_spec(iv)),
        }
    }
}

/// The lines flushed while consuming a sequence of intervals: when the day
/// changes, the previous run's total is emitted, but only if it is non-zero.
pub open spec fn agg_out(ivs: Seq<Interval>) -> Seq<Seq<char>>
    decreases ivs.len(),
{
    if ivs.len() == 0 {
        Seq::empty()
    } else {
        let prev = agg_state(ivs.drop_last());
        let out = agg_out(ivs.drop_last());
        let iv = ivs.last();
        match prev.0 {
            Some(c) => if !same_day_spec(iv.start, c) && prev.1 != 0 {
                out.push(day_line_chars(c, prev.1))
            } else {
                out
            },
            None => out,
        }
    }
}

/// Everything the report prints for a sequence of intervals. The pending
/// run is flushed at the end only when the whole log was read cleanly
/// (`complete`) and its total is non-zero.
pub open spec fn report_chars(ivs: Seq<Interval>, complete: bool) -> Seq<Seq<char>> {
    match agg_state(ivs).0 {
        Some(c) => if complete && agg_state(ivs).1 != 0 {
            agg_out(ivs).push(day_line_chars(c, agg_state(ivs).1))
        } else {
            agg_out(ivs)
        },
        None => agg_out(ivs),
    }
}

/// Before any interval was consumed, and only then, there is no current run,
/// and the accumulator is zero.
pub proof fn lemma_agg_state_none(ivs: Seq<Interval>)
    ensures
        agg_state(ivs).0 is None ==> agg_state(ivs).1 == 0,
{
}

/// The current run's first timestamp is one of the intervals' starts, hence
/// well-formed when they all are.
pub proof fn lemma_agg_state_cur_wf(ivs: Seq<Interval>)
    requires
        forall|k: int| 0 <= k < ivs.len() ==> #[trigger] iv_wf(ivs[k]),
    ensures
        agg_state(ivs).0 matches Some(c) ==> c.wf(),
    decreases ivs.len(),
{
    if ivs.len() > 0 {
        assert(forall|k: int|
            0 <= k < ivs.drop_last().len() ==> #[trigger] iv_wf(ivs.drop_last()[k]));
        lemma_agg_state_cur_wf(ivs.drop_last());
        assert(iv_wf(ivs[ivs.len() - 1]));
    }
}

/// Aggregates intervals into report lines, flushing a day's total when the
/// day of the interval starts changes; the final pending total is flushed
/// only when `complete` holds.
pub fn aggregate_intervals(ivs: &Vec<Interval>, complete: bool) -> (r: Vec<String>)
    requires
        forall|k: int| 0 <= k < ivs@.len() ==> #[trigger] iv_wf(ivs@[k]),
    ensures
        r.deep_view() == report_chars(ivs@, complete),
{
    let n = ivs.len();
    let mut out: Vec<String> = Vec::new();
    let mut cur: Option<Timestamp> = None;
    let mut acc: i128 = 0;
    let mut j: usize = 0;
    proof {
        assert(ivs@.take(0) =~= Seq::<Interval>::empty());
        assert(out.deep_view() =~= agg_out(ivs@.take(0)));
    }
    while j < n
        invariant
            n == ivs@.len(),
            j <= n,
            forall|k: int| 0 <= k < ivs@.len() ==> #[trigger] iv_wf(ivs@[k]),
            out.deep_view() == agg_out(ivs@.take(j as int)),
            (cur, acc as int) == agg_state(ivs@.take(j as int)),
            -(j as int) * (DURATION_BOUND as int) <= acc as int <= (j as int) * (
            DURATION_BOUND as int),
        decreases n - j,
    {
        let ghost taken = ivs@.take(j as int);
        let ghost taken1 = ivs@.take(j as int + 1);
        proof {
            assert(taken1.drop_last() =~= taken);
            assert(taken1.last() == ivs@[j as int]);
            assert(iv_wf(ivs@[j as int]));
        }
        let iv = ivs[j];
        let e_start = epoch_seconds(&iv.start);
        let e_end = epoch_seconds(&iv.end);
        let dur: i128 = e_end as i128 - e_start as i128;
        proof {
            assert(dur as int == duration_spec(ivs@[j as int]));
            assert((dur as int) < (DURATION_BOUND as int));
            assert((dur as int) > -(DURATION_BOUND as int));
        }
        let is_same = match cur {
            Some(c) => same_day(&iv.start, &c),
            None => false,
        };
        if is_same {
            acc = acc + dur;
        } else {
            if acc != 0 {
                match cur {
                    Some(c) => {
                        proof {
                            assert(forall|k: int|
                                0 <= k < taken.len() ==> #[trigger] iv_wf(taken[k]));
                            lemma_agg_state_cur_wf(taken);
                        }
                        let line = format_time_worked(&c, acc);
                        let ghost prev_out = out.deep_view();
                        out.push(line);
                        proof {
                            assert(out.deep_view() =~= prev_out.push(line@));
                        }
                    },
                    None => {
                        proof {
                            lemma_agg_state_none(taken);
                            assert(false);
                        }
                    },
                }
            }
            cur = Some(iv.start);
            acc = dur;
        }
        j = j + 1;
    }
    proof {
        assert(ivs@.take(n as int) =~= ivs@);
    }
    if complete && acc != 0 {
        match cur {
            Some(c) => {
                proof {
                    lemma_agg_state_cur_wf(ivs@);
                }
                let line = format_time_worked(&c, acc);
                let ghost prev_out = out.deep_view();
                out.push(line);
                proof {
                    assert(out.deep_view() =~= prev_out.push(line@));
                }
            },
            None => {
                proof {
                    lemma_agg_state_none(ivs@);
                    assert(false);
                }
            },
        }
    }
    out
}

/// What `report_daily_hours` hands back for a log: the lines for every run
/// flushed before the first corruption (all of them, final run included,
/// when there is none), and the corruption error if the log is bad.
pub open spec fn report_spec(lines: Seq<Seq<char>>, now: Timestamp) -> (
    Seq<Seq<char>>,
    Option<PunchClockError>,
) {
    let complete = parse_log_spec(lines, now) is Some;
    (
        report_chars(parse_log_prefix(lines, now), complete),
        if complete {
            None
        } else {
            Some(PunchClockError::CorruptedTimeSheet)
        },
    )
}

/// Replays the whole log and aggregates it into per-day report lines.
/// Corruption is detected here, lazily: the lines of the days completed
/// before the corrupt record are still produced, the day in progress is
/// not, and the error is handed back beside them.
pub fn report_daily_hours(lines: &Vec<String>, now: &Timestamp) -> (r: (
    Vec<String>,
    Option<PunchClockError>,
))
    requires
        now.wf(),
    ensures
        r.0.deep_view() == report_spec(lines.deep_view(), *now).0,
        r.1 == report_spec(lines.deep_view(), *now).1,
{
    let (ivs, complete) = collect_intervals(lines, now);
    proof {
        lemma_parse_log_prefix_wf(lines.deep_view(), *now);
    }
    let out = aggregate_intervals(&ivs, complete);
    let err = if complete {
        None
    } else {
        Some(PunchClockError::CorruptedTimeSheet)
    };
    (out, err)
}

/// An interval is attributed wholly to the calendar day of its start, even
/// when it ends on another day: alone in a log, it yields exactly one line,
/// for the start's day, carrying its full duration.
pub proof fn lemma_day_attribution(iv: Interval)
    requires
        iv_wf(iv),
        duration_spec(iv) != 0,
    ensures
        report_chars(seq![iv], true) == seq![day_line_chars(iv.start, duration_spec(iv))],
{
    assert(seq![iv].drop_last() =~= Seq::<Interval>::empty());
    assert(agg_state(Seq::<Interval>::empty()) == (None::<Timestamp>, 0int));
    assert(agg_out(Seq::<Interval>::empty()) =~= Seq::<Seq<char>>::empty());
    assert(agg_state(seq![iv]) == (Some(iv.start), duration_spec(iv)));
    assert(agg_out(seq![iv]) =~= Seq::<Seq<char>>::empty());
    assert(Seq::<Seq<char>>::empty().push(day_line_chars(iv.start, duration_spec(iv))) =~= seq![
        day_line_chars(iv.start, duration_spec(iv)),
    ]);
}

/// End to end: a log holding one rendered punch-in/punch-out pair reports
/// cleanly, with exactly one line — for the start's day, carrying the
/// pair's full duration — or with no line at all when the duration is zero.
pub proof fn lemma_report_of_one_pair(t_in: Timestamp, t_out: Timestamp, now: Timestamp)
    requires
        t_in.wf(),
        t_out.wf(),
    ensures
        ({
            let lines = seq![
                record_chars(RecordKind::In, t_in),
                record_chars(RecordKind::Out, t_out),
            ];
            let iv = Interval { start: t_in, end: t_out };
            &&& report_spec(lines, now).1 is None
            &&& (duration_spec(iv) != 0 ==> report_spec(lines, now).0 == seq![
                day_line_chars(t_in, duration_spec(iv)),
            ])
            &&& (duration_spec(iv) == 0 ==> report_spec(lines, now).0 == Seq::<Seq<char>>::empty())
        }),
{
    let lines = seq![
        record_chars(RecordKind::In, t_in),
        record_chars(RecordKind::Out, t_out),
    ];
    let iv = Interval { start: t_in, end: t_out };
    lemma_two_record_log(t_in, t_out, now);
    lemma_parse_log_prefix_complete(lines, now);
    assert(parse_log_prefix(lines, now) == seq![iv]);
    if duration_spec(iv) != 0 {
        lemma_day_attribution(iv);
    } else {
        assert(seq![iv].drop_last() =~= Seq::<Interval>::empty());
        assert(agg_state(Seq::<Interval>::empty()) == (None::<Timestamp>, 0int));
        assert(agg_out(Seq::<Interval>::empty()) =~= Seq::<Seq<char>>::empty());
        assert(agg_out(seq![iv]) =~= Seq::<Seq<char>>::empty());
    }
}

} // verus!
