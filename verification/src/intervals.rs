//! Reconstruction of working intervals from the raw log lines: records must
//! alternate `in`, `out`, ... starting with `in`; a trailing unmatched `in`
//! is closed with the current time; anything else is a corruption.

use vstd::prelude::*;

use crate::errors::PunchClockError;
use crate::record::{
    in_body, lemma_in_is_not_out, lemma_record_roundtrip, out_body, parse_in_record,
    parse_out_record, record_chars, starts_with_in, starts_with_out, RecordKind,
};
use crate::timestamp::{epoch_spec, lemma_parse_ts_wf, parse_ts_spec, Timestamp};

verus! {

/// One working interval, from a punch-in to the matching punch-out (or to
/// the current time, for the final unmatched punch-in).
#[derive(Clone, Copy, Debug, PartialEq, Eq, Structural)]
pub struct Interval {
    pub start: Timestamp,
    pub end: Timestamp,
}

/// Both endpoints are well-formed timestamps.
pub open spec fn iv_wf(iv: Interval) -> bool {
    iv.start.wf() && iv.end.wf()
}

/// The length of an interval in seconds; negative if the endpoints are out
/// of order in the log.
pub open spec fn duration_spec(iv: Interval) -> int {
    epoch_spec(iv.end) - epoch_spec(iv.start)
}

/// What a whole log means: the sequence of working intervals, or `None` on
/// the first violation of alternation or of the timestamp format. A final
/// unmatched `in` record is closed with `now`.
pub open spec fn parse_log_spec(lines: Seq<Seq<char>>, now: Timestamp) -> Option<Seq<Interval>>
    decreases lines.len(),
{
    if lines.len() == 0 {
        Some(Seq::empty())
    } else {
        let l0 = lines[0];
        if !starts_with_in(l0) {
            None
        } else {
            match parse_ts_spec(in_body(l0)) {
                None => None,
                Some(st) => if lines.len() == 1 {
                    Some(seq![Interval { start: st, end: now }])
                } else {
                    let l1 = lines[1];
                    if !starts_with_out(l1) {
                        None
                    } else {
                        match parse_ts_spec(out_body(l1)) {
                            None => None,
                            Some(en) => match parse_log_spec(lines.skip(2), now) {
                                None => None,
                                Some(rest) => Some(seq![Interval { start: st, end: en }] + rest),
                            },
                        }
                    }
                },
            }
        }
    }
}

/// The intervals of the longest cleanly-readable even prefix of the log:
/// what the report path has consumed when it stops at the first corruption.
pub open spec fn parse_log_prefix(lines: Seq<Seq<char>>, now: Timestamp) -> Seq<Interval>
    decreases lines.len(),
{
    if lines.len() == 0 {
        Seq::empty()
    } else {
        let l0 = lines[0];
        if !starts_with_in(l0) {
            Seq::empty()
        } else {
            match parse_ts_spec(in_body(l0)) {
                None => Seq::empty(),
                Some(st) => if lines.len() == 1 {
                    seq![Interval { start: st, end: now }]
                } else {
                    let l1 = lines[1];
                    if !starts_with_out(l1) {
                        Seq::empty()
                    } else {
                        match parse_ts_spec(out_body(l1)) {
                            None => Seq::empty(),
                            Some(en) => seq![Interval { start: st, end: en }] + parse_log_prefix(
                                lines.skip(2),
                                now,
                            ),
                        }
                    }
                },
            }
        }
    }
}

/// A well-formed log of `n` records yields exactly `(n + 1) / 2` intervals:
/// one per closed pair, plus one open interval when the count is odd.
pub proof fn lemma_parse_log_len(lines: Seq<Seq<char>>, now: Timestamp)
    ensures
        parse_log_spec(lines, now) matches Some(ivs) ==> ivs.len() == (lines.len() + 1) / 2,
    decreases lines.len(),
{
    if lines.len() >= 2 {
        lemma_parse_log_len(lines.skip(2), now);
    }
}

/// When the whole log is well-formed, the readable prefix is the whole log.
pub proof fn lemma_parse_log_prefix_complete(lines: Seq<Seq<char>>, now: Timestamp)
    ensures
        parse_log_spec(lines, now) matches Some(ivs) ==> parse_log_prefix(lines, now) == ivs,
    decreases lines.len(),
{
    if lines.len() >= 2 {
        lemma_parse_log_prefix_complete(lines.skip(2), now);
    }
}

/// Every interval read from the log has well-formed endpoints.
pub proof fn lemma_parse_log_prefix_wf(lines: Seq<Seq<char>>, now: Timestamp)
    requires
        now.wf(),
    ensures
        forall|j: int|
            0 <= j < parse_log_prefix(lines, now).len() ==> #[trigger] iv_wf(
                parse_log_prefix(lines, now)[j],
            ),
    decreases lines.len(),
{
    let p = parse_log_prefix(lines, now);
    if lines.len() > 0 {
        lemma_parse_ts_wf(in_body(lines[0]));
        if lines.len() >= 2 {
            lemma_parse_ts_wf(out_body(lines[1]));
            lemma_parse_log_prefix_wf(lines.skip(2), now);
        }
        let rest = parse_log_prefix(lines.skip(2), now);
        assert forall|j: int| 0 <= j < p.len() implies #[trigger] iv_wf(p[j]) by {
            if j > 0 {
                assert(p[j] == rest[j - 1]);
                assert(iv_wf(rest[j - 1]));
            }
        };
    }
}

/// Reads the log from the front, two lines at a time, collecting intervals
/// until the lines run out or a corruption stops the reading. Returns the
/// collected intervals and whether the whole log was read cleanly.
pub fn collect_intervals(lines: &Vec<String>, now: &Timestamp) -> (r: (Vec<Interval>, bool))
    ensures
        r.0@ == parse_log_prefix(lines.deep_view(), *now),
        r.1 <==> parse_log_spec(lines.deep_view(), *now) is Some,
{
    let ghost ldv = lines.deep_view();
    let n = lines.len();
    proof {
        assert(ldv.len() == n);
    }
    let mut ivs: Vec<Interval> = Vec::new();
    let mut i: usize = 0;
    let mut ok: bool = true;
    proof {
        assert(ldv.skip(0) =~= ldv);
        assert(ivs@ + parse_log_prefix(ldv, *now) =~= parse_log_prefix(ldv, *now));
    }
    while i < n && ok
        invariant
            n == lines@.len(),
            ldv == lines.deep_view(),
            i <= n,
            ok ==> parse_log_prefix(ldv, *now) == ivs@ + parse_log_prefix(
                ldv.skip(i as int),
                *now,
            ),
            ok ==> ((parse_log_spec(ldv, *now) is Some) <==> (parse_log_spec(
                ldv.skip(i as int),
                *now,
            ) is Some)),
            !ok ==> parse_log_prefix(ldv, *now) == ivs@ && parse_log_spec(ldv, *now) is None,
        decreases n - i + (if ok {
            1int
        } else {
            0int
        }),
    {
        let ghost rest = ldv.skip(i as int);
        proof {
            assert(rest.len() == n - i);
            assert(rest[0] == ldv[i as int]);
            assert(ldv[i as int] == lines@[i as int]@);
        }
        let l0 = &lines[i];
        match parse_in_record(l0.as_str()) {
            None => {
                proof {
                    assert(parse_log_prefix(rest, *now) =~= Seq::<Interval>::empty());
                    assert(parse_log_spec(rest, *now) is None);
                    assert(ivs@ + Seq::<Interval>::empty() =~= ivs@);
                }
                ok = false;
            },
            Some(st) => {
                if i + 1 == n {
                    let ghost prev = ivs@;
                    ivs.push(Interval { start: st, end: *now });
                    proof {
                        assert(parse_log_prefix(rest, *now) =~= seq![
                            Interval { start: st, end: *now },
                        ]);
                        assert(parse_log_spec(rest, *now) is Some);
                        assert(prev + parse_log_prefix(rest, *now) =~= ivs@);
                        assert(ldv.skip(n as int) =~= Seq::<Seq<char>>::empty());
                        assert(parse_log_prefix(ldv.skip(n as int), *now)
                            =~= Seq::<Interval>::empty());
                        assert(ivs@ + Seq::<Interval>::empty() =~= ivs@);
                    }
                    i = n;
                } else {
                    proof {
                        assert(rest.len() >= 2);
                        assert(rest[1] == ldv[i as int + 1]);
                        assert(ldv[i as int + 1] == lines@[i as int + 1]@);
                    }
                    let l1 = &lines[i + 1];
                    match parse_out_record(l1.as_str()) {
                        None => {
                            proof {
                                assert(parse_log_prefix(rest, *now) =~= Seq::<Interval>::empty());
                                assert(parse_log_spec(rest, *now) is None);
                                assert(ivs@ + Seq::<Interval>::empty() =~= ivs@);
                            }
                            ok = false;
                        },
                        Some(en) => {
                            let ghost prev = ivs@;
                            ivs.push(Interval { start: st, end: en });
                            proof {
                                assert(rest.skip(2) =~= ldv.skip(i as int + 2));
                                assert(parse_log_prefix(rest, *now) == seq![
                                    Interval { start: st, end: en },
                                ] + parse_log_prefix(rest.skip(2), *now));
                                assert(prev + parse_log_prefix(rest, *now) =~= ivs@
                                    + parse_log_prefix(rest.skip(2), *now));
                            }
                            i = i + 2;
                        },
                    }
                }
            },
        }
    }
    proof {
        if ok {
            assert(i == n);
            assert(ldv.skip(n as int) =~= Seq::<Seq<char>>::empty());
            assert(parse_log_prefix(ldv.skip(n as int), *now) =~= Seq::<Interval>::empty());
            assert(parse_log_spec(ldv.skip(n as int), *now) is Some);
            assert(ivs@ + Seq::<Interval>::empty() =~= ivs@);
        }
    }
    (ivs, ok)
}

/// Reconstructs the full sequence of working intervals of a log, or reports
/// the corruption. `Ok` exactly when the records alternate correctly and
/// every timestamp reads back; the interval count is then
/// `(record count + 1) / 2`.
pub fn intervals_of_log(lines: &Vec<String>, now: &Timestamp) -> (r: Result<
    Vec<Interval>,
    PunchClockError,
>)
    ensures
        r is Ok <==> parse_log_spec(lines.deep_view(), *now) is Some,
        r matches Ok(ivs) ==> Some(ivs@) == parse_log_spec(lines.deep_view(), *now) && ivs@.len()
            == (lines@.len() + 1) / 2,
        r matches Err(e) ==> e == PunchClockError::CorruptedTimeSheet,
{
    let (ivs, complete) = collect_intervals(lines, now);
    if complete {
        proof {
            lemma_parse_log_prefix_complete(lines.deep_view(), *now);
            lemma_parse_log_len(lines.deep_view(), *now);
            assert(lines.deep_view().len() == lines@.len());
        }
        Ok(ivs)
    } else {
        Err(PunchClockError::CorruptedTimeSheet)
    }
}

/// A log of one rendered `in` record and one rendered `out` record reads
/// back as exactly the one closed interval between their timestamps.
pub proof fn lemma_two_record_log(t_in: Timestamp, t_out: Timestamp, now: Timestamp)
    requires
        t_in.wf(),
        t_out.wf(),
    ensures
        parse_log_spec(
            seq![record_chars(RecordKind::In, t_in), record_chars(RecordKind::Out, t_out)],
            now,
        ) == Some(seq![Interval { start: t_in, end: t_out }]),
{
    let lines = seq![
        record_chars(RecordKind::In, t_in),
        record_chars(RecordKind::Out, t_out),
    ];
    lemma_record_roundtrip(RecordKind::In, t_in);
    lemma_record_roundtrip(RecordKind::Out, t_out);
    assert(lines.skip(2) =~= Seq::<Seq<char>>::empty());
    assert(parse_log_spec(lines.skip(2), now) == Some(Seq::<Interval>::empty()));
    assert(seq![Interval { start: t_in, end: t_out }] + Seq::<Interval>::empty() =~= seq![
        Interval { start: t_in, end: t_out },
    ]);
}

/// Punching in and immediately out writes two records that read back as
/// exactly one closed interval with the written endpoints, of non-negative
/// duration.
pub proof fn lemma_punch_round_trip(t_in: Timestamp, t_out: Timestamp, now: Timestamp)
    requires
        t_in.wf(),
        t_out.wf(),
        epoch_spec(t_in) <= epoch_spec(t_out),
    ensures
        parse_log_spec(
            seq![record_chars(RecordKind::In, t_in), record_chars(RecordKind::Out, t_out)],
            now,
        ) == Some(seq![Interval { start: t_in, end: t_out }]),
        duration_spec(Interval { start: t_in, end: t_out }) >= 0,
{
    lemma_two_record_log(t_in, t_out, now);
}

/// Two consecutive `in:` records, anywhere in the log, are a corruption:
/// the log as a whole has no meaning, and the report ends in an error. When
/// they stand at the front, nothing at all is consumed.
pub proof fn lemma_consecutive_in_corrupted(lines: Seq<Seq<char>>, now: Timestamp, j: int)
    requires
        0 <= j,
        j + 1 < lines.len(),
        starts_with_in(lines[j]),
        starts_with_in(lines[j + 1]),
    ensures
        parse_log_spec(lines, now) is None,
        j == 0 ==> parse_log_prefix(lines, now) == Seq::<Interval>::empty(),
    decreases j,
{
    lemma_in_is_not_out(lines[j]);
    lemma_in_is_not_out(lines[j + 1]);
    if j >= 2 {
        lemma_consecutive_in_corrupted(lines.skip(2), now, j - 2);
        assert(lines.skip(2)[j - 2] == lines[j]);
        assert(lines.skip(2)[j - 1] == lines[j + 1]);
    }
}

} // verus!
