//! One line of the timesheet log: `in: <timestamp>` or `out: <timestamp>`.

use vstd::prelude::*;

use crate::timestamp::{parse_ts_spec, parse_time, render_timestamp, ts_chars, Timestamp};

verus! {

/// The two kinds of timesheet record.
#[derive(Clone, Copy, Debug, PartialEq, Eq, Structural)]
pub enum RecordKind {
    In,
    Out,
}

/// The marker that opens a punch-in record.
pub open spec fn in_prefix_chars() -> Seq<char> {
    seq!['i', 'n', ':', ' ']
}

/// The marker that opens a punch-out record.
pub open spec fn out_prefix_chars() -> Seq<char> {
    seq!['o', 'u', 't', ':', ' ']
}

/// The full text of one record: marker followed by the timestamp's form.
pub open spec fn record_chars(k: RecordKind, t: Timestamp) -> Seq<char> {
    match k {
        RecordKind::In => in_prefix_chars() + ts_chars(t),
        RecordKind::Out => out_prefix_chars() + ts_chars(t),
    }
}

/// The line opens with the `in: ` marker.
pub open spec fn starts_with_in(line: Seq<char>) -> bool {
    line.len() >= 4 && line[0] == 'i' && line[1] == 'n' && line[2] == ':' && line[3] == ' '
}

/// The line opens with the `out: ` marker.
pub open spec fn starts_with_out(line: Seq<char>) -> bool {
    line.len() >= 5 && line[0] == 'o' && line[1] == 'u' && line[2] == 't' && line[3] == ':'
        && line[4] == ' '
}

/// What follows the `in: ` marker.
pub open spec fn in_body(line: Seq<char>) -> Seq<char> {
    line.subrange(4, line.len() as int)
}

/// What follows the `out: ` marker.
pub open spec fn out_body(line: Seq<char>) -> Seq<char> {
    line.subrange(5, line.len() as int)
}

/// Renders one record as the line appended to the log (without a newline).
pub fn render_record(k: RecordKind, t: &Timestamp) -> (r: String)
    requires
        t.wf(),
    ensures
        r@ == record_chars(k, *t),
{
    proof {
        reveal_strlit("in: ");
        reveal_strlit("out: ");
    }
    let mut s = match k {
        RecordKind::In => String::from_str("in: "),
        RecordKind::Out => String::from_str("out: "),
    };
    let ts = render_timestamp(t);
    s.append(ts.as_str());
    proof {
        assert(s@ =~= record_chars(k, *t));
    }
    s
}

/// Whether the line opens with the `in: ` marker.
pub fn line_starts_with_in(line: &str) -> (r: bool)
    ensures
        r == starts_with_in(line@),
{
    let n = line.unicode_len();
    n >= 4 && line.get_char(0) == 'i' && line.get_char(1) == 'n' && line.get_char(2) == ':'
        && line.get_char(3) == ' '
}

/// Whether the line opens with the `out: ` marker.
pub fn line_starts_with_out(line: &str) -> (r: bool)
    ensures
        r == starts_with_out(line@),
{
    let n = line.unicode_len();
    n >= 5 && line.get_char(0) == 'o' && line.get_char(1) == 'u' && line.get_char(2) == 't'
        && line.get_char(3) == ':' && line.get_char(4) == ' '
}

/// Reads a punch-in record: the timestamp after the `in: ` marker, or `None`
/// when the marker or the timestamp is not as the format demands.
pub fn parse_in_record(line: &str) -> (r: Option<Timestamp>)
    ensures
        r == (if starts_with_in(line@) {
            parse_ts_spec(in_body(line@))
        } else {
            None::<Timestamp>
        }),
{
    if line_starts_with_in(line) {
        let body = line.substring_char(4, line.unicode_len());
        parse_time(body)
    } else {
        None
    }
}

/// Reads a punch-out record: the timestamp after the `out: ` marker, or
/// `None` when the marker or the timestamp is not as the format demands.
pub fn parse_out_record(line: &str) -> (r: Option<Timestamp>)
    ensures
        r == (if starts_with_out(line@) {
            parse_ts_spec(out_body(line@))
        } else {
            None::<Timestamp>
        }),
{
    if line_starts_with_out(line) {
        let body = line.substring_char(5, line.unicode_len());
        parse_time(body)
    } else {
        None
    }
}

/// A rendered record carries its own marker and parses back to its timestamp.
pub proof fn lemma_record_roundtrip(k: RecordKind, t: Timestamp)
    requires
        t.wf(),
    ensures
        k == RecordKind::In ==> starts_with_in(record_chars(k, t)) && parse_ts_spec(
            in_body(record_chars(k, t)),
        ) == Some(t),
        k == RecordKind::Out ==> starts_with_out(record_chars(k, t)) && parse_ts_spec(
            out_body(record_chars(k, t)),
        ) == Some(t),
{
    let line = record_chars(k, t);
    crate::timestamp::lemma_parse_render_roundtrip(t);
    match k {
        RecordKind::In => {
            assert(in_body(line) =~= ts_chars(t));
        },
        RecordKind::Out => {
            assert(out_body(line) =~= ts_chars(t));
        },
    }
}

/// A line that opens with `in: ` does not open with `out: `; a start record
/// in an end position is a corruption, never an end record.
pub proof fn lemma_in_is_not_out(line: Seq<char>)
    ensures
        starts_with_in(line) ==> !starts_with_out(line),
{
}

} // verus!
