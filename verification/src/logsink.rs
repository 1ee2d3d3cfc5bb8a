//! The log sink's line formats and its point-in-time tail read.
//!
//! Each captured output line has two renderings: the persisted form,
//! written to the current day's log file, carries a timestamp and — for
//! standard-error lines — an error marker; the broadcast form, handed
//! to live subscribers, is the raw text with only the error marker.
//! The file itself, its append writes and the subscriber channel are
//! plain I/O and live with the caller; every decision about what the
//! bytes say is made and proved here.

use crate::clock::clock_le;
use crate::clock::date_chars;
use crate::clock::lemma_timestamp_len;
use crate::clock::lemma_timestamp_order;
use crate::clock::timestamp_chars;
use crate::clock::ClockReading;
use crate::clock::format_timestamp;
use crate::lexorder::lex_le;
use vstd::prelude::*;

verus! {

/// The marker a standard-error line carries in both renderings.
pub open spec fn err_marker() -> Seq<char> {
    seq!['[', 'E', 'R', 'R', ']', ' ']
}

/// The persisted form of one captured line: the bracketed capture
/// timestamp, the error marker if the line came from standard error,
/// then the raw text.
pub open spec fn persisted_chars(c: ClockReading, text: Seq<char>, from_err: bool) -> Seq<char> {
    seq!['['] + timestamp_chars(c) + seq![']', ' '] + (if from_err {
        err_marker()
    } else {
        Seq::empty()
    }) + text
}

/// The broadcast form of one captured line: the raw text, marker
/// prefixed when the line came from standard error.
pub open spec fn broadcast_chars(text: Seq<char>, from_err: bool) -> Seq<char> {
    if from_err {
        err_marker() + text
    } else {
        text
    }
}

/// The name of the log file for the day of the given reading.
pub open spec fn log_name_chars(c: ClockReading) -> Seq<char> {
    "rathole-"@ + date_chars(c) + ".log"@
}

/// The persisted form, ready to be appended to the day's log file.
pub fn persisted_line(c: &ClockReading, text: &str, from_err: bool) -> (r: String)
    ensures
        r@ == persisted_chars(*c, text@, from_err),
{
    proof {
        reveal_strlit("[");
        reveal_strlit("] ");
        reveal_strlit("[ERR] ");
    }
    let stamped = String::from_str("[").concat(format_timestamp(c).as_str()).concat("] ");
    let r = if from_err {
        stamped.concat("[ERR] ").concat(text)
    } else {
        stamped.concat(text)
    };
    proof {
        assert("["@ =~= seq!['[']);
        assert("] "@ =~= seq![']', ' ']);
        assert("[ERR] "@ =~= err_marker());
        assert(r@ =~= persisted_chars(*c, text@, from_err));
    }
    r
}

/// The broadcast form, ready to be forwarded to subscribers.
pub fn broadcast_line(text: &str, from_err: bool) -> (r: String)
    ensures
        r@ == broadcast_chars(text@, from_err),
{
    proof {
        reveal_strlit("[ERR] ");
    }
    let r = if from_err {
        String::from_str("[ERR] ").concat(text)
    } else {
        String::from_str(text)
    };
    proof {
        assert("[ERR] "@ =~= err_marker());
        assert(r@ =~= broadcast_chars(text@, from_err));
    }
    r
}

/// The day's log file name, `rathole-YYYY-MM-DD.log`. The caller
/// recomputes it before every write, so a run that crosses midnight
/// rolls over to a fresh file by itself.
pub fn log_file_name(c: &ClockReading) -> (r: String)
    ensures
        r@ == log_name_chars(*c),
{
    let r = String::from_str("rathole-").concat(crate::clock::format_date(c).as_str()).concat(
        ".log",
    );
    proof {
        assert(r@ =~= log_name_chars(*c));
    }
    r
}

/// At most the last `max` lines of a file's contents, oldest first.
pub open spec fn tail_spec(lines: Seq<Seq<char>>, max: nat) -> Seq<Seq<char>> {
    if lines.len() <= max {
        lines
    } else {
        lines.subrange(lines.len() - max, lines.len() as int)
    }
}

/// The last `max` lines of the day's log, in original order.
pub fn tail(lines: &Vec<String>, max: usize) -> (r: Vec<String>)
    ensures
        r.deep_view() == tail_spec(lines.deep_view(), max as nat),
{
    let start: usize = if lines.len() > max {
        lines.len() - max
    } else {
        0
    };
    let mut r: Vec<String> = Vec::new();
    let mut i: usize = start;
    while i < lines.len()
        invariant
            start <= i <= lines.len(),
            r@.len() == i - start,
            forall|k: int| 0 <= k < r@.len() ==> r@[k]@ == lines@[start + k]@,
        decreases lines.len() - i,
    {
        r.push(lines[i].clone());
        i = i + 1;
    }
    proof {
        let goal = tail_spec(lines.deep_view(), max as nat);
        assert forall|k: int| 0 <= k < r@.len() implies r.deep_view()[k] == goal[k] by {
            assert(r.deep_view()[k] == r@[k]@);
            assert(lines.deep_view()[start + k] == lines@[start + k]@);
        }
        assert(r.deep_view() =~= goal);
    }
    r
}

/// A point-in-time read of the day's log: an absent file reads as no
/// lines at all, never as an error; a present one yields at most the
/// last `max` lines in their original order.
pub fn read_logs(file: Option<&Vec<String>>, max: usize) -> (r: Vec<String>)
    ensures
        file is None ==> r@.len() == 0,
        file matches Some(lines) ==> r.deep_view() == tail_spec(lines.deep_view(), max as nat),
{
    match file {
        None => Vec::new(),
        Some(lines) => tail(lines, max),
    }
}

/// Law: the three shapes of a tail read. Fewer lines than asked for
/// come back whole; more come back as exactly the last `max`, each in
/// its original place and order.
pub proof fn lemma_tail_cases(lines: Seq<Seq<char>>, max: nat)
    ensures
        lines.len() <= max ==> tail_spec(lines, max) == lines,
        lines.len() > max ==> tail_spec(lines, max).len() == max,
        lines.len() > max ==> forall|i: int|
            0 <= i < max ==> tail_spec(lines, max)[i] == lines[lines.len() - max + i],
{
}

/// Law: a standard-error line's broadcast form starts with the error
/// marker; a standard-output line's broadcast form is the raw text
/// itself, with nothing added.
pub proof fn lemma_broadcast_marker(text: Seq<char>)
    ensures
        broadcast_chars(text, true).subrange(0, 6) =~= err_marker(),
        broadcast_chars(text, true).len() == text.len() + 6,
        broadcast_chars(text, false) == text,
{
}

/// Law: persisted timestamps are in order. Each persisted line embeds
/// its capture timestamp at a fixed place, and for two captures from
/// one stream taken in chronological order the embedded timestamps are
/// in lexicographic order too — later lines never carry an earlier
/// timestamp. (A clock that is itself set backwards between the two
/// captures is outside this law's premise.)
pub proof fn lemma_persisted_timestamps_monotone(
    c1: ClockReading,
    text1: Seq<char>,
    c2: ClockReading,
    text2: Seq<char>,
    from_err: bool,
)
    requires
        c1.wf(),
        c2.wf(),
        clock_le(c1, c2),
    ensures
        persisted_chars(c1, text1, from_err).subrange(1, 24) == timestamp_chars(c1),
        persisted_chars(c2, text2, from_err).subrange(1, 24) == timestamp_chars(c2),
        lex_le(timestamp_chars(c1), timestamp_chars(c2)),
{
    lemma_timestamp_len(c1);
    lemma_timestamp_len(c2);
    assert(persisted_chars(c1, text1, from_err).subrange(1, 24) =~= timestamp_chars(c1));
    assert(persisted_chars(c2, text2, from_err).subrange(1, 24) =~= timestamp_chars(c2));
    lemma_timestamp_order(c1, c2);
}

} // verus!
