//! Local calendar time, read from the system clock and rendered in the
//! panel's log format: `YYYY-MM-DD HH:MM:SS.mmm`.
//!
//! The reading itself comes from the clock and can only be described,
//! not predicted; everything after it — well-formedness, rendering,
//! and the fact that rendering preserves chronological order — is
//! proved.

use crate::lexorder::lex_le;
use crate::lexorder::lex_lt;
use crate::lexorder::lemma_lex_lt_append;
use crate::lexorder::lemma_lex_lt_prefix;
use crate::lexorder::lemma_lex_pair;
use crate::numerals::lemma_padded_len;
use crate::numerals::lemma_padded_lt;
use crate::numerals::padded;
use crate::numerals::padded_string;
use crate::numerals::pow10;
use vstd::prelude::*;

verus! {

/// One reading of the local clock, split into plain calendar fields.
#[derive(Clone, Copy, PartialEq, Eq, Structural, Debug)]
pub struct ClockReading {
    pub year: u32,
    pub month: u32,
    pub day: u32,
    pub hour: u32,
    pub minute: u32,
    pub second: u32,
    pub millis: u32,
}

impl ClockReading {
    /// Every field fits its place in the fixed-width rendering.
    pub open spec fn wf(self) -> bool {
        &&& self.year <= 9999
        &&& 1 <= self.month <= 12
        &&& 1 <= self.day <= 31
        &&& self.hour <= 23
        &&& self.minute <= 59
        &&& self.second <= 59
        &&& self.millis <= 999
    }
}

/// Chronological order on readings: fieldwise lexicographic, most
/// significant field first.
pub open spec fn clock_le(a: ClockReading, b: ClockReading) -> bool {
    if a.year != b.year {
        a.year < b.year
    } else if a.month != b.month {
        a.month < b.month
    } else if a.day != b.day {
        a.day < b.day
    } else if a.hour != b.hour {
        a.hour < b.hour
    } else if a.minute != b.minute {
        a.minute < b.minute
    } else if a.second != b.second {
        a.second < b.second
    } else {
        a.millis <= b.millis
    }
}

/// The rendered calendar date, `YYYY-MM-DD`.
pub open spec fn date_chars(c: ClockReading) -> Seq<char> {
    padded(c.year as nat, 4) + seq!['-'] + padded(c.month as nat, 2) + seq!['-'] + padded(
        c.day as nat,
        2,
    )
}

/// The rendered time of day, `HH:MM:SS.mmm`.
pub open spec fn time_chars(c: ClockReading) -> Seq<char> {
    padded(c.hour as nat, 2) + seq![':'] + padded(c.minute as nat, 2) + seq![':'] + padded(
        c.second as nat,
        2,
    ) + seq!['.'] + padded(c.millis as nat, 3)
}

/// The full rendered timestamp, `YYYY-MM-DD HH:MM:SS.mmm`.
pub open spec fn timestamp_chars(c: ClockReading) -> Seq<char> {
    date_chars(c) + seq![' '] + time_chars(c)
}

/// A rendered date is ten characters.
pub proof fn lemma_date_len(c: ClockReading)
    ensures
        date_chars(c).len() == 10,
{
    lemma_padded_len(c.year as nat, 4);
    lemma_padded_len(c.month as nat, 2);
    lemma_padded_len(c.day as nat, 2);
}

/// A rendered time of day is twelve characters.
pub proof fn lemma_time_len(c: ClockReading)
    ensures
        time_chars(c).len() == 12,
{
    lemma_padded_len(c.hour as nat, 2);
    lemma_padded_len(c.minute as nat, 2);
    lemma_padded_len(c.second as nat, 2);
    lemma_padded_len(c.millis as nat, 3);
}

/// A rendered timestamp is twenty-three characters.
pub proof fn lemma_timestamp_len(c: ClockReading)
    ensures
        timestamp_chars(c).len() == 23,
{
    lemma_date_len(c);
    lemma_time_len(c);
}

proof fn lemma_pow10_small()
    ensures
        pow10(2) == 100,
        pow10(3) == 1000,
        pow10(4) == 10000,
{
    assert(pow10(0) == 1);
    assert(pow10(1) == 10);
    assert(pow10(2) == 100);
    assert(pow10(3) == 1000);
    assert(pow10(4) == 10000);
}

/// Rendering the date preserves strict chronological order.
proof fn lemma_date_order(a: ClockReading, b: ClockReading)
    requires
        a.wf(),
        b.wf(),
        (a.year, a.month, a.day) != (b.year, b.month, b.day),
        clock_le(a, b),
    ensures
        lex_lt(date_chars(a), date_chars(b)),
{
    lemma_pow10_small();
    let ya = padded(a.year as nat, 4);
    let yb = padded(b.year as nat, 4);
    let moa = padded(a.month as nat, 2);
    let mob = padded(b.month as nat, 2);
    let da = padded(a.day as nat, 2);
    let db = padded(b.day as nat, 2);
    lemma_padded_len(a.year as nat, 4);
    lemma_padded_len(b.year as nat, 4);
    lemma_padded_len(a.month as nat, 2);
    lemma_padded_len(b.month as nat, 2);
    lemma_padded_len(a.day as nat, 2);
    lemma_padded_len(b.day as nat, 2);
    if a.year < b.year {
        lemma_padded_lt(a.year as nat, b.year as nat, 4);
        lemma_lex_lt_append(ya, yb, seq!['-'] + moa + seq!['-'] + da, seq!['-'] + mob + seq!['-'] + db);
        assert(ya + (seq!['-'] + moa + seq!['-'] + da) =~= date_chars(a));
        assert(yb + (seq!['-'] + mob + seq!['-'] + db) =~= date_chars(b));
    } else if a.month < b.month {
        lemma_padded_lt(a.month as nat, b.month as nat, 2);
        lemma_lex_lt_append(moa, mob, seq!['-'] + da, seq!['-'] + db);
        lemma_lex_lt_prefix(ya + seq!['-'], moa + (seq!['-'] + da), mob + (seq!['-'] + db));
        assert(ya + seq!['-'] + (moa + (seq!['-'] + da)) =~= date_chars(a));
        assert(ya + seq!['-'] + (mob + (seq!['-'] + db)) =~= date_chars(b));
    } else {
        assert(a.day < b.day);
        lemma_padded_lt(a.day as nat, b.day as nat, 2);
        lemma_lex_lt_prefix(ya + seq!['-'] + moa + seq!['-'], da, db);
        assert(ya + seq!['-'] + moa + seq!['-'] + da =~= date_chars(a));
        assert(ya + seq!['-'] + moa + seq!['-'] + db =~= date_chars(b));
    }
}

/// Rendering the time of day preserves chronological order, given
/// equal dates.
proof fn lemma_time_order(a: ClockReading, b: ClockReading)
    requires
        a.wf(),
        b.wf(),
        (a.year, a.month, a.day) == (b.year, b.month, b.day),
        clock_le(a, b),
    ensures
        lex_le(time_chars(a), time_chars(b)),
{
    lemma_pow10_small();
    let ha = padded(a.hour as nat, 2);
    let hb = padded(b.hour as nat, 2);
    let mia = padded(a.minute as nat, 2);
    let mib = padded(b.minute as nat, 2);
    let sa = padded(a.second as nat, 2);
    let sb = padded(b.second as nat, 2);
    let msa = padded(a.millis as nat, 3);
    let msb = padded(b.millis as nat, 3);
    lemma_padded_len(a.hour as nat, 2);
    lemma_padded_len(b.hour as nat, 2);
    lemma_padded_len(a.minute as nat, 2);
    lemma_padded_len(b.minute as nat, 2);
    lemma_padded_len(a.second as nat, 2);
    lemma_padded_len(b.second as nat, 2);
    lemma_padded_len(a.millis as nat, 3);
    lemma_padded_len(b.millis as nat, 3);
    if a.hour < b.hour {
        lemma_padded_lt(a.hour as nat, b.hour as nat, 2);
        lemma_lex_lt_append(
            ha,
            hb,
            seq![':'] + mia + seq![':'] + sa + seq!['.'] + msa,
            seq![':'] + mib + seq![':'] + sb + seq!['.'] + msb,
        );
        assert(ha + (seq![':'] + mia + seq![':'] + sa + seq!['.'] + msa) =~= time_chars(a));
        assert(hb + (seq![':'] + mib + seq![':'] + sb + seq!['.'] + msb) =~= time_chars(b));
    } else if a.minute < b.minute {
        lemma_padded_lt(a.minute as nat, b.minute as nat, 2);
        lemma_lex_lt_append(mia, mib, seq![':'] + sa + seq!['.'] + msa, seq![':'] + sb + seq!['.'] + msb);
        lemma_lex_lt_prefix(
            ha + seq![':'],
            mia + (seq![':'] + sa + seq!['.'] + msa),
            mib + (seq![':'] + sb + seq!['.'] + msb),
        );
        assert(ha + seq![':'] + (mia + (seq![':'] + sa + seq!['.'] + msa)) =~= time_chars(a));
        assert(ha + seq![':'] + (mib + (seq![':'] + sb + seq!['.'] + msb)) =~= time_chars(b));
    } else if a.second < b.second {
        lemma_padded_lt(a.second as nat, b.second as nat, 2);
        lemma_lex_lt_append(sa, sb, seq!['.'] + msa, seq!['.'] + msb);
        lemma_lex_lt_prefix(
            ha + seq![':'] + mia + seq![':'],
            sa + (seq!['.'] + msa),
            sb + (seq!['.'] + msb),
        );
        assert(ha + seq![':'] + mia + seq![':'] + (sa + (seq!['.'] + msa)) =~= time_chars(a));
        assert(ha + seq![':'] + mia + seq![':'] + (sb + (seq!['.'] + msb)) =~= time_chars(b));
    } else if a.millis < b.millis {
        lemma_padded_lt(a.millis as nat, b.millis as nat, 3);
        lemma_lex_lt_prefix(ha + seq![':'] + mia + seq![':'] + sa + seq!['.'], msa, msb);
        assert(ha + seq![':'] + mia + seq![':'] + sa + seq!['.'] + msa =~= time_chars(a));
        assert(ha + seq![':'] + mia + seq![':'] + sa + seq!['.'] + msb =~= time_chars(b));
    } else {
        assert(a == b);
    }
}

/// Law: rendering preserves chronological order. For any two
/// well-formed readings taken in order, the rendered timestamps are in
/// lexicographic (that is, textual sorting) order as well.
pub proof fn lemma_timestamp_order(a: ClockReading, b: ClockReading)
    requires
        a.wf(),
        b.wf(),
        clock_le(a, b),
    ensures
        lex_le(timestamp_chars(a), timestamp_chars(b)),
{
    lemma_date_len(a);
    lemma_date_len(b);
    lemma_time_len(a);
    lemma_time_len(b);
    if (a.year, a.month, a.day) == (b.year, b.month, b.day) {
        assert(date_chars(a) == date_chars(b));
        lemma_time_order(a, b);
        lemma_lex_pair(
            date_chars(a) + seq![' '],
            date_chars(b) + seq![' '],
            time_chars(a),
            time_chars(b),
        );
        assert(date_chars(a) + seq![' '] + time_chars(a) =~= timestamp_chars(a));
        assert(date_chars(b) + seq![' '] + time_chars(b) =~= timestamp_chars(b));
    } else {
        lemma_date_order(a, b);
        lemma_lex_lt_append(
            date_chars(a),
            date_chars(b),
            seq![' '] + time_chars(a),
            seq![' '] + time_chars(b),
        );
        assert(date_chars(a) + (seq![' '] + time_chars(a)) =~= timestamp_chars(a));
        assert(date_chars(b) + (seq![' '] + time_chars(b)) =~= timestamp_chars(b));
    }
}

/// Relies on `chrono::Local::now` and chrono's `Datelike` / `Timelike`
/// accessors (`year`, `month`, `day`, `hour`, `minute`, `second`,
/// `nanosecond`). The ranges stated are the ones chrono documents:
/// month 1 to 12, day of month 1 to 31, hour 0 to 23, minute and
/// second 0 to 59, and nanoseconds within the second up to
/// 1,999,999,999 (the top half only during a leap second). Nothing is
/// assumed of the year, and nothing relates one reading to another.
#[verifier::external_body]
fn read_local_clock() -> (r: (i32, u32, u32, u32, u32, u32, u32))
    ensures
        1 <= r.1 <= 12,
        1 <= r.2 <= 31,
        r.3 <= 23,
        r.4 <= 59,
        r.5 <= 59,
        r.6 <= 1999999999,
{
    let t = chrono::Local::now();
    (
        chrono::Datelike::year(&t),
        chrono::Datelike::month(&t),
        chrono::Datelike::day(&t),
        chrono::Timelike::hour(&t),
        chrono::Timelike::minute(&t),
        chrono::Timelike::second(&t),
        chrono::Timelike::nanosecond(&t),
    )
}

/// The local wall-clock time as a well-formed reading. Years outside
/// 0 to 9999 are pinned to the nearest representable year (the log
/// format shows four year digits), and a leap second's overflowing
/// milliseconds are pinned to 999.
pub fn now() -> (c: ClockReading)
    ensures
        c.wf(),
{
    let (y, mo, d, h, mi, s, ns) = read_local_clock();
    let year: u32 = if y < 0 {
        0
    } else if y > 9999 {
        9999
    } else {
        y as u32
    };
    let ms: u32 = ns / 1000000;
    let millis: u32 = if ms > 999 {
        999
    } else {
        ms
    };
    ClockReading { year, month: mo, day: d, hour: h, minute: mi, second: s, millis }
}

/// The rendered calendar date, `YYYY-MM-DD`.
pub fn format_date(c: &ClockReading) -> (r: String)
    ensures
        r@ == date_chars(*c),
{
    proof {
        reveal_strlit("-");
    }
    let r = padded_string(c.year, 4).concat("-").concat(padded_string(c.month, 2).as_str()).concat(
        "-",
    ).concat(padded_string(c.day, 2).as_str());
    proof {
        assert("-"@ =~= seq!['-']);
        assert(r@ =~= date_chars(*c));
    }
    r
}

/// The rendered timestamp, `YYYY-MM-DD HH:MM:SS.mmm`.
pub fn format_timestamp(c: &ClockReading) -> (r: String)
    ensures
        r@ == timestamp_chars(*c),
{
    proof {
        reveal_strlit("-");
        reveal_strlit(" ");
        reveal_strlit(":");
        reveal_strlit(".");
    }
    let r = format_date(c).concat(" ").concat(padded_string(c.hour, 2).as_str()).concat(
        ":",
    ).concat(padded_string(c.minute, 2).as_str()).concat(":").concat(
        padded_string(c.second, 2).as_str(),
    ).concat(".").concat(padded_string(c.millis, 3).as_str());
    proof {
        assert(" "@ =~= seq![' ']);
        assert(":"@ =~= seq![':']);
        assert("."@ =~= seq!['.']);
        assert(r@ =~= timestamp_chars(*c));
    }
    r
}

} // verus!
