//! Lexicographic order on equal-length character sequences.
//!
//! Every formatted timestamp in this crate has a fixed width, so the
//! order is defined by peeling characters off the back: a sequence is
//! strictly below another of the same length exactly when, at the first
//! position where they differ, its character has the smaller code
//! point. The lemmas here let such comparisons be built up block by
//! block, which is how a timestamp made of fixed-width fields is
//! compared.

use vstd::prelude::*;

verus! {

/// Strict lexicographic order, for sequences of equal length: either
/// the leading parts already differ, or they agree and the final
/// characters decide.
pub open spec fn lex_lt(s: Seq<char>, t: Seq<char>) -> bool
    decreases s.len(),
{
    if s.len() == 0 || t.len() == 0 {
        false
    } else {
        lex_lt(s.drop_last(), t.drop_last()) || (s.drop_last() == t.drop_last() && (
        s.last() as int) < (t.last() as int))
    }
}

/// Lexicographic order, for sequences of equal length.
pub open spec fn lex_le(s: Seq<char>, t: Seq<char>) -> bool {
    s == t || lex_lt(s, t)
}

/// The definition above peels from the back; this confirms it means
/// the usual front-first reading: for equal-length sequences, `lex_lt`
/// holds exactly when at some position the two sequences agree up to
/// it and compare strictly at it.
pub proof fn lemma_lex_lt_characterization(s: Seq<char>, t: Seq<char>)
    requires
        s.len() == t.len(),
    ensures
        lex_lt(s, t) <==> exists|k: int|
            0 <= k < s.len() && s.take(k) == t.take(k) && (s[k] as int) < (t[k] as int),
    decreases s.len(),
{
    if s.len() == 0 {
        return ;
    }
    let n = s.len() as int;
    lemma_lex_lt_characterization(s.drop_last(), t.drop_last());
    if lex_lt(s, t) {
        if lex_lt(s.drop_last(), t.drop_last()) {
            let k = choose|k: int|
                0 <= k < n - 1 && s.drop_last().take(k) == t.drop_last().take(k) && (
                s.drop_last()[k] as int) < (t.drop_last()[k] as int);
            assert(s.take(k) =~= s.drop_last().take(k));
            assert(t.take(k) =~= t.drop_last().take(k));
            assert(0 <= k < n && s.take(k) == t.take(k) && (s[k] as int) < (t[k] as int));
        } else {
            let k = n - 1;
            assert(s.take(k) =~= s.drop_last());
            assert(t.take(k) =~= t.drop_last());
            assert(0 <= k < n && s.take(k) == t.take(k) && (s[k] as int) < (t[k] as int));
        }
    }
    if exists|k: int| 0 <= k < n && s.take(k) == t.take(k) && (s[k] as int) < (t[k] as int) {
        let k = choose|k: int| 0 <= k < n && s.take(k) == t.take(k) && (s[k] as int) < (t[k] as int);
        if k == n - 1 {
            assert(s.drop_last() =~= s.take(k));
            assert(t.drop_last() =~= t.take(k));
        } else {
            assert(s.drop_last().take(k) =~= s.take(k));
            assert(t.drop_last().take(k) =~= t.take(k));
            assert(0 <= k < n - 1 && s.drop_last().take(k) == t.drop_last().take(k) && (
            s.drop_last()[k] as int) < (t.drop_last()[k] as int));
        }
    }
}

/// A strictly smaller block stays strictly smaller when equal-length
/// tails are appended on both sides.
pub proof fn lemma_lex_lt_append(a: Seq<char>, b: Seq<char>, s: Seq<char>, t: Seq<char>)
    requires
        a.len() == b.len(),
        s.len() == t.len(),
        lex_lt(a, b),
    ensures
        lex_lt(a + s, b + t),
    decreases s.len(),
{
    if s.len() == 0 {
        assert(a + s =~= a);
        assert(b + t =~= b);
    } else {
        lemma_lex_lt_append(a, b, s.drop_last(), t.drop_last());
        assert((a + s).drop_last() =~= a + s.drop_last());
        assert((b + t).drop_last() =~= b + t.drop_last());
    }
}

/// A shared prefix does not disturb a strict comparison of the tails.
pub proof fn lemma_lex_lt_prefix(a: Seq<char>, s: Seq<char>, t: Seq<char>)
    requires
        s.len() == t.len(),
        lex_lt(s, t),
    ensures
        lex_lt(a + s, a + t),
    decreases s.len(),
{
    if s.len() == 0 {
    } else {
        assert((a + s).drop_last() =~= a + s.drop_last());
        assert((a + t).drop_last() =~= a + t.drop_last());
        if lex_lt(s.drop_last(), t.drop_last()) {
            lemma_lex_lt_prefix(a, s.drop_last(), t.drop_last());
        } else {
            assert(a + s.drop_last() == a + t.drop_last());
        }
    }
}

/// Blockwise comparison: a pair of equal-length blocks compares below
/// another when the leading blocks are strictly ordered, or agree and
/// leave the decision to the trailing blocks.
pub proof fn lemma_lex_pair(a: Seq<char>, b: Seq<char>, s: Seq<char>, t: Seq<char>)
    requires
        a.len() == b.len(),
        s.len() == t.len(),
        lex_lt(a, b) || (a == b && lex_le(s, t)),
    ensures
        lex_le(a + s, b + t),
{
    if lex_lt(a, b) {
        lemma_lex_lt_append(a, b, s, t);
    } else {
        if s == t {
            assert(a + s =~= b + t);
        } else {
            lemma_lex_lt_prefix(a, s, t);
        }
    }
}

} // verus!
