//! Fixed-width, zero-padded decimal numerals, the building blocks of
//! every timestamp this crate formats.
//!
//! `padded(n, w)` is the low-order `w` decimal digits of `n`, zero
//! padded — for `n < pow10(w)` exactly the usual zero-padded numeral.
//! Its central property, proved here, is that it renders the numeric
//! order as lexicographic order on the digit strings.

use crate::lexorder::lex_lt;
use vstd::arithmetic::div_mod::lemma_div_is_ordered;
use vstd::arithmetic::div_mod::lemma_fundamental_div_mod;
use vstd::arithmetic::div_mod::lemma_multiply_divide_lt;
use vstd::prelude::*;

verus! {

/// The character for one decimal digit (digits ten and above do not
/// arise: every use is under a modulus).
pub open spec fn digit_char(d: nat) -> char {
    if d == 0 {
        '0'
    } else if d == 1 {
        '1'
    } else if d == 2 {
        '2'
    } else if d == 3 {
        '3'
    } else if d == 4 {
        '4'
    } else if d == 5 {
        '5'
    } else if d == 6 {
        '6'
    } else if d == 7 {
        '7'
    } else if d == 8 {
        '8'
    } else {
        '9'
    }
}

/// Powers of ten.
pub open spec fn pow10(w: nat) -> nat
    decreases w,
{
    if w == 0 {
        1nat
    } else {
        10 * pow10((w - 1) as nat)
    }
}

/// The low-order `w` digits of `n`, zero padded to exactly width `w`.
pub open spec fn padded(n: nat, w: nat) -> Seq<char>
    decreases w,
{
    if w == 0 {
        Seq::empty()
    } else {
        padded(n / 10, (w - 1) as nat).push(digit_char(n % 10))
    }
}

/// A padded numeral has exactly its width.
pub proof fn lemma_padded_len(n: nat, w: nat)
    ensures
        padded(n, w).len() == w,
    decreases w,
{
    if w > 0 {
        lemma_padded_len(n / 10, (w - 1) as nat);
    }
}

/// Digit characters order as the digits themselves.
proof fn lemma_digit_char_value(d: nat)
    requires
        d < 10,
    ensures
        digit_char(d) as int == 48 + d,
{
}

/// Zero-padded numerals of one width render the numeric order as
/// lexicographic order: strictly smaller numbers give strictly smaller
/// digit strings, as long as the larger number fits the width.
pub proof fn lemma_padded_lt(n: nat, m: nat, w: nat)
    requires
        n < m,
        m < pow10(w),
    ensures
        lex_lt(padded(n, w), padded(m, w)),
    decreases w,
{
    assert(w > 0) by {
        if w == 0 {
            assert(pow10(0) == 1);
        }
    }
    let nh = n / 10;
    let mh = m / 10;
    lemma_padded_len(nh, (w - 1) as nat);
    lemma_padded_len(mh, (w - 1) as nat);
    lemma_div_is_ordered(n as int, m as int, 10);
    if nh == mh {
        assert(n % 10 < m % 10) by {
            lemma_fundamental_div_mod(n as int, 10);
            lemma_fundamental_div_mod(m as int, 10);
        }
        lemma_digit_char_value(n % 10);
        lemma_digit_char_value(m % 10);
        assert(padded(n, w).drop_last() =~= padded(nh, (w - 1) as nat));
        assert(padded(m, w).drop_last() =~= padded(mh, (w - 1) as nat));
    } else {
        assert(mh < pow10((w - 1) as nat)) by {
            lemma_multiply_divide_lt(m as int, 10, pow10((w - 1) as nat) as int);
        }
        lemma_padded_lt(nh, mh, (w - 1) as nat);
        assert(padded(n, w).drop_last() =~= padded(nh, (w - 1) as nat));
        assert(padded(m, w).drop_last() =~= padded(mh, (w - 1) as nat));
    }
}

/// One digit as a borrowed string.
fn digit_str(d: u32) -> (r: &'static str)
    requires
        d < 10,
    ensures
        r@ =~= seq![digit_char(d as nat)],
{
    proof {
        reveal_strlit("0");
        reveal_strlit("1");
        reveal_strlit("2");
        reveal_strlit("3");
        reveal_strlit("4");
        reveal_strlit("5");
        reveal_strlit("6");
        reveal_strlit("7");
        reveal_strlit("8");
        reveal_strlit("9");
    }
    if d == 0 {
        "0"
    } else if d == 1 {
        "1"
    } else if d == 2 {
        "2"
    } else if d == 3 {
        "3"
    } else if d == 4 {
        "4"
    } else if d == 5 {
        "5"
    } else if d == 6 {
        "6"
    } else if d == 7 {
        "7"
    } else if d == 8 {
        "8"
    } else {
        "9"
    }
}

/// The zero-padded width-`w` numeral of `n`, as a string.
pub fn padded_string(n: u32, w: u32) -> (r: String)
    ensures
        r@ == padded(n as nat, w as nat),
    decreases w,
{
    if w == 0 {
        String::new()
    } else {
        let high = padded_string(n / 10, w - 1);
        let r = high.concat(digit_str(n % 10));
        proof {
            assert(r@ =~= padded((n / 10) as nat, (w - 1) as nat).push(
                digit_char((n % 10) as nat),
            ));
        }
        r
    }
}

} // verus!
