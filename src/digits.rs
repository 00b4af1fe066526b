//! Fixed-width decimal rendering of natural numbers, and reading it back.

use vstd::prelude::*;

verus! {

/// `10` raised to `w`.
pub open spec fn pow10(w: nat) -> nat
    decreases w,
{
    if w == 0 {
        1
    } else {
        10 * pow10((w - 1) as nat)
    }
}

/// The character of a decimal digit `d < 10`.
pub open spec fn digit_char(d: nat) -> char {
    if d == 0 {
        '0'
    } else if d == 1 {
        '1'
    } else if d == 2 {
        '2'
    } else if d == 3 {
        '3'
    } else if d == 4 {
        '4'
    } else if d == 5 {
        '5'
    } else if d == 6 {
        '6'
    } else if d == 7 {
        '7'
    } else if d == 8 {
        '8'
    } else {
        '9'
    }
}

/// Whether `c` is one of the ten ASCII decimal digits.
pub open spec fn is_digit(c: char) -> bool {
    '0' <= c && c <= '9'
}

/// The value of a decimal digit character.
pub open spec fn digit_value(c: char) -> nat {
    (c as int - '0' as int) as nat
}

/// The last `w` decimal digits of `n`, most significant first, padded with
/// leading zeros.
pub open spec fn digits(n: nat, w: nat) -> Seq<char>
    decreases w,
{
    if w == 0 {
        Seq::empty()
    } else {
        digits(n / 10, (w - 1) as nat).push(digit_char(n % 10))
    }
}

/// The number that a string of decimal digits denotes.
pub open spec fn decimal_value(s: Seq<char>) -> nat
    decreases s.len(),
{
    if s.len() == 0 {
        0
    } else {
        decimal_value(s.drop_last()) * 10 + digit_value(s.last())
    }
}

proof fn lemma_digit_char(d: nat)
    requires
        d < 10,
    ensures
        is_digit(digit_char(d)),
        digit_value(digit_char(d)) == d,
{
}

/// Rendering `n` in `w` digits gives `w` decimal digits, which read back as
/// `n` whenever `n` has at most `w` digits.
pub proof fn lemma_digits_round_trip(n: nat, w: nat)
    ensures
        digits(n, w).len() == w,
        forall|k: int| 0 <= k < w ==> is_digit(#[trigger] digits(n, w)[k]),
        decimal_value(digits(n, w)) == n % pow10(w),
        n < pow10(w) ==> decimal_value(digits(n, w)) == n,
    decreases w,
{
    if w > 0 {
        let w1 = (w - 1) as nat;
        lemma_digits_round_trip(n / 10, w1);
        lemma_digit_char(n % 10);
        let s = digits(n, w);
        assert(s.drop_last() =~= digits(n / 10, w1));
        assert forall|k: int| 0 <= k < w implies is_digit(#[trigger] s[k]) by {
            if k < w1 {
                assert(s[k] == digits(n / 10, w1)[k]);
            }
        }
        assert(pow10(w1) > 0) by {
            lemma_pow10_positive(w1);
        }
        vstd::arithmetic::div_mod::lemma_mod_breakdown(n as int, 10, pow10(w1) as int);
        assert((n / 10) % pow10(w1) * 10 == 10 * ((n / 10) % pow10(w1))) by (nonlinear_arith);
    }
    assert(pow10(w) > 0) by {
        lemma_pow10_positive(w);
    }
    if n < pow10(w) {
        vstd::arithmetic::div_mod::lemma_small_mod(n, pow10(w));
    }
}

proof fn lemma_pow10_positive(w: nat)
    ensures
        pow10(w) > 0,
    decreases w,
{
    if w > 0 {
        lemma_pow10_positive((w - 1) as nat);
    }
}

/// The one-character string of a decimal digit.
fn digit_str(d: u64) -> (r: &'static str)
    requires
        d < 10,
    ensures
        r@ == seq![digit_char(d as nat)],
{
    if d == 0 {
        proof { reveal_strlit("0"); }
        "0"
    } else if d == 1 {
        proof { reveal_strlit("1"); }
        "1"
    } else if d == 2 {
        proof { reveal_strlit("2"); }
        "2"
    } else if d == 3 {
        proof { reveal_strlit("3"); }
        "3"
    } else if d == 4 {
        proof { reveal_strlit("4"); }
        "4"
    } else if d == 5 {
        proof { reveal_strlit("5"); }
        "5"
    } else if d == 6 {
        proof { reveal_strlit("6"); }
        "6"
    } else if d == 7 {
        proof { reveal_strlit("7"); }
        "7"
    } else if d == 8 {
        proof { reveal_strlit("8"); }
        "8"
    } else {
        proof { reveal_strlit("9"); }
        "9"
    }
}

/// Appends the last `width` decimal digits of `n` to `out`, zero-padded.
pub fn append_decimal(out: &mut String, n: u64, width: usize)
    ensures
        final(out)@ == old(out)@ + digits(n as nat, width as nat),
    decreases width,
{
    if width == 0 {
        assert(old(out)@ + digits(n as nat, 0) =~= old(out)@);
        return;
    }
    append_decimal(out, n / 10, width - 1);
    let d = digit_str(n % 10);
    out.append(d);
    assert(digits(n as nat, width as nat) =~= digits((n / 10) as nat, (width - 1) as nat).push(
        digit_char((n % 10) as nat),
    ));
}

} // verus!
