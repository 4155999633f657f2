//! Text of numbers, and text put together from pieces.

use vstd::prelude::*;

verus! {

/// The digits that numbers are written with, from zero up.
pub const DIGITS: &'static str = "0123456789abcdef";

/// `n` written in base `base` with the fewest digits, most significant digit first.
pub open spec fn numeral(n: nat, base: nat) -> Seq<char>
    decreases n,
{
    if n < base || base < 2 {
        seq![DIGITS@[n as int]]
    } else {
        proof {
            assert(n / base < n) by (nonlinear_arith)
                requires
                    2 <= base <= n,
            ;
        }
        numeral(n / base, base).push(DIGITS@[(n % base) as int])
    }
}

proof fn lemma_quotient_smaller(n: int, base: int)
    by (nonlinear_arith)
    requires
        2 <= base <= n,
    ensures
        0 <= n / base < n,
        0 <= n % base < base,
{
}

fn write_numeral(n: u64, base: u64) -> (text: String)
    requires
        2 <= base <= 16,
    ensures
        text@ == numeral(n as nat, base as nat),
    decreases n,
{
    proof {
        reveal_strlit("0123456789abcdef");
    }
    let low: usize = (n % base) as usize;
    let digit = DIGITS.substring_char(low, low + 1);
    if n < base {
        digit.to_owned()
    } else {
        proof {
            lemma_quotient_smaller(n as int, base as int);
        }
        let mut text = write_numeral(n / base, base);
        text.append(digit);
        text
    }
}

/// `n` in decimal.
pub fn decimal_text(n: u64) -> (text: String)
    ensures
        text@ == numeral(n as nat, 10),
{
    write_numeral(n, 10)
}

/// `n` in lower-case hexadecimal, with no prefix.
pub fn hex_text(n: u64) -> (text: String)
    ensures
        text@ == numeral(n as nat, 16),
{
    write_numeral(n, 16)
}

/// Whether the two texts are the same.
pub fn same_text(a: &str, b: &str) -> (same: bool)
    ensures
        same == (a@ == b@),
{
    a.to_owned() == b.to_owned()
}

/// Whether `text` ends with `suffix`.
pub fn ends_with(text: &str, suffix: &str) -> (ends: bool)
    ensures
        ends == suffix@.is_suffix_of(text@),
{
    let text_len: usize = text.unicode_len();
    let suffix_len: usize = suffix.unicode_len();
    suffix_len <= text_len && same_text(
        text.substring_char(text_len - suffix_len, text_len),
        suffix,
    )
}

/// A number ends with its remainder as a digit, `0` to `9` and then from `a` on, and before that
/// stands its quotient, if there is one.
pub proof fn law_digits_are_remainders(n: nat, base: nat)
    requires
        2 <= base <= 16,
    ensures
        numeral(n, base).len() >= 1,
        n % base < 10 ==> numeral(n, base).last() as int == '0' as int + n % base,
        n % base >= 10 ==> numeral(n, base).last() as int == 'a' as int + n % base - 10,
        n < base ==> numeral(n, base).len() == 1,
        n >= base ==> numeral(n, base).drop_last() == numeral(n / base, base),
{
    reveal_strlit("0123456789abcdef");
    assert(0 <= n % base < base) by (nonlinear_arith)
        requires
            2 <= base,
    ;
    if n < base {
        assert(n % base == n) by (nonlinear_arith)
            requires
                0 <= n < base,
        ;
    } else {
        assert(numeral(n, base).drop_last() =~= numeral(n / base, base));
    }
}

/// Different numbers are written differently.
pub proof fn law_numerals_tell_numbers_apart(n: nat, m: nat, base: nat)
    requires
        2 <= base <= 16,
        numeral(n, base) == numeral(m, base),
    ensures
        n == m,
    decreases n,
{
    law_digits_are_remainders(n, base);
    law_digits_are_remainders(m, base);
    assert(n == base * (n / base) + n % base) by (nonlinear_arith)
        requires
            2 <= base,
    ;
    assert(m == base * (m / base) + m % base) by (nonlinear_arith)
        requires
            2 <= base,
    ;
    assert(0 <= n % base < base && 0 <= m % base < base) by (nonlinear_arith)
        requires
            2 <= base,
    ;
    assert(n % base == m % base);
    if n < base {
        assert(n % base == n) by (nonlinear_arith)
            requires
                0 <= n < base,
        ;
        if m >= base {
            law_digits_are_remainders(m / base, base);
            assert(numeral(m, base).len() >= 2);
        } else {
            assert(m % base == m) by (nonlinear_arith)
                requires
                    0 <= m < base,
            ;
        }
    } else {
        law_digits_are_remainders(n / base, base);
        if m < base {
            assert(numeral(n, base).len() >= 2);
        } else {
            lemma_quotient_smaller(n as int, base as int);
            law_numerals_tell_numbers_apart(n / base, m / base, base);
        }
    }
}

} // verus!
