//! Unsigned decimal numerals: reading one from bytes and writing one as text.
//!
//! A numeral is an optional plus sign followed by one or more ASCII digits.
//! Nothing else is accepted: no minus sign, no blanks, no underscores.

use vstd::prelude::*;
use vstd::string::*;

verus! {

/// The byte of the digit `0`.
pub const DIGIT_ZERO: u8 = 48;

/// The byte of the digit `9`.
pub const DIGIT_NINE: u8 = 57;

/// The byte of the plus sign.
pub const PLUS_SIGN: u8 = 43;

/// Whether `b` is one of the ASCII digits `0` to `9`.
pub open spec fn is_digit(b: u8) -> bool {
    48 <= b <= 57
}

/// Whether every byte of `s` is a digit.
pub open spec fn all_digits(s: Seq<u8>) -> bool {
    forall|i: int| 0 <= i < s.len() ==> is_digit(#[trigger] s[i])
}

/// The number that a run of digits denotes, most significant digit first.
pub open spec fn digits_value(s: Seq<u8>) -> nat
    decreases s.len(),
{
    if s.len() == 0 {
        0
    } else {
        digits_value(s.drop_last()) * 10 + (s.last() as int - 48) as nat
    }
}

/// What is left of `s` once an optional leading plus sign is removed.
pub open spec fn unsigned_part(s: Seq<u8>) -> Seq<u8> {
    if s.len() > 0 && s[0] == 43 {
        s.skip(1)
    } else {
        s
    }
}

/// Whether `s` is a numeral: an optional plus sign, then at least one digit
/// and nothing but digits.
pub open spec fn is_numeral(s: Seq<u8>) -> bool {
    unsigned_part(s).len() > 0 && all_digits(unsigned_part(s))
}

/// The number that the numeral `s` denotes.
pub open spec fn numeral_value(s: Seq<u8>) -> nat {
    digits_value(unsigned_part(s))
}

/// The result of reading `s` as a `u64`: its value if `s` is a numeral whose
/// value fits, and nothing otherwise.
pub open spec fn parse_u64_spec(s: Seq<u8>) -> Option<u64> {
    if is_numeral(s) && numeral_value(s) <= u64::MAX {
        Some(numeral_value(s) as u64)
    } else {
        None
    }
}

/// The digits of `n` in base ten, most significant first, without leading
/// zeros (zero itself is the single digit `0`).
pub open spec fn decimal_digits(n: nat) -> Seq<u8>
    decreases n,
{
    if n < 10 {
        seq![(48 + n) as u8]
    } else {
        decimal_digits(n / 10).push((48 + n % 10) as u8)
    }
}

/// The digits of `n` as characters.
pub open spec fn decimal_chars(n: nat) -> Seq<char> {
    decimal_digits(n).map_values(|b: u8| b as char)
}

/// A run of digits denotes at least what any of its prefixes denotes.
pub proof fn lemma_digits_value_prefix(s: Seq<u8>, k: int)
    requires
        0 <= k <= s.len(),
        all_digits(s),
    ensures
        digits_value(s.take(k)) <= digits_value(s),
    decreases s.len(),
{
    if k == s.len() {
        assert(s.take(k) =~= s);
    } else {
        let front = s.drop_last();
        assert(front.take(k) =~= s.take(k));
        assert(is_digit(s[s.len() - 1]));
        lemma_digits_value_prefix(front, k);
    }
}

/// The decimal digits of a number are digits, at least one of them, and
/// they denote the number.
pub proof fn lemma_decimal_digits_value(n: nat)
    ensures
        decimal_digits(n).len() >= 1,
        all_digits(decimal_digits(n)),
        digits_value(decimal_digits(n)) == n,
    decreases n,
{
    if n < 10 {
        let one = decimal_digits(n);
        assert(one.drop_last() =~= Seq::<u8>::empty());
        assert(digits_value(one.drop_last()) == 0);
    } else {
        let front = decimal_digits(n / 10);
        let whole = decimal_digits(n);
        lemma_decimal_digits_value(n / 10);
        assert(whole.drop_last() =~= front);
        assert forall|i: int| 0 <= i < whole.len() implies is_digit(#[trigger] whole[i]) by {
            if i < front.len() {
                assert(whole[i] == front[i]);
            }
        }
    }
}

/// What is written can be read back: the decimal digits of a number that
/// fits in a `u64` are a numeral, and reading it gives the number.
pub proof fn lemma_decimal_round_trip(n: u64)
    ensures
        is_numeral(decimal_digits(n as nat)),
        parse_u64_spec(decimal_digits(n as nat)) == Some(n),
{
    lemma_decimal_digits_value(n as nat);
    let digits = decimal_digits(n as nat);
    assert(is_digit(digits[0]));
    assert(unsigned_part(digits) == digits);
}

/// Different numbers are written differently.
pub proof fn lemma_decimal_chars_injective(a: nat, b: nat)
    requires
        decimal_chars(a) == decimal_chars(b),
    ensures
        a == b,
{
    lemma_decimal_digits_value(a);
    lemma_decimal_digits_value(b);
    let x = decimal_digits(a);
    let y = decimal_digits(b);
    assert(x.len() == decimal_chars(a).len());
    assert(y.len() == decimal_chars(b).len());
    assert forall|i: int| 0 <= i < x.len() implies x[i] == y[i] by {
        assert(decimal_chars(a)[i] == x[i] as char);
        assert(decimal_chars(b)[i] == y[i] as char);
        assert(is_digit(x[i]) && is_digit(y[i]));
    }
    assert(x =~= y);
}

/// Reads an unsigned decimal numeral.
///
/// Returns the value when `text` is a numeral that fits in a `u64`, and
/// `None` when it is empty, holds anything but digits after an optional
/// plus sign, or denotes a number that is too large.
pub fn parse_u64(text: &[u8]) -> (r: Option<u64>)
    ensures
        r == parse_u64_spec(text@),
{
    let n: usize = text.len();
    let start: usize = if n > 0 && text[0] == PLUS_SIGN {
        1
    } else {
        0
    };
    let ghost digits = unsigned_part(text@);
    assert(digits =~= text@.skip(start as int));
    if start == n {
        return None;
    }
    let mut acc: u64 = 0;
    let mut i: usize = start;
    assert(digits.take(0) =~= Seq::<u8>::empty());
    while i < n
        invariant
            start <= i <= n,
            n == text.len(),
            digits == unsigned_part(text@),
            digits =~= text@.skip(start as int),
            all_digits(digits.take(i - start)),
            acc == digits_value(digits.take(i - start)),
        decreases n - i,
    {
        let b: u8 = text[i];
        assert(digits[i - start] == b);
        if b < DIGIT_ZERO || b > DIGIT_NINE {
            assert(!is_digit(digits[i - start]));
            return None;
        }
        let ghost seen = digits.take(i - start + 1);
        assert(seen.drop_last() =~= digits.take(i - start));
        assert(seen.last() == b);
        assert(all_digits(seen)) by {
            assert forall|j: int| 0 <= j < seen.len() implies is_digit(#[trigger] seen[j]) by {
                if j < seen.len() - 1 {
                    assert(seen[j] == digits.take(i - start)[j]);
                }
            }
        }
        let d: u64 = (b - DIGIT_ZERO) as u64;
        let next: Option<u64> = match acc.checked_mul(10) {
            Some(m) => m.checked_add(d),
            None => None,
        };
        match next {
            Some(v) => {
                acc = v;
            },
            None => {
                proof {
                    assert(digits_value(seen) > u64::MAX);
                    if all_digits(digits) {
                        lemma_digits_value_prefix(digits, i - start + 1);
                    }
                }
                return None;
            },
        }
        i += 1;
    }
    assert(digits.take(i - start) =~= digits);
    Some(acc)
}

/// The one-character text of the digit `d`.
fn digit_text(d: u8) -> (s: &'static str)
    requires
        d < 10,
    ensures
        s@ == seq![(48 + d) as u8 as char],
{
    proof {
        reveal_strlit("0");
        reveal_strlit("1");
        reveal_strlit("2");
        reveal_strlit("3");
        reveal_strlit("4");
        reveal_strlit("5");
        reveal_strlit("6");
        reveal_strlit("7");
        reveal_strlit("8");
        reveal_strlit("9");
    }
    let s: &'static str = if d == 0 {
        "0"
    } else if d == 1 {
        "1"
    } else if d == 2 {
        "2"
    } else if d == 3 {
        "3"
    } else if d == 4 {
        "4"
    } else if d == 5 {
        "5"
    } else if d == 6 {
        "6"
    } else if d == 7 {
        "7"
    } else if d == 8 {
        "8"
    } else {
        "9"
    };
    assert(s@ =~= seq![(48 + d) as u8 as char]);
    s
}

/// Appends the decimal digits of `n` to `out`.
pub fn push_decimal(out: &mut String, n: u64)
    ensures
        final(out)@ == old(out)@ + decimal_chars(n as nat),
    decreases n,
{
    let ghost before = out@;
    if n >= 10 {
        push_decimal(out, n / 10);
    }
    let ghost middle = out@;
    let d: u8 = (n % 10) as u8;
    out.append(digit_text(d));
    proof {
        let last = seq![(48 + d) as u8 as char];
        if n >= 10 {
            let front = decimal_digits((n / 10) as nat);
            assert(decimal_digits(n as nat) == front.push((48 + d) as u8));
            assert(decimal_chars(n as nat) =~= decimal_chars((n / 10) as nat) + last);
            assert(out@ =~= before + decimal_chars(n as nat));
        } else {
            assert(decimal_digits(n as nat) == seq![(48 + d) as u8]);
            assert(decimal_chars(n as nat) =~= last);
        }
    }
}

/// The decimal text of `n`.
pub fn to_decimal(n: u64) -> (s: String)
    ensures
        s@ == decimal_chars(n as nat),
{
    let mut s: String = String::new();
    push_decimal(&mut s, n);
    assert(s@ =~= decimal_chars(n as nat));
    s
}

} // verus!
