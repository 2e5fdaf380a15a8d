//! Reading unsigned numbers out of names and fields.
//!
//! A numeral is an optional `+` followed by at least one digit of the radix.
//! Letters stand for the digits from ten on, in either case. Anything else,
//! and any value beyond the target range, is not a number.

use crate::text::{decimal, digit_char};
use vstd::prelude::*;

verus! {

/// The value of a digit character, or `-1` for a character that is no digit
/// in any radix.
pub open spec fn digit_value(c: char) -> int {
    let u = c as int;
    if 48 <= u <= 57 {
        u - 48
    } else if 97 <= u <= 122 {
        u - 87
    } else if 65 <= u <= 90 {
        u - 55
    } else {
        -1
    }
}

/// Whether `c` is a digit of the given radix.
pub open spec fn is_digit(c: char, radix: int) -> bool {
    0 <= digit_value(c) < radix
}

/// Whether every character of `s` is a digit of the given radix.
pub open spec fn all_digits(s: Seq<char>, radix: int) -> bool {
    forall|i: int| 0 <= i < s.len() ==> is_digit(#[trigger] s[i], radix)
}

/// The number that a run of digits denotes, most significant digit first.
pub open spec fn numeral_value(s: Seq<char>, radix: int) -> int
    decreases s.len(),
{
    if s.len() == 0 {
        0
    } else {
        numeral_value(s.drop_last(), radix) * radix + digit_value(s.last())
    }
}

/// The digits of a numeral: the text without its optional leading `+`.
pub open spec fn numeral_digits(s: Seq<char>) -> Seq<char> {
    if s.len() > 0 && s[0] == '+' {
        s.drop_first()
    } else {
        s
    }
}

/// The number written in `s`, if `s` is a numeral of the radix whose value
/// does not exceed `max`.
pub open spec fn parse_bounded(s: Seq<char>, radix: int, max: int) -> Option<int> {
    let digits = numeral_digits(s);
    if digits.len() > 0 && all_digits(digits, radix) && numeral_value(digits, radix) <= max {
        Some(numeral_value(digits, radix))
    } else {
        None
    }
}

/// A run of digits denotes a number that is at least as large as the number
/// denoted by any of its prefixes, and never negative.
pub proof fn lemma_prefix_value(s: Seq<char>, radix: int, k: int)
    requires
        radix >= 1,
        all_digits(s, radix),
        0 <= k <= s.len(),
    ensures
        0 <= numeral_value(s.take(k), radix) <= numeral_value(s, radix),
    decreases s.len(),
{
    if s.len() == 0 {
        assert(s.take(k) =~= s);
    } else if k == s.len() {
        assert(s.take(k) =~= s);
        lemma_prefix_value(s.drop_last(), radix, 0);
        assert(s.drop_last().take(0).len() == 0);
        let v = numeral_value(s.drop_last(), radix);
        assert(v * radix >= 0) by (nonlinear_arith)
            requires
                v >= 0,
                radix >= 1,
        ;
    } else {
        lemma_prefix_value(s.drop_last(), radix, k);
        assert(s.drop_last().take(k) =~= s.take(k));
        let v = numeral_value(s.drop_last(), radix);
        assert(v * radix >= v) by (nonlinear_arith)
            requires
                v >= 0,
                radix >= 1,
        ;
    }
}

/// Reading a number that was written in decimal gives the number back:
/// its numeral consists of decimal digits only, carries no sign, and
/// denotes the number.
pub proof fn lemma_decimal_round_trip(n: nat)
    ensures
        decimal(n).len() >= 1,
        all_digits(decimal(n), 10),
        numeral_digits(decimal(n)) == decimal(n),
        numeral_value(decimal(n), 10) == n,
        forall|max: int| n <= max ==> #[trigger] parse_bounded(decimal(n), 10, max) == Some(n as int),
    decreases n,
{
    let text = decimal(n);
    if n < 10 {
        assert(text =~= seq![digit_char(n as int)]);
        assert(digit_value(digit_char(n as int)) == n);
        assert(text.drop_last() =~= Seq::<char>::empty());
        assert(numeral_value(text.drop_last(), 10) == 0);
    } else {
        let front = decimal(n / 10);
        let last = digit_char((n % 10) as int);
        lemma_decimal_round_trip(n / 10);
        assert(text =~= front.push(last));
        assert(text.drop_last() =~= front);
        assert(digit_value(last) == n % 10);
        assert forall|i: int| 0 <= i < text.len() implies is_digit(#[trigger] text[i], 10) by {
            if i < front.len() {
                assert(text[i] == front[i]);
            }
        }
        assert(text[0] == front[0]);
    }
    assert(text[0] != '+') by {
        if n < 10 {
        } else {
            assert(is_digit(text[0], 10));
        }
    }
}

/// Reads the value of one digit character; `None` for a character that is
/// no digit of the radix.
pub fn digit_of(c: char, radix: u32) -> (d: Option<u32>)
    requires
        radix <= 36,
    ensures
        d is Some <==> is_digit(c, radix as int),
        d is Some ==> d->0 == digit_value(c),
{
    let u: u32 = c as u32;
    let value: u32 = if 48 <= u && u <= 57 {
        u - 48
    } else if 97 <= u && u <= 122 {
        u - 87
    } else if 65 <= u && u <= 90 {
        u - 55
    } else {
        return None;
    };
    if value < radix {
        Some(value)
    } else {
        None
    }
}

/// Reads an unsigned number in the given radix from the characters of a
/// name. Returns `None` for the empty text, a lone sign, a character that is
/// no digit, or a value that does not fit into sixty-four bits.
pub fn parse_u64(chars: &Vec<char>, radix: u32) -> (value: Option<u64>)
    requires
        2 <= radix <= 36,
    ensures
        value is Some <==> parse_bounded(chars@, radix as int, u64::MAX as int) is Some,
        value is Some ==> value->0 as int == parse_bounded(
            chars@,
            radix as int,
            u64::MAX as int,
        )->0,
{
    let len = chars.len();
    let start: usize = if len > 0 && chars[0] == '+' {
        1
    } else {
        0
    };
    let ghost digits = numeral_digits(chars@);
    if start == len {
        return None;
    }
    let mut acc: u64 = 0;
    let mut i: usize = start;
    while i < len
        invariant
            2 <= radix <= 36,
            start <= i <= len,
            len == chars@.len(),
            digits == chars@.subrange(start as int, len as int),
            digits == numeral_digits(chars@),
            all_digits(digits.take(i - start), radix as int),
            acc == numeral_value(digits.take(i - start), radix as int),
        decreases len - i,
    {
        let ghost k = i - start;
        assert(digits.take(k + 1).drop_last() =~= digits.take(k));
        assert(digits.take(k + 1).last() == digits[k]);
        match digit_of(chars[i], radix) {
            None => {
                return None;
            },
            Some(d) => {
                let limit: u64 = (u64::MAX - d as u64) / (radix as u64);
                if acc > limit {
                    proof {
                        assert(acc * radix + d > u64::MAX) by (nonlinear_arith)
                            requires
                                acc > (u64::MAX - d) / (radix as int),
                                radix >= 2,
                                0 <= d,
                        ;
                        if all_digits(digits, radix as int) {
                            lemma_prefix_value(digits, radix as int, k + 1);
                        }
                    }
                    return None;
                }
                assert(acc * radix + d <= u64::MAX) by (nonlinear_arith)
                    requires
                        acc <= (u64::MAX - d) / (radix as int),
                        radix >= 2,
                        0 <= d <= u64::MAX,
                        acc >= 0,
                ;
                acc = acc * (radix as u64) + d as u64;
                assert forall|j: int| 0 <= j < k + 1 implies is_digit(
                    #[trigger] digits.take(k + 1)[j],
                    radix as int,
                ) by {
                    if j < k {
                        assert(digits.take(k + 1)[j] == digits.take(k)[j]);
                    }
                }
            },
        }
        i = i + 1;
    }
    assert(digits.take(len - start) =~= digits);
    Some(acc)
}

/// Reads an unsigned number that has to fit into thirty-two bits.
pub fn parse_u32(chars: &Vec<char>, radix: u32) -> (value: Option<u32>)
    requires
        2 <= radix <= 36,
    ensures
        value is Some <==> parse_bounded(chars@, radix as int, u32::MAX as int) is Some,
        value is Some ==> value->0 as int == parse_bounded(
            chars@,
            radix as int,
            u32::MAX as int,
        )->0,
{
    match parse_u64(chars, radix) {
        Some(v) => {
            if v <= 0xffff_ffff {
                Some(v as u32)
            } else {
                None
            }
        },
        None => None,
    }
}

} // verus!
