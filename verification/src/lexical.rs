//! The order of names as text, and why numerals of fixed width sort like
//! the numbers they stand for.

use crate::layout::packed_name;
use crate::text::{decimal, digit_char, signed_zero_padded, zero_padded, zeros};
use vstd::prelude::*;

verus! {

/// Whether `a` comes before `b` in the order of texts: at the first
/// position where they differ `a` has the smaller character, or `a` ends
/// there and `b` goes on.
pub open spec fn lex_less(a: Seq<char>, b: Seq<char>) -> bool
    decreases a.len(),
{
    if b.len() == 0 {
        false
    } else if a.len() == 0 {
        true
    } else if a[0] != b[0] {
        (a[0] as int) < (b[0] as int)
    } else {
        lex_less(a.drop_first(), b.drop_first())
    }
}

/// Ten to the power of `w`.
pub open spec fn pow10(w: nat) -> nat
    decreases w,
{
    if w == 0 {
        1
    } else {
        10 * pow10((w - 1) as nat)
    }
}

/// The last `w` decimal digits of `n`, most significant first.
pub open spec fn fixed_digits(n: nat, w: nat) -> Seq<char>
    decreases w,
{
    if w == 0 {
        Seq::empty()
    } else {
        fixed_digits(n / 10, (w - 1) as nat).push(digit_char((n % 10) as int))
    }
}

/// Texts that begin alike are ordered by what follows.
pub proof fn lemma_common_prefix(p: Seq<char>, u: Seq<char>, v: Seq<char>)
    ensures
        lex_less(p + u, p + v) == lex_less(u, v),
    decreases p.len(),
{
    if p.len() == 0 {
        assert(p + u =~= u);
        assert(p + v =~= v);
    } else {
        assert((p + u).drop_first() =~= p.drop_first() + u);
        assert((p + v).drop_first() =~= p.drop_first() + v);
        assert((p + u)[0] == (p + v)[0]);
        lemma_common_prefix(p.drop_first(), u, v);
    }
}

/// The digits of nothing are zeros.
proof fn lemma_fixed_digits_of_zero(w: nat)
    ensures
        fixed_digits(0, w) == zeros(w),
    decreases w,
{
    if w > 0 {
        lemma_fixed_digits_of_zero((w - 1) as nat);
        assert(fixed_digits(0, w) =~= zeros(w));
    } else {
        assert(fixed_digits(0, w) =~= zeros(w));
    }
}

/// A numeral has at least one digit.
proof fn lemma_decimal_nonempty(n: nat)
    ensures
        decimal(n).len() >= 1,
    decreases n,
{
    if n >= 10 {
        lemma_decimal_nonempty(n / 10);
    }
}

/// A numeral fits into `w` characters exactly if the number lies below
/// ten to the power of `w`.
pub proof fn lemma_decimal_width(n: nat, w: nat)
    requires
        w >= 1,
    ensures
        decimal(n).len() <= w <==> n < pow10(w),
        pow10(w) >= 10,
    decreases w,
{
    lemma_decimal_nonempty(n / 10);
    if w == 1 {
        assert(pow10(1) == 10) by {
            reveal_with_fuel(pow10, 2);
        }
        if n >= 10 {
            assert(decimal(n).len() == decimal(n / 10).len() + 1);
        }
    } else {
        lemma_decimal_width(n / 10, (w - 1) as nat);
        let below = pow10((w - 1) as nat);
        assert(pow10(w) == 10 * below);
        if n >= 10 {
            assert(decimal(n).len() == decimal(n / 10).len() + 1);
            assert(n / 10 < below <==> n < 10 * below);
        }
    }
}

/// Below ten to the power of `w`, the numeral that is filled with zeros up
/// to `w` characters consists of the last `w` digits of the number.
pub proof fn lemma_zero_padded_is_fixed(n: nat, w: nat)
    requires
        w >= 1,
        n < pow10(w),
    ensures
        zero_padded(n, w) == fixed_digits(n, w),
        zero_padded(n, w).len() == w,
    decreases w,
{
    lemma_decimal_width(n, w);
    if n < 10 {
        lemma_fixed_digits_of_zero((w - 1) as nat);
        assert(decimal(n) =~= seq![digit_char(n as int)]);
        assert(zero_padded(n, w) =~= zeros((w - 1) as nat).push(digit_char(n as int)));
    } else {
        assert(w >= 2) by {
            if w == 1 {
                reveal_with_fuel(pow10, 2);
            }
        }
        let front = n / 10;
        let last = digit_char((n % 10) as int);
        lemma_zero_padded_is_fixed(front, (w - 1) as nat);
        lemma_decimal_width(front, (w - 1) as nat);
        assert(decimal(n) =~= decimal(front).push(last));
        assert(zero_padded(n, w) =~= zero_padded(front, (w - 1) as nat).push(last));
    }
}

/// Numerals of one width are ordered like their numbers, whatever follows
/// them.
pub proof fn lemma_fixed_digits_order(a: nat, b: nat, w: nat, x: Seq<char>, y: Seq<char>)
    requires
        a < b < pow10(w),
    ensures
        lex_less(fixed_digits(a, w) + x, fixed_digits(b, w) + y),
    decreases w,
{
    if w == 0 {
    } else {
        let da = digit_char((a % 10) as int);
        let db = digit_char((b % 10) as int);
        let pa = fixed_digits(a / 10, (w - 1) as nat);
        let pb = fixed_digits(b / 10, (w - 1) as nat);
        assert(fixed_digits(a, w) + x =~= pa + (seq![da] + x));
        assert(fixed_digits(b, w) + y =~= pb + (seq![db] + y));
        if a / 10 < b / 10 {
            lemma_fixed_digits_order(a / 10, b / 10, (w - 1) as nat, seq![da] + x, seq![db] + y);
        } else {
            assert(a / 10 == b / 10);
            assert(a % 10 < b % 10);
            lemma_common_prefix(pa, seq![da] + x, seq![db] + y);
            assert((seq![da] + x)[0] == da);
            assert((seq![db] + y)[0] == db);
            assert((da as int) < (db as int));
        }
    }
}

/// Packed version directories sort by time and then by height: of two
/// names with time stamps of at most ten digits, the one with the earlier
/// time stamp comes first, and of two with the same time stamp and heights
/// of at most twelve digits, the one with the smaller height.
pub proof fn lemma_packed_names_sort(
    t1: i64,
    h1: u64,
    v1: Seq<char>,
    t2: i64,
    h2: u64,
    v2: Seq<char>,
)
    requires
        0 <= t1 < 10_000_000_000,
        0 <= t2 < 10_000_000_000,
        t1 < t2 || (t1 == t2 && h1 < h2 && h2 < 1_000_000_000_000),
    ensures
        lex_less(packed_name(t1, h1, v1), packed_name(t2, h2, v2)),
{
    assert(pow10(10) == 10_000_000_000 && pow10(12) == 1_000_000_000_000) by {
        reveal_with_fuel(pow10, 13);
    }
    let tail1 = seq!['_'] + zero_padded(h1 as nat, 12) + seq!['_'] + v1 + ".tgz"@;
    let tail2 = seq!['_'] + zero_padded(h2 as nat, 12) + seq!['_'] + v2 + ".tgz"@;
    lemma_zero_padded_is_fixed(t1 as nat, 10);
    lemma_zero_padded_is_fixed(t2 as nat, 10);
    assert(signed_zero_padded(t1 as int, 10) == fixed_digits(t1 as nat, 10));
    assert(signed_zero_padded(t2 as int, 10) == fixed_digits(t2 as nat, 10));
    assert(packed_name(t1, h1, v1) =~= fixed_digits(t1 as nat, 10) + tail1);
    assert(packed_name(t2, h2, v2) =~= fixed_digits(t2 as nat, 10) + tail2);
    if t1 < t2 {
        lemma_fixed_digits_order(t1 as nat, t2 as nat, 10, tail1, tail2);
    } else {
        let rest1 = seq!['_'] + v1 + ".tgz"@;
        let rest2 = seq!['_'] + v2 + ".tgz"@;
        lemma_zero_padded_is_fixed(h1 as nat, 12);
        lemma_zero_padded_is_fixed(h2 as nat, 12);
        let head = fixed_digits(t1 as nat, 10) + seq!['_'];
        assert(packed_name(t1, h1, v1) =~= head + (fixed_digits(h1 as nat, 12) + rest1));
        assert(packed_name(t2, h2, v2) =~= head + (fixed_digits(h2 as nat, 12) + rest2));
        lemma_fixed_digits_order(h1 as nat, h2 as nat, 12, rest1, rest2);
        lemma_common_prefix(
            head,
            fixed_digits(h1 as nat, 12) + rest1,
            fixed_digits(h2 as nat, 12) + rest2,
        );
    }
}

} // verus!
