//! Decimal numbers as text: reading a count and writing one.

use vstd::prelude::*;
use crate::text::{digit_value, is_digit};

verus! {

// ---------------------------------------------------------------------------
// Reading
// ---------------------------------------------------------------------------

/// Whether every character is a decimal digit.
pub open spec fn all_digits(s: Seq<char>) -> bool {
    forall|i: int| 0 <= i < s.len() ==> is_digit(#[trigger] s[i])
}

/// The number that a sequence of decimal digits stands for.
pub open spec fn digits_value(s: Seq<char>) -> nat
    decreases s.len(),
{
    if s.len() == 0 {
        0
    } else {
        digits_value(s.drop_last()) * 10 + digit_value(s.last())
    }
}

/// The digits of a number's text: the text itself, without one leading plus
/// sign.
pub open spec fn unsigned_digits(s: Seq<char>) -> Seq<char> {
    if s.len() > 0 && s[0] == '+' {
        s.drop_first()
    } else {
        s
    }
}

/// Whether the text is a number that fits the machine word: one or more
/// decimal digits, with or without a plus sign before them.
pub open spec fn is_count(s: Seq<char>) -> bool {
    let d = unsigned_digits(s);
    d.len() > 0 && all_digits(d) && digits_value(d) <= usize::MAX
}

/// The count that the text stands for, and zero where it stands for none.
pub open spec fn count_of(s: Seq<char>) -> nat {
    if is_count(s) {
        digits_value(unsigned_digits(s))
    } else {
        0
    }
}

/// A longer run of digits never stands for a smaller number than its
/// beginning.
pub proof fn lemma_digits_value_grows(s: Seq<char>, k: int)
    requires
        0 <= k <= s.len(),
    ensures
        digits_value(s.take(k)) <= digits_value(s),
    decreases s.len(),
{
    if k == s.len() {
        assert(s.take(k) =~= s);
    } else {
        assert(s.drop_last().take(k) =~= s.take(k));
        lemma_digits_value_grows(s.drop_last(), k);
    }
}

/// The count that the text stands for, and zero where it stands for none.
pub fn parse_count(s: &Vec<char>) -> (r: usize)
    ensures
        r == count_of(s@),
{
    let n = s.len();
    let first: usize = if n > 0 && s[0] == '+' {
        1
    } else {
        0
    };
    if first == n {
        return 0;
    }
    let ghost d = unsigned_digits(s@);
    proof {
        assert(d =~= s@.skip(first as int));
    }
    let mut acc: usize = 0;
    let mut i: usize = first;
    while i < n
        invariant
            first <= i <= n == s.len(),
            d == s@.skip(first as int),
            d == unsigned_digits(s@),
            all_digits(d.take(i - first)),
            acc == digits_value(d.take(i - first)),
        decreases n - i,
    {
        let c = s[i];
        let v: u32 = c as u32;
        proof {
            assert(d[i - first] == c);
            assert(d.take(i - first + 1).drop_last() =~= d.take(i - first));
            assert(d.take(i - first + 1).last() == c);
        }
        if v < 0x30 || v > 0x39 {
            return 0;
        }
        let digit: usize = (v - 0x30) as usize;
        if acc > (usize::MAX - digit) / 10 {
            proof {
                lemma_digits_value_grows(d, i - first + 1);
            }
            return 0;
        }
        acc = acc * 10 + digit;
        i += 1;
        proof {
            assert forall|j: int| 0 <= j < d.take(i - first).len() implies is_digit(
                #[trigger] d.take(i - first)[j],
            ) by {
                if j < i - first - 1 {
                    assert(d.take(i - first)[j] == d.take(i - first - 1)[j]);
                }
            }
        }
    }
    proof {
        assert(d.take(i - first) =~= d);
    }
    acc
}

// ---------------------------------------------------------------------------
// Writing
// ---------------------------------------------------------------------------

/// The character of a decimal digit.
pub open spec fn digit_char(d: nat) -> char
    recommends
        d < 10,
{
    (0x30 + d) as u8 as char
}

/// The decimal text of a number, without leading zeros.
pub open spec fn decimal(n: nat) -> Seq<char>
    decreases n,
{
    if n < 10 {
        seq![digit_char(n)]
    } else {
        decimal(n / 10).push(digit_char(n % 10))
    }
}

/// Decimal text is made of digits, and reading it gives the number back.
pub proof fn lemma_decimal_round_trip(n: nat)
    ensures
        decimal(n).len() > 0,
        all_digits(decimal(n)),
        digits_value(decimal(n)) == n,
    decreases n,
{
    if n < 10 {
        let s = decimal(n);
        assert(s.drop_last() =~= Seq::<char>::empty());
        assert(digits_value(s.drop_last()) == 0);
    } else {
        lemma_decimal_round_trip(n / 10);
        let s = decimal(n);
        assert(s.drop_last() =~= decimal(n / 10));
    }
}

/// The decimal text of a number, without leading zeros. Read as a count, it
/// gives the number back.
pub fn to_decimal(n: u32) -> (r: Vec<char>)
    ensures
        r@ == decimal(n as nat),
        all_digits(r@),
        digits_value(r@) == n,
    decreases n,
{
    let out = if n < 10 {
        let c: char = (0x30 + n as u8) as char;
        vec![c]
    } else {
        let mut front = to_decimal(n / 10);
        let c: char = (0x30 + (n % 10) as u8) as char;
        front.push(c);
        front
    };
    proof {
        assert(out@ =~= decimal(n as nat));
        lemma_decimal_round_trip(n as nat);
    }
    out
}

} // verus!
