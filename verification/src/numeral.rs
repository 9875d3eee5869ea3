//! Reading decimal numerals: the value of a run of digits, and of an integer
//! written with an optional minus sign.

use crate::text::{decimal, digit_text, signed_decimal};
use vstd::prelude::*;

verus! {

/// The value of a decimal digit; nothing for any other character.
pub open spec fn digit_value(c: char) -> Option<nat> {
    if c == '0' {
        Some(0)
    } else if c == '1' {
        Some(1)
    } else if c == '2' {
        Some(2)
    } else if c == '3' {
        Some(3)
    } else if c == '4' {
        Some(4)
    } else if c == '5' {
        Some(5)
    } else if c == '6' {
        Some(6)
    } else if c == '7' {
        Some(7)
    } else if c == '8' {
        Some(8)
    } else if c == '9' {
        Some(9)
    } else {
        None
    }
}

/// The number that the first `n` characters of `s` denote, where all of
/// them are digits.
pub open spec fn digits_value(s: Seq<char>, n: int) -> Option<nat>
    decreases n,
{
    if n <= 0 || n > s.len() {
        Some(0)
    } else {
        match (digits_value(s, n - 1), digit_value(s[n - 1])) {
            (Some(v), Some(d)) => Some(v * 10 + d),
            _ => None,
        }
    }
}

/// The number that `s` denotes, where it is one or more digits.
pub open spec fn natural_value(s: Seq<char>) -> Option<nat> {
    if s.len() == 0 {
        None
    } else {
        digits_value(s, s.len() as int)
    }
}

/// The integer that `s` denotes, where it is one or more digits with or
/// without a minus sign before them.
pub open spec fn integer_value(s: Seq<char>) -> Option<int> {
    if s.len() > 0 && s[0] == '-' {
        match natural_value(s.skip(1)) {
            Some(v) => Some(-(v as int)),
            None => None,
        }
    } else {
        match natural_value(s) {
            Some(v) => Some(v as int),
            None => None,
        }
    }
}

/// The value of the digit `c`.
pub fn digit_of(c: char) -> (r: Option<u8>)
    ensures
        match r {
            Some(d) => digit_value(c) == Some(d as nat) && d < 10,
            None => digit_value(c) is None,
        },
{
    if c == '0' {
        Some(0)
    } else if c == '1' {
        Some(1)
    } else if c == '2' {
        Some(2)
    } else if c == '3' {
        Some(3)
    } else if c == '4' {
        Some(4)
    } else if c == '5' {
        Some(5)
    } else if c == '6' {
        Some(6)
    } else if c == '7' {
        Some(7)
    } else if c == '8' {
        Some(8)
    } else if c == '9' {
        Some(9)
    } else {
        None
    }
}

/// A character that is no digit among the first `n` leaves no value to any
/// longer run.
pub proof fn digits_none_stays(s: Seq<char>, n: int, m: int)
    requires
        0 <= n <= m <= s.len(),
        digits_value(s, n) is None,
    ensures
        digits_value(s, m) is None,
    decreases m - n,
{
    if n < m {
        digits_none_stays(s, n, m - 1);
    }
}

/// A longer run of digits denotes no smaller number.
pub proof fn digits_value_grows(s: Seq<char>, n: int, m: int)
    requires
        0 <= n <= m <= s.len(),
        digits_value(s, m) is Some,
    ensures
        digits_value(s, n) is Some,
        digits_value(s, n)->Some_0 <= digits_value(s, m)->Some_0,
    decreases m - n,
{
    if n < m {
        digits_value_grows(s, n, m - 1);
    }
}

/// The number that the digits of `s` from `from` on denote, where it does
/// not exceed `limit`.
fn parse_digits(s: &str, from: usize, limit: u64) -> (r: Option<u64>)
    requires
        from <= s@.len(),
        limit >= 9,
    ensures
        match r {
            Some(v) => natural_value(s@.skip(from as int)) == Some(v as nat) && v <= limit,
            None => match natural_value(s@.skip(from as int)) {
                Some(v) => v > limit,
                None => true,
            },
        },
{
    let len = s.unicode_len();
    if from >= len {
        return None;
    }
    let ghost body = s@.skip(from as int);
    let mut acc: u64 = 0;
    let mut i: usize = from;
    while i < len
        invariant
            from <= i <= len,
            len == s@.len(),
            body == s@.skip(from as int),
            digits_value(body, i - from) == Some(acc as nat),
            acc <= limit,
            limit >= 9,
        decreases len - i,
    {
        let c = s.get_char(i);
        proof {
            assert(body[i - from] == s@[i as int]);
        }
        match digit_of(c) {
            Some(d) => {
                let ghost next = acc as nat * 10 + d as nat;
                proof {
                    assert(digits_value(body, i - from + 1) == Some(next));
                }
                if acc > (limit - d as u64) / 10 {
                    proof {
                        assert(next > limit) by (nonlinear_arith)
                            requires
                                acc > (limit - d) / 10,
                                d < 10,
                                d <= limit,
                                next == acc * 10 + d,
                        ;
                        if digits_value(body, body.len() as int) is Some {
                            digits_value_grows(body, i - from + 1, body.len() as int);
                        }
                    }
                    return None;
                }
                acc = acc * 10 + d as u64;
                proof {
                    assert(acc <= limit) by (nonlinear_arith)
                        requires
                            (acc - d) / 10 <= (limit - d) / 10,
                            (acc - d) % 10 == 0,
                            d < 10,
                            d <= limit,
                            d <= acc,
                    ;
                }
            },
            None => {
                proof {
                    assert(digits_value(body, i - from + 1) is None);
                    digits_none_stays(body, i - from + 1, body.len() as int);
                }
                return None;
            },
        }
        i += 1;
    }
    Some(acc)
}

/// The number that `s` denotes as an unsigned number is read: one or more
/// digits, with or without a plus sign before them.
pub open spec fn unsigned_value(s: Seq<char>) -> Option<nat> {
    if s.len() > 0 && s[0] == '+' {
        natural_value(s.skip(1))
    } else {
        natural_value(s)
    }
}

/// The number that `s` denotes, where it fits in a `usize`.
pub fn parse_usize(s: &str) -> (r: Option<usize>)
    ensures
        match r {
            Some(v) => unsigned_value(s@) == Some(v as nat),
            None => match unsigned_value(s@) {
                Some(v) => v > usize::MAX,
                None => true,
            },
        },
{
    let len = s.unicode_len();
    let from: usize = if len > 0 && s.get_char(0) == '+' {
        1
    } else {
        0
    };
    proof {
        assert(s@.skip(0) =~= s@);
    }
    match parse_digits(s, from, usize::MAX as u64) {
        Some(v) => Some(v as usize),
        None => None,
    }
}

/// The integer that `s` denotes, where it fits in 64 bits.
pub fn parse_i64(s: &str) -> (r: Option<i64>)
    ensures
        match r {
            Some(v) => integer_value(s@) == Some(v as int),
            None => match integer_value(s@) {
                Some(v) => v < i64::MIN || v > i64::MAX,
                None => true,
            },
        },
{
    let len = s.unicode_len();
    if len > 0 && s.get_char(0) == '-' {
        match parse_digits(s, 1, 9223372036854775808u64) {
            Some(v) => {
                if v == 9223372036854775808u64 {
                    Some(i64::MIN)
                } else {
                    Some(-(v as i64))
                }
            },
            None => None,
        }
    } else {
        proof {
            assert(s@.skip(0) =~= s@);
        }
        match parse_digits(s, 0, 9223372036854775807u64) {
            Some(v) => Some(v as i64),
            None => None,
        }
    }
}

/// The text of a digit is that one digit.
pub proof fn digit_text_value(d: nat)
    requires
        d < 10,
    ensures
        digit_text(d).len() == 1,
        digit_value(digit_text(d)[0]) == Some(d),
        digit_text(d)[0] != '-',
{
    reveal_strlit("0");
    reveal_strlit("1");
    reveal_strlit("2");
    reveal_strlit("3");
    reveal_strlit("4");
    reveal_strlit("5");
    reveal_strlit("6");
    reveal_strlit("7");
    reveal_strlit("8");
    reveal_strlit("9");
}

/// What follows a run of digits does not change what the run denotes.
pub proof fn digits_value_of_prefix(a: Seq<char>, b: Seq<char>, n: int)
    requires
        0 <= n <= a.len(),
    ensures
        digits_value(a + b, n) == digits_value(a, n),
    decreases n,
{
    if n > 0 {
        digits_value_of_prefix(a, b, n - 1);
        assert((a + b)[n - 1] == a[n - 1]);
    }
}

/// The decimal numeral of a number denotes that number, and begins with a
/// digit.
pub proof fn decimal_denotes(n: nat)
    ensures
        decimal(n).len() >= 1,
        natural_value(decimal(n)) == Some(n),
        decimal(n)[0] != '-',
    decreases n,
{
    if n < 10 {
        digit_text_value(n);
        let s = decimal(n);
        assert(digits_value(s, 0) == Some(0nat));
        assert(digits_value(s, 1) == Some(n));
    } else {
        let a = decimal(n / 10);
        let b = digit_text(n % 10);
        decimal_denotes(n / 10);
        digit_text_value(n % 10);
        let s = a + b;
        assert(s == decimal(n));
        assert(s.len() == a.len() + 1);
        digits_value_of_prefix(a, b, a.len() as int);
        assert(s[a.len() as int] == b[0]);
        assert(s[0] == a[0]);
        assert(digits_value(s, s.len() as int) == Some((n / 10) * 10 + n % 10));
    }
}

/// The numeral of an integer denotes that integer.
pub proof fn signed_decimal_denotes(n: int)
    ensures
        integer_value(signed_decimal(n)) == Some(n),
{
    if n < 0 {
        reveal_strlit("-");
        let body = decimal((-n) as nat);
        decimal_denotes((-n) as nat);
        let s = "-"@ + body;
        assert(s[0] == '-');
        assert(s.skip(1) =~= body);
    } else {
        decimal_denotes(n as nat);
    }
}

} // verus!
