//! Numbers read from text.

use vstd::prelude::*;

use crate::digits::{are_digits, lemma_value_nonnegative, lemma_value_push, value_of};
use crate::text::chars_of;

verus! {

/// The value of a digit in a base of at most sixteen.
pub open spec fn digit_value(c: char, base: int) -> Option<int> {
    let value = if '0' <= c && c <= '9' {
        c as int - '0' as int
    } else if 'a' <= c && c <= 'f' {
        c as int - 'a' as int + 10
    } else if 'A' <= c && c <= 'F' {
        c as int - 'A' as int + 10
    } else {
        base
    };
    if value < base {
        Some(value)
    } else {
        None
    }
}

/// The values of the digits of a text.
pub open spec fn digit_values(text: Seq<char>, base: int) -> Seq<int> {
    Seq::new(
        text.len(),
        |i: int|
            match digit_value(text[i], base) {
                Some(d) => d,
                None => 0,
            },
    )
}

/// The text without a plus sign before it.
pub open spec fn unsigned(text: Seq<char>) -> Seq<char> {
    if text.len() > 0 && text[0] == '+' {
        text.skip(1)
    } else {
        text
    }
}

/// Each character is a digit.
pub open spec fn all_digits(text: Seq<char>, base: int) -> bool {
    forall|i: int| 0 <= i < text.len() ==> digit_value(#[trigger] text[i], base) is Some
}

/// The number that a text writes in a base, when it writes one of at most `max`. One plus sign
/// may stand before the digits.
pub open spec fn parsed(text: Seq<char>, base: int, max: int) -> Option<int> {
    let body = unsigned(text);
    if body.len() > 0 && all_digits(body, base) && value_of(digit_values(body, base), base) <= max {
        Some(value_of(digit_values(body, base), base))
    } else {
        None
    }
}

/// The value of a digit.
fn digit_of(c: char, base: u64) -> (d: Option<u64>)
    requires
        2 <= base <= 16,
    ensures
        match d {
            Some(v) => digit_value(c, base as int) == Some(v as int) && v < base,
            None => digit_value(c, base as int) is None,
        },
{
    let value: u64 = if '0' <= c && c <= '9' {
        (c as u64) - 48
    } else if 'a' <= c && c <= 'f' {
        (c as u64) - 87
    } else if 'A' <= c && c <= 'F' {
        (c as u64) - 55
    } else {
        base
    };
    if value < base {
        Some(value)
    } else {
        None
    }
}

/// Reads a number of at most `max`.
pub fn parse_number(text: &str, base: u64, max: u64) -> (r: Option<u64>)
    requires
        2 <= base <= 16,
    ensures
        match r {
            Some(v) => parsed(text@, base as int, max as int) == Some(v as int),
            None => parsed(text@, base as int, max as int) is None,
        },
{
    let chars = chars_of(text);
    let first: usize = if chars.len() > 0 && chars[0] == '+' {
        1
    } else {
        0
    };
    let ghost body = unsigned(text@);
    let ghost b = base as int;
    assert(body =~= chars@.skip(first as int));
    if first == chars.len() {
        return None;
    }
    let mut value: u64 = 0;
    let mut i: usize = first;
    assert(digit_values(body, b).take(0) =~= Seq::<int>::empty());
    while i < chars.len()
        invariant
            2 <= base <= 16,
            b == base,
            first <= i <= chars@.len(),
            first <= chars@.len(),
            body == unsigned(text@),
            body == chars@.skip(first as int),
            value <= max,
            forall|j: int| 0 <= j < i - first ==> digit_value(#[trigger] body[j], b) is Some,
            value == value_of(digit_values(body, b).take(i - first), b),
        decreases chars.len() - i,
    {
        let ghost all = digit_values(body, b);
        proof {
            assert(body[i - first] == chars@[i as int]);
            assert(all.take(i - first + 1) =~= all.take(i - first).push(all[i - first]));
            lemma_value_push(all.take(i - first), all[i - first], b);
        }
        match digit_of(chars[i], base) {
            None => {
                assert(digit_value(body[i - first], b) is None);
                return None;
            },
            Some(d) => {
                if d > max || value > (max - d) / base {
                    proof {
                        assert(value * base + d > max) by {
                            if d <= max {
                                let m = (max - d) as int;
                                assert(value * b > m) by (nonlinear_arith)
                                    requires
                                        value > m / b,
                                        b > 0,
                                        m >= 0,
                                ;
                            } else {
                                assert(value * base >= 0) by (nonlinear_arith);
                            }
                        }
                        lemma_prefix_value(body, b, i - first + 1);
                    }
                    return None;
                }
                assert(value * base + d <= max) by {
                    let m = (max - d) as int;
                    assert(value * b <= m) by (nonlinear_arith)
                        requires
                            value <= m / b,
                            b > 0,
                            m >= 0,
                    ;
                }
                value = value * base + d;
            },
        }
        i += 1;
    }
    assert(digit_values(body, b).take(body.len() as int) =~= digit_values(body, b));
    Some(value)
}

/// More digits never write a smaller number.
proof fn lemma_prefix_value(body: Seq<char>, base: int, n: int)
    requires
        2 <= base,
        0 <= n <= body.len(),
    ensures
        value_of(digit_values(body, base).take(n), base) <= value_of(
            digit_values(body, base),
            base,
        ),
    decreases body.len() - n,
{
    let all = digit_values(body, base);
    if n < body.len() {
        assert(all.take(n + 1) =~= all.take(n).push(all[n]));
        lemma_value_push(all.take(n), all[n], base);
        assert(are_digits(all.take(n), base));
        lemma_value_nonnegative(all.take(n), base);
        lemma_prefix_value(body, base, n + 1);
        let v = value_of(all.take(n), base);
        assert(v * base >= v) by (nonlinear_arith)
            requires
                v >= 0,
                base >= 2,
        ;
    } else {
        assert(all.take(n) =~= all);
    }
}

/// The character of a decimal digit.
pub open spec fn decimal_char(d: int) -> char {
    (48 + d) as char
}

/// A number in decimal digits, without leading zeros.
pub open spec fn decimal(n: nat) -> Seq<char>
    decreases n,
{
    if n < 10 {
        seq![decimal_char(n as int)]
    } else {
        decimal(n / 10).push(decimal_char((n % 10) as int))
    }
}

/// A number in decimal digits.
pub fn show(n: u64) -> (text: String)
    ensures
        text@ == decimal(n as nat),
    decreases n,
{
    let last: u8 = (n % 10) as u8;
    let digit: char = (48u8 + last) as char;
    let mut text: String = if n < 10 {
        String::new()
    } else {
        show(n / 10)
    };
    text.push(digit);
    assert(digit == decimal_char((n % 10) as int));
    assert(text@ =~= decimal(n as nat));
    text
}

} // verus!
