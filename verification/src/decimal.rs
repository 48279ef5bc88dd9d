//! Decimal rendering and parsing of small integers.
//!
//! Engine jobs carry the resolved optimization level in environment
//! variables, and the caller's optimization override arrives from the
//! environment as text, so the orchestrator needs verified conversions
//! between integers and their decimal strings, in both directions.

use vstd::arithmetic::div_mod::lemma_fundamental_div_mod;
use vstd::prelude::*;

verus! {

/// The character for one decimal digit.
pub open spec fn decimal_digit(d: nat) -> char
    recommends
        d < 10,
{
    if d == 0 {
        '0'
    } else if d == 1 {
        '1'
    } else if d == 2 {
        '2'
    } else if d == 3 {
        '3'
    } else if d == 4 {
        '4'
    } else if d == 5 {
        '5'
    } else if d == 6 {
        '6'
    } else if d == 7 {
        '7'
    } else if d == 8 {
        '8'
    } else {
        '9'
    }
}

/// The usual decimal rendering of `n`: most significant digit first, no
/// leading zeros (and `0` itself rendered as "0").
pub open spec fn decimal_digits(n: nat) -> Seq<char>
    decreases n,
{
    if n < 10 {
        seq![decimal_digit(n)]
    } else {
        decimal_digits(n / 10).push(decimal_digit(n % 10))
    }
}

/// The string for one decimal digit.
fn digit_str(d: u32) -> (s: &'static str)
    requires
        d < 10,
    ensures
        s@ == seq![decimal_digit(d as nat)],
{
    let s: &'static str = if d == 0 {
        "0"
    } else if d == 1 {
        "1"
    } else if d == 2 {
        "2"
    } else if d == 3 {
        "3"
    } else if d == 4 {
        "4"
    } else if d == 5 {
        "5"
    } else if d == 6 {
        "6"
    } else if d == 7 {
        "7"
    } else if d == 8 {
        "8"
    } else {
        "9"
    };
    proof {
        reveal_strlit("0");
        reveal_strlit("1");
        reveal_strlit("2");
        reveal_strlit("3");
        reveal_strlit("4");
        reveal_strlit("5");
        reveal_strlit("6");
        reveal_strlit("7");
        reveal_strlit("8");
        reveal_strlit("9");
        assert(s@ =~= seq![decimal_digit(d as nat)]);
    }
    s
}

/// Whether `c` is one of the ten decimal digits.
pub open spec fn is_decimal_digit(c: char) -> bool {
    c == '0' || c == '1' || c == '2' || c == '3' || c == '4' || c == '5' || c == '6' || c == '7'
        || c == '8' || c == '9'
}

/// The numeric value of a decimal digit (and 0 for any other character).
pub open spec fn digit_value(c: char) -> nat {
    if c == '1' {
        1
    } else if c == '2' {
        2
    } else if c == '3' {
        3
    } else if c == '4' {
        4
    } else if c == '5' {
        5
    } else if c == '6' {
        6
    } else if c == '7' {
        7
    } else if c == '8' {
        8
    } else if c == '9' {
        9
    } else {
        0
    }
}

/// Every character of `s` is a decimal digit.
pub open spec fn all_decimal_digits(s: Seq<char>) -> bool {
    forall|i: int| 0 <= i < s.len() ==> is_decimal_digit(s[i])
}

/// The number a string denotes in decimal, most significant digit first
/// (with non-digits counting as 0; parsing rejects those separately).
pub open spec fn decimal_value(s: Seq<char>) -> nat
    decreases s.len(),
{
    if s.len() == 0 {
        0
    } else {
        decimal_value(s.drop_last()) * 10 + digit_value(s.last())
    }
}

/// A longer digit string never denotes a smaller number: the value of a
/// prefix is at most the value of the whole string.
proof fn lemma_decimal_value_prefix(s: Seq<char>, i: int)
    requires
        0 <= i <= s.len(),
    ensures
        decimal_value(s.take(i)) <= decimal_value(s),
    decreases s.len() - i,
{
    if i == s.len() {
        assert(s.take(i) =~= s);
    } else {
        assert(s.take(i + 1).drop_last() =~= s.take(i));
        assert(s.take(i + 1).last() == s[i]);
        lemma_decimal_value_prefix(s, i + 1);
    }
}

/// Renders `n` in decimal, exactly as [`decimal_digits`] describes.
pub fn decimal_string(n: u32) -> (s: String)
    ensures
        s@ == decimal_digits(n as nat),
    decreases n,
{
    if n < 10 {
        let s = String::from_str(digit_str(n));
        proof {
            assert(s@ =~= decimal_digits(n as nat));
        }
        s
    } else {
        let mut s = decimal_string(n / 10);
        s.append(digit_str(n % 10));
        proof {
            assert(s@ =~= decimal_digits(n as nat));
        }
        s
    }
}

/// The numeric value of one character, or `None` for a non-digit.
fn char_digit(c: char) -> (r: Option<u32>)
    ensures
        match r {
            Some(d) => is_decimal_digit(c) && d < 10 && d as nat == digit_value(c),
            None => !is_decimal_digit(c),
        },
{
    match c {
        '0' => Some(0u32),
        '1' => Some(1u32),
        '2' => Some(2u32),
        '3' => Some(3u32),
        '4' => Some(4u32),
        '5' => Some(5u32),
        '6' => Some(6u32),
        '7' => Some(7u32),
        '8' => Some(8u32),
        '9' => Some(9u32),
        _ => None,
    }
}

/// Parses a decimal string: `Some` exactly when the characters are one or
/// more decimal digits denoting a number that fits, and then exactly the
/// number [`decimal_value`] gives.
pub fn parse_decimal(digits: &Vec<char>) -> (r: Option<u32>)
    ensures
        match r {
            Some(n) => {
                &&& digits@.len() > 0
                &&& all_decimal_digits(digits@)
                &&& n as nat == decimal_value(digits@)
            },
            None => !(digits@.len() > 0 && all_decimal_digits(digits@) && decimal_value(digits@)
                <= u32::MAX),
        },
{
    if digits.len() == 0 {
        return None;
    }
    let mut acc: u32 = 0;
    let mut i: usize = 0;
    while i < digits.len()
        invariant
            i <= digits@.len(),
            all_decimal_digits(digits@.take(i as int)),
            acc as nat == decimal_value(digits@.take(i as int)),
        decreases digits@.len() - i,
    {
        proof {
            assert(digits@.take(i + 1).drop_last() =~= digits@.take(i as int));
            assert(digits@.take(i + 1).last() == digits@[i as int]);
        }
        let d = match char_digit(digits[i]) {
            Some(d) => d,
            None => {
                proof {
                    assert(!is_decimal_digit(digits@[i as int]));
                }
                return None;
            },
        };
        if acc > (u32::MAX - d) / 10 {
            proof {
                assert((acc as nat) * 10 + d as nat > u32::MAX) by (nonlinear_arith)
                    requires
                        acc > (u32::MAX - d) / 10,
                        d < 10,
                ;
                assert(decimal_value(digits@.take(i + 1)) > u32::MAX);
                lemma_decimal_value_prefix(digits@, i + 1);
            }
            return None;
        }
        proof {
            assert((acc as nat) * 10 + d as nat <= u32::MAX) by (nonlinear_arith)
                requires
                    acc <= (u32::MAX - d) / 10,
                    d < 10,
            ;
        }
        acc = acc * 10 + d;
        i = i + 1;
    }
    proof {
        assert(digits@.take(digits@.len() as int) =~= digits@);
    }
    Some(acc)
}

/// The digit character of `d` is a digit and denotes `d` again.
proof fn lemma_digit_value_of_digit(d: nat)
    requires
        d < 10,
    ensures
        is_decimal_digit(decimal_digit(d)),
        digit_value(decimal_digit(d)) == d,
{
}

/// Rendering then parsing is the identity: the decimal string of `n` is all
/// digits, non-empty, and denotes `n` again.
pub proof fn lemma_decimal_round_trip(n: nat)
    ensures
        decimal_digits(n).len() >= 1,
        all_decimal_digits(decimal_digits(n)),
        decimal_value(decimal_digits(n)) == n,
    decreases n,
{
    if n < 10 {
        lemma_digit_value_of_digit(n);
        let rendered = decimal_digits(n);
        assert(rendered.drop_last() =~= Seq::<char>::empty());
        assert(decimal_value(rendered) == decimal_value(rendered.drop_last()) * 10 + digit_value(
            rendered.last(),
        ));
        assert(decimal_value(rendered) == digit_value(decimal_digit(n)));
    } else {
        lemma_digit_value_of_digit(n % 10);
        lemma_decimal_round_trip(n / 10);
        let rendered = decimal_digits(n);
        assert(rendered.drop_last() =~= decimal_digits(n / 10));
        assert(rendered.last() == decimal_digit(n % 10));
        assert(decimal_value(rendered) == decimal_value(rendered.drop_last()) * 10 + digit_value(
            rendered.last(),
        ));
        assert(decimal_value(rendered) == (n / 10) * 10 + n % 10);
        lemma_fundamental_div_mod(n as int, 10);
        assert(forall|i: int|
            0 <= i < rendered.len() - 1 ==> rendered[i] == decimal_digits(n / 10)[i]);
    }
}

} // verus!
