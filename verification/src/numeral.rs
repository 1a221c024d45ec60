//! Decimal numerals: the spec-level decimal text of an integer, verified
//! formatting into a `String`, and the law that distinct integers have
//! distinct numerals.

use vstd::prelude::*;

verus! {

/// The digit character for a value below ten.
pub open spec fn dec_digit_char(d: int) -> char {
    if d == 0 {
        '0'
    } else if d == 1 {
        '1'
    } else if d == 2 {
        '2'
    } else if d == 3 {
        '3'
    } else if d == 4 {
        '4'
    } else if d == 5 {
        '5'
    } else if d == 6 {
        '6'
    } else if d == 7 {
        '7'
    } else if d == 8 {
        '8'
    } else {
        '9'
    }
}

/// The decimal digits of a natural number, most significant first, with no
/// leading zero except for the number zero itself.
pub open spec fn dec_digits(n: nat) -> Seq<char>
    decreases n,
{
    if n < 10 {
        seq![dec_digit_char(n as int)]
    } else {
        dec_digits(n / 10).push(dec_digit_char((n % 10) as int))
    }
}

/// The decimal text of an integer: the digits of its magnitude, preceded by
/// a minus sign where it is negative.
pub open spec fn dec_int(n: int) -> Seq<char> {
    if n < 0 {
        seq!['-'] + dec_digits((-n) as nat)
    } else {
        dec_digits(n as nat)
    }
}

/// The single-character string for a digit value.
fn digit_str(d: u8) -> (r: &'static str)
    requires
        d < 10,
    ensures
        r@ =~= seq![dec_digit_char(d as int)],
{
    if d == 0 {
        proof {
            reveal_strlit("0");
        }
        "0"
    } else if d == 1 {
        proof {
            reveal_strlit("1");
        }
        "1"
    } else if d == 2 {
        proof {
            reveal_strlit("2");
        }
        "2"
    } else if d == 3 {
        proof {
            reveal_strlit("3");
        }
        "3"
    } else if d == 4 {
        proof {
            reveal_strlit("4");
        }
        "4"
    } else if d == 5 {
        proof {
            reveal_strlit("5");
        }
        "5"
    } else if d == 6 {
        proof {
            reveal_strlit("6");
        }
        "6"
    } else if d == 7 {
        proof {
            reveal_strlit("7");
        }
        "7"
    } else if d == 8 {
        proof {
            reveal_strlit("8");
        }
        "8"
    } else {
        proof {
            reveal_strlit("9");
        }
        "9"
    }
}

/// Formats a natural number as its decimal numeral.
pub fn u128_to_decimal(n: u128) -> (s: String)
    ensures
        s@ == dec_digits(n as nat),
    decreases n,
{
    let d: u8 = (n % 10) as u8;
    if n < 10 {
        String::from_str(digit_str(d))
    } else {
        let mut s = u128_to_decimal(n / 10);
        s.append(digit_str(d));
        proof {
            assert(s@ =~= dec_digits((n / 10) as nat).push(dec_digit_char((n % 10) as int)));
        }
        s
    }
}

/// Formats an integer as its decimal numeral, sign included.
pub fn i128_to_decimal(n: i128) -> (s: String)
    requires
        n > i128::MIN,
    ensures
        s@ == dec_int(n as int),
{
    if n < 0 {
        let mut s = String::from_str("-");
        proof {
            reveal_strlit("-");
        }
        let mag = u128_to_decimal((-n) as u128);
        s.append(mag.as_str());
        proof {
            assert(s@ =~= seq!['-'] + dec_digits((-n) as nat));
        }
        s
    } else {
        u128_to_decimal(n as u128)
    }
}

/// The numeric value a digit sequence denotes, most significant first.
pub open spec fn dec_value(s: Seq<char>) -> int
    decreases s.len(),
{
    if s.len() == 0 {
        0
    } else {
        dec_value(s.drop_last()) * 10 + dec_digit_value(s.last())
    }
}

/// The value of a digit character; characters that are no digit count as
/// zero, which the digit-only sequences of `dec_digits` never contain.
pub open spec fn dec_digit_value(c: char) -> int {
    if c == '0' {
        0
    } else if c == '1' {
        1
    } else if c == '2' {
        2
    } else if c == '3' {
        3
    } else if c == '4' {
        4
    } else if c == '5' {
        5
    } else if c == '6' {
        6
    } else if c == '7' {
        7
    } else if c == '8' {
        8
    } else if c == '9' {
        9
    } else {
        0
    }
}

/// Reading the digits of a number back yields the number: decimal
/// formatting loses nothing.
pub proof fn lemma_dec_digits_value(n: nat)
    ensures
        dec_value(dec_digits(n)) == n,
    decreases n,
{
    assert(dec_value(Seq::<char>::empty()) == 0);
    if n < 10 {
        assert(dec_digits(n) =~= seq![dec_digit_char(n as int)]);
        assert(dec_digits(n).drop_last() =~= Seq::<char>::empty());
        assert(dec_value(dec_digits(n)) == dec_digit_value(dec_digit_char(n as int)));
        assert(dec_digit_value(dec_digit_char(n as int)) == n);
    } else {
        lemma_dec_digits_value(n / 10);
        assert(dec_digits(n).drop_last() =~= dec_digits(n / 10));
        assert(dec_digits(n).last() == dec_digit_char((n % 10) as int));
        assert(dec_digit_value(dec_digit_char((n % 10) as int)) == n % 10);
        assert(dec_value(dec_digits(n)) == dec_value(dec_digits(n / 10)) * 10 + (n % 10));
    }
}

/// Every character of a decimal numeral's magnitude is a digit; in
/// particular the first one is never a minus sign.
pub proof fn lemma_dec_digits_are_digits(n: nat)
    ensures
        dec_digits(n).len() >= 1,
        forall|i: int|
            0 <= i < dec_digits(n).len() ==> is_dec_digit(#[trigger] dec_digits(n)[i]),
    decreases n,
{
    if n >= 10 {
        lemma_dec_digits_are_digits(n / 10);
    }
}

/// Whether a character is one of the ten decimal digits.
pub open spec fn is_dec_digit(c: char) -> bool {
    c == '0' || c == '1' || c == '2' || c == '3' || c == '4' || c == '5' || c == '6' || c == '7'
        || c == '8' || c == '9'
}

/// Law: decimal formatting is injective — distinct integers never share a
/// numeral.
pub proof fn lemma_dec_int_injective(a: int, b: int)
    requires
        a != b,
    ensures
        dec_int(a) != dec_int(b),
{
    lemma_dec_digits_are_digits(abs_nat(a));
    lemma_dec_digits_are_digits(abs_nat(b));
    lemma_dec_digits_value(abs_nat(a));
    lemma_dec_digits_value(abs_nat(b));
    if a < 0 && b < 0 {
        if dec_int(a) == dec_int(b) {
            assert((seq!['-'] + dec_digits(abs_nat(a))).skip(1) =~= dec_digits(abs_nat(a)));
            assert((seq!['-'] + dec_digits(abs_nat(b))).skip(1) =~= dec_digits(abs_nat(b)));
            assert(dec_digits(abs_nat(a)) == dec_digits(abs_nat(b)));
            assert(false);
        }
    } else if a >= 0 && b >= 0 {
        if dec_int(a) == dec_int(b) {
            assert(false);
        }
    } else {
        let neg = if a < 0 {
            a
        } else {
            b
        };
        let pos = if a < 0 {
            b
        } else {
            a
        };
        if dec_int(a) == dec_int(b) {
            assert(dec_int(neg)[0] == '-');
            assert(is_dec_digit(dec_int(pos)[0]));
            assert(false);
        }
    }
}

/// The magnitude of an integer, as a natural number.
pub open spec fn abs_nat(n: int) -> nat {
    if n < 0 {
        (-n) as nat
    } else {
        n as nat
    }
}

} // verus!
