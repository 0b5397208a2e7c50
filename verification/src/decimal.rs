//! Whole numbers written in decimal.

use vstd::prelude::*;
use vstd::string::StringExecFns;

verus! {

/// The character that stands for a single decimal digit.
pub open spec fn digit_char(digit: nat) -> char
    recommends
        digit < 10,
{
    if digit == 0 {
        '0'
    } else if digit == 1 {
        '1'
    } else if digit == 2 {
        '2'
    } else if digit == 3 {
        '3'
    } else if digit == 4 {
        '4'
    } else if digit == 5 {
        '5'
    } else if digit == 6 {
        '6'
    } else if digit == 7 {
        '7'
    } else if digit == 8 {
        '8'
    } else {
        '9'
    }
}

/// The digit that a character stands for; 0 for any other character.
pub open spec fn digit_value(c: char) -> nat {
    if c == '1' {
        1
    } else if c == '2' {
        2
    } else if c == '3' {
        3
    } else if c == '4' {
        4
    } else if c == '5' {
        5
    } else if c == '6' {
        6
    } else if c == '7' {
        7
    } else if c == '8' {
        8
    } else if c == '9' {
        9
    } else {
        0
    }
}

/// Whether a character is one of the ten decimal digits.
pub open spec fn is_digit(c: char) -> bool {
    c == '0' || digit_value(c) != 0
}

/// The digits of `n`, most significant first, without a leading zero; zero
/// has no digits at all.
pub open spec fn digits(n: nat) -> Seq<char>
    decreases n,
{
    if n == 0 {
        Seq::empty()
    } else {
        digits(n / 10).push(digit_char(n % 10))
    }
}

/// `n` as it is written in decimal: its digits, and `0` for zero.
pub open spec fn decimal(n: nat) -> Seq<char> {
    if n == 0 {
        seq!['0']
    } else {
        digits(n)
    }
}

/// The number that a sequence of digits denotes.
pub open spec fn decimal_value(text: Seq<char>) -> nat
    decreases text.len(),
{
    if text.len() == 0 {
        0
    } else {
        10 * decimal_value(text.drop_last()) + digit_value(text.last())
    }
}

/// The digits of a number denote that number, each of them is a decimal
/// digit, and the first one is not a zero.
pub proof fn lemma_digits_denote(n: nat)
    ensures
        decimal_value(digits(n)) == n,
        forall|i: int| 0 <= i < digits(n).len() ==> is_digit(#[trigger] digits(n)[i]),
        n > 0 ==> digits(n).len() > 0 && digits(n)[0] != '0',
    decreases n,
{
    if n > 0 {
        let head: Seq<char> = digits(n / 10);
        let tail: char = digit_char(n % 10);
        lemma_digits_denote(n / 10);
        assert(digits(n).drop_last() =~= head);
        assert(digits(n).last() == tail);
        assert(digit_value(tail) == n % 10);
        assert forall|i: int| 0 <= i < digits(n).len() implies is_digit(#[trigger] digits(n)[i]) by {
            if i < head.len() {
                assert(digits(n)[i] == head[i]);
            }
        }
        if n / 10 > 0 {
            assert(digits(n)[0] == head[0]);
        }
    }
}

/// Reading back what `decimal` wrote gives the number again, and the text
/// has a leading zero only where it is the single digit `0`.
pub proof fn lemma_decimal_round_trip(n: nat)
    ensures
        decimal_value(decimal(n)) == n,
        decimal(n).len() >= 1,
        forall|i: int| 0 <= i < decimal(n).len() ==> is_digit(#[trigger] decimal(n)[i]),
        decimal(n)[0] == '0' <==> n == 0,
{
    lemma_digits_denote(n);
    if n == 0 {
        assert(decimal(n).drop_last() =~= Seq::<char>::empty());
        assert(decimal_value(decimal(n).drop_last()) == 0);
    }
}

/// Two numbers are written alike only if they are the same number.
pub proof fn lemma_decimal_is_injective(a: nat, b: nat)
    requires
        decimal(a) == decimal(b),
    ensures
        a == b,
{
    lemma_decimal_round_trip(a);
    lemma_decimal_round_trip(b);
}

/// The one-character text of a single digit.
fn digit_text(digit: u8) -> (text: &'static str)
    requires
        digit < 10,
    ensures
        text@ == seq![digit_char(digit as nat)],
{
    proof {
        reveal_strlit("0");
        reveal_strlit("1");
        reveal_strlit("2");
        reveal_strlit("3");
        reveal_strlit("4");
        reveal_strlit("5");
        reveal_strlit("6");
        reveal_strlit("7");
        reveal_strlit("8");
        reveal_strlit("9");
    }
    match digit {
        0 => "0",
        1 => "1",
        2 => "2",
        3 => "3",
        4 => "4",
        5 => "5",
        6 => "6",
        7 => "7",
        8 => "8",
        _ => "9",
    }
}

/// Appends the digits of `n` to `out`; nothing for zero.
pub fn push_digits(out: &mut String, n: u128)
    ensures
        final(out)@ == old(out)@ + digits(n as nat),
    decreases n,
{
    if n > 0 {
        push_digits(out, n / 10);
        let last: u8 = (n % 10) as u8;
        out.append(digit_text(last));
        assert(out@ =~= old(out)@ + digits(n as nat));
    }
}

/// Writes `n` in decimal.
pub fn decimal_string(n: u128) -> (text: String)
    ensures
        text@ == decimal(n as nat),
{
    let mut text: String = String::new();
    if n == 0 {
        text.append(digit_text(0));
    } else {
        push_digits(&mut text, n);
    }
    text
}

} // verus!
