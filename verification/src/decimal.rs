//! Integers written out in base ten, the way an id appears on the wire.

use vstd::prelude::*;
use vstd::string::*;

verus! {

/// The character of one decimal digit.
pub open spec fn digit_char(d: int) -> char {
    if d == 0 {
        '0'
    } else if d == 1 {
        '1'
    } else if d == 2 {
        '2'
    } else if d == 3 {
        '3'
    } else if d == 4 {
        '4'
    } else if d == 5 {
        '5'
    } else if d == 6 {
        '6'
    } else if d == 7 {
        '7'
    } else if d == 8 {
        '8'
    } else {
        '9'
    }
}

/// The digits of a natural number, most significant first, without leading zeros.
pub open spec fn digits(n: nat) -> Seq<char>
    decreases n,
{
    if n < 10 {
        seq![digit_char(n as int)]
    } else {
        digits(n / 10).push(digit_char((n % 10) as int))
    }
}

/// An integer in base ten: a minus sign if it is negative, then its digits.
pub open spec fn decimal(i: int) -> Seq<char> {
    if i < 0 {
        seq!['-'] + digits((-i) as nat)
    } else {
        digits(i as nat)
    }
}

/// Whether a character is one of the ten digits.
pub open spec fn is_digit_char(c: char) -> bool {
    exists|d: int| 0 <= d <= 9 && c == #[trigger] digit_char(d)
}

proof fn lemma_digits_are_digits(n: nat)
    ensures
        digits(n).len() >= 1,
        forall|k: int| 0 <= k < digits(n).len() ==> is_digit_char(#[trigger] digits(n)[k]),
    decreases n,
{
    if n < 10 {
        assert(is_digit_char(digit_char(n as int)));
    } else {
        lemma_digits_are_digits(n / 10);
        assert(is_digit_char(digit_char((n % 10) as int)));
    }
}

proof fn lemma_digits_are_injective(a: nat, b: nat)
    requires
        digits(a) == digits(b),
    ensures
        a == b,
    decreases a,
{
    lemma_digits_are_digits(a / 10);
    lemma_digits_are_digits(b / 10);
    if a < 10 && b < 10 {
        assert(digits(a)[0] == digit_char(a as int));
        assert(digits(b)[0] == digit_char(b as int));
    } else if a >= 10 && b >= 10 {
        let upper_a = digits(a / 10);
        let upper_b = digits(b / 10);
        assert(digits(a) == upper_a.push(digit_char((a % 10) as int)));
        assert(digits(b) == upper_b.push(digit_char((b % 10) as int)));
        assert(digits(a).last() == digit_char((a % 10) as int));
        assert(digits(b).last() == digit_char((b % 10) as int));
        assert(upper_a =~= digits(a).drop_last());
        assert(upper_b =~= digits(b).drop_last());
        lemma_digits_are_injective(a / 10, b / 10);
    } else if a < 10 {
        assert(digits(a).len() == 1);
        assert(digits(b).len() == digits(b / 10).len() + 1);
    } else {
        assert(digits(b).len() == 1);
        assert(digits(a).len() == digits(a / 10).len() + 1);
    }
}

/// A decimal number is never empty, and only its first character can be a
/// minus sign: every other one is a digit.
pub proof fn lemma_decimal_is_plain(i: int)
    ensures
        decimal(i).len() >= 1,
        decimal(i)[0] == '-' || is_digit_char(decimal(i)[0]),
        forall|k: int| 1 <= k < decimal(i).len() ==> is_digit_char(#[trigger] decimal(i)[k]),
{
    if i < 0 {
        let tail = digits((-i) as nat);
        lemma_digits_are_digits((-i) as nat);
        assert forall|k: int| 1 <= k < decimal(i).len() implies is_digit_char(
            #[trigger] decimal(i)[k],
        ) by {
            assert(decimal(i)[k] == tail[k - 1]);
        }
    } else {
        lemma_digits_are_digits(i as nat);
    }
}

/// Two integers that are written alike are the same integer: an id can be
/// told from every other id by its text.
pub proof fn lemma_decimal_is_injective(a: int, b: int)
    requires
        decimal(a) == decimal(b),
    ensures
        a == b,
{
    lemma_decimal_is_plain(a);
    lemma_decimal_is_plain(b);
    if a < 0 && b < 0 {
        let tail_a = digits((-a) as nat);
        let tail_b = digits((-b) as nat);
        assert(tail_a =~= decimal(a).skip(1));
        assert(tail_b =~= decimal(b).skip(1));
        lemma_digits_are_injective((-a) as nat, (-b) as nat);
    } else if a >= 0 && b >= 0 {
        lemma_digits_are_injective(a as nat, b as nat);
    } else if a < 0 {
        lemma_digits_are_digits(b as nat);
        assert(decimal(a)[0] == '-');
        assert(is_digit_char(decimal(b)[0]));
    } else {
        lemma_digits_are_digits(a as nat);
        assert(decimal(b)[0] == '-');
        assert(is_digit_char(decimal(a)[0]));
    }
}

fn digit_text(d: u32) -> (text: &'static str)
    requires
        d <= 9,
    ensures
        text@ == seq![digit_char(d as int)],
{
    proof {
        reveal_strlit("0");
        reveal_strlit("1");
        reveal_strlit("2");
        reveal_strlit("3");
        reveal_strlit("4");
        reveal_strlit("5");
        reveal_strlit("6");
        reveal_strlit("7");
        reveal_strlit("8");
        reveal_strlit("9");
    }
    let text = if d == 0 {
        "0"
    } else if d == 1 {
        "1"
    } else if d == 2 {
        "2"
    } else if d == 3 {
        "3"
    } else if d == 4 {
        "4"
    } else if d == 5 {
        "5"
    } else if d == 6 {
        "6"
    } else if d == 7 {
        "7"
    } else if d == 8 {
        "8"
    } else {
        "9"
    };
    assert(text@ =~= seq![digit_char(d as int)]);
    text
}

fn append_digits(text: &mut String, n: u32)
    ensures
        final(text)@ == old(text)@ + digits(n as nat),
    decreases n,
{
    if n >= 10 {
        append_digits(text, n / 10);
    }
    text.append(digit_text(n % 10));
    assert(text@ =~= old(text)@ + digits(n as nat));
}

/// Writes an id in base ten.
pub fn decimal_text(i: i32) -> (text: String)
    ensures
        text@ == decimal(i as int),
{
    let mut text = String::new();
    if i < 0 {
        let wide: i64 = i as i64;
        let magnitude: u32 = (0 - wide) as u32;
        text.append("-");
        proof {
            reveal_strlit("-");
        }
        append_digits(&mut text, magnitude);
        assert(text@ =~= decimal(i as int));
    } else {
        append_digits(&mut text, i as u32);
        assert(text@ =~= decimal(i as int));
    }
    text
}

} // verus!
