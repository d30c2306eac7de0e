//! Numbers as text, for messages and dumps.

use vstd::prelude::*;
use vstd::string::StringExecFns;

verus! {

/// What `str::to_lowercase` makes of a text: its lower-case form by the
/// rules of Unicode.
pub uninterp spec fn lowercase_text(text: Seq<char>) -> Seq<char>;

/// `str::to_lowercase`: the lower-case form of `text`.
#[verifier::external_body]
pub(crate) fn lowercase(text: &str) -> (lowered: String)
    ensures
        lowered@ == lowercase_text(text@),
{
    text.to_lowercase()
}

/// Whether `text` reads `word`.
pub fn reads(text: &str, word: &str) -> (same: bool)
    ensures
        same == (text@ == word@),
{
    String::from_str(text) == String::from_str(word)
}

/// The character of a digit below 16, lower case.
pub open spec fn digit_char(digit: int) -> char {
    if digit == 0 {
        '0'
    } else if digit == 1 {
        '1'
    } else if digit == 2 {
        '2'
    } else if digit == 3 {
        '3'
    } else if digit == 4 {
        '4'
    } else if digit == 5 {
        '5'
    } else if digit == 6 {
        '6'
    } else if digit == 7 {
        '7'
    } else if digit == 8 {
        '8'
    } else if digit == 9 {
        '9'
    } else if digit == 10 {
        'a'
    } else if digit == 11 {
        'b'
    } else if digit == 12 {
        'c'
    } else if digit == 13 {
        'd'
    } else if digit == 14 {
        'e'
    } else {
        'f'
    }
}

/// The digits of `n` to the base `base`, most significant first, without
/// leading zeros; zero is the one digit 0.
pub open spec fn digits(n: nat, base: nat) -> Seq<char>
    recommends
        2 <= base <= 16,
    decreases n,
{
    if n < base || base < 2 {
        seq![digit_char(n as int)]
    } else {
        proof {
            assert(n / base < n) by (nonlinear_arith)
                requires
                    n >= base,
                    base >= 2,
            ;
        }
        digits(n / base, base).push(digit_char((n % base) as int))
    }
}

/// `n` in decimal.
pub open spec fn decimal_text(n: nat) -> Seq<char> {
    digits(n, 10)
}

/// `n` in lower-case hexadecimal behind the prefix `0x`, with at least two
/// digits.
pub open spec fn hex_text(n: nat) -> Seq<char> {
    if n < 16 {
        seq!['0', 'x', '0', digit_char(n as int)]
    } else {
        seq!['0', 'x'] + digits(n, 16)
    }
}

/// The text of one digit.
fn digit_str(digit: u8) -> (text: &'static str)
    requires
        digit < 16,
    ensures
        text@ == seq![digit_char(digit as int)],
{
    proof {
        reveal_strlit("0");
        reveal_strlit("1");
        reveal_strlit("2");
        reveal_strlit("3");
        reveal_strlit("4");
        reveal_strlit("5");
        reveal_strlit("6");
        reveal_strlit("7");
        reveal_strlit("8");
        reveal_strlit("9");
        reveal_strlit("a");
        reveal_strlit("b");
        reveal_strlit("c");
        reveal_strlit("d");
        reveal_strlit("e");
        reveal_strlit("f");
    }
    let text = match digit {
        0 => "0",
        1 => "1",
        2 => "2",
        3 => "3",
        4 => "4",
        5 => "5",
        6 => "6",
        7 => "7",
        8 => "8",
        9 => "9",
        10 => "a",
        11 => "b",
        12 => "c",
        13 => "d",
        14 => "e",
        _ => "f",
    };
    assert(text@ =~= seq![digit_char(digit as int)]);
    text
}

/// Appends the digits of `n` to the base `base` to `text`.
pub fn push_digits(text: &mut String, n: u64, base: u64)
    requires
        2 <= base <= 16,
    ensures
        final(text)@ == old(text)@ + digits(n as nat, base as nat),
{
    let mut least_first: Vec<u8> = Vec::new();
    let mut rest = n;
    let ghost mut tail: Seq<char> = Seq::empty();
    while rest >= base
        invariant
            2 <= base <= 16,
            digits(n as nat, base as nat) == digits(rest as nat, base as nat) + tail,
            tail.len() == least_first@.len(),
            forall|k: int|
                0 <= k < tail.len() ==> #[trigger] tail[k] == digit_char(
                    least_first@[tail.len() - 1 - k] as int,
                ),
            forall|k: int| 0 <= k < least_first@.len() ==> #[trigger] least_first@[k] < 16,
        decreases rest,
    {
        let digit = (rest % base) as u8;
        least_first.push(digit);
        proof {
            let before = tail;
            tail = seq![digit_char(digit as int)] + tail;
            assert(digits(rest as nat, base as nat) == digits((rest / base) as nat, base as nat).push(
                digit_char(digit as int),
            ));
            assert(digits(n as nat, base as nat) =~= digits((rest / base) as nat, base as nat)
                + tail);
            assert forall|k: int| 0 <= k < tail.len() implies #[trigger] tail[k] == digit_char(
                least_first@[tail.len() - 1 - k] as int,
            ) by {
                if k > 0 {
                    assert(tail[k] == before[k - 1]);
                }
            }
        }
        rest = rest / base;
    }
    least_first.push(rest as u8);
    proof {
        let before = tail;
        tail = seq![digit_char(rest as int)] + tail;
        assert(digits(n as nat, base as nat) =~= tail);
        assert forall|k: int| 0 <= k < tail.len() implies #[trigger] tail[k] == digit_char(
            least_first@[tail.len() - 1 - k] as int,
        ) by {
            if k > 0 {
                assert(tail[k] == before[k - 1]);
            }
        }
    }
    let mut left = least_first.len();
    while left > 0
        invariant
            left <= least_first@.len(),
            tail.len() == least_first@.len(),
            forall|k: int|
                0 <= k < tail.len() ==> #[trigger] tail[k] == digit_char(
                    least_first@[tail.len() - 1 - k] as int,
                ),
            forall|k: int| 0 <= k < least_first@.len() ==> #[trigger] least_first@[k] < 16,
            text@ == old(text)@ + tail.subrange(0, least_first@.len() - left),
        decreases left,
    {
        left -= 1;
        text.append(digit_str(least_first[left]));
        proof {
            let done = least_first@.len() - left;
            assert(tail[done - 1] == digit_char(least_first@[left as int] as int));
            assert(tail.subrange(0, done) =~= tail.subrange(0, done - 1).push(tail[done - 1]));
            assert(text@ =~= old(text)@ + tail.subrange(0, done));
        }
    }
    assert(tail.subrange(0, tail.len() as int) =~= tail);
}

/// Appends `n` in decimal to `text`.
pub fn push_decimal(text: &mut String, n: u64)
    ensures
        final(text)@ == old(text)@ + decimal_text(n as nat),
{
    push_digits(text, n, 10);
}

/// Appends `n` in hexadecimal, as `hex_text` writes it, to `text`.
pub fn push_hex(text: &mut String, n: u16)
    ensures
        final(text)@ == old(text)@ + hex_text(n as nat),
{
    proof {
        reveal_strlit("0x");
        reveal_strlit("0x0");
    }
    if n < 16 {
        text.append("0x0");
        text.append(digit_str(n as u8));
        assert(text@ =~= old(text)@ + hex_text(n as nat));
    } else {
        text.append("0x");
        push_digits(text, n as u64, 16);
        assert(text@ =~= old(text)@ + hex_text(n as nat));
    }
}

/// `n` in decimal.
pub fn decimal(n: u64) -> (text: String)
    ensures
        text@ == decimal_text(n as nat),
{
    let mut text = String::new();
    push_decimal(&mut text, n);
    assert(text@ =~= decimal_text(n as nat));
    text
}

} // verus!
