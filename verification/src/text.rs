//! Decimal rendering of integers.

use vstd::prelude::*;

verus! {

/// The character of one decimal digit.
pub open spec fn digit_char(digit: int) -> char {
    if digit == 0 {
        '0'
    } else if digit == 1 {
        '1'
    } else if digit == 2 {
        '2'
    } else if digit == 3 {
        '3'
    } else if digit == 4 {
        '4'
    } else if digit == 5 {
        '5'
    } else if digit == 6 {
        '6'
    } else if digit == 7 {
        '7'
    } else if digit == 8 {
        '8'
    } else {
        '9'
    }
}

/// The shortest decimal rendering of a natural number.
pub open spec fn decimal(value: nat) -> Seq<char>
    decreases value,
{
    if value < 10 {
        seq![digit_char(value as int)]
    } else {
        decimal(value / 10).push(digit_char((value % 10) as int))
    }
}

/// The decimal rendering of an integer, with a leading minus sign when it is negative.
pub open spec fn signed_decimal(value: int) -> Seq<char> {
    if value < 0 {
        seq!['-'] + decimal((-value) as nat)
    } else {
        decimal(value as nat)
    }
}

/// Whether native code, which ends a text at the first zero character, reads all of it.
pub open spec fn nul_free(value: Seq<char>) -> bool {
    forall|i: int| 0 <= i < value.len() ==> value[i] != '\0'
}

/// A decimal rendering can be handed to native code.
pub proof fn law_decimals_are_nul_free(value: int)
    ensures
        nul_free(signed_decimal(value)),
{
    if value < 0 {
        lemma_decimal_is_nul_free((-value) as nat);
    } else {
        lemma_decimal_is_nul_free(value as nat);
    }
}

/// Whether a character is a decimal digit.
pub open spec fn is_digit(character: char) -> bool {
    '0' as int <= character as int <= '9' as int
}

/// The number that a sequence of digits stands for, read from the left.
pub open spec fn read_digits(digits: Seq<char>) -> int
    decreases digits.len(),
{
    if digits.len() == 0 {
        0
    } else {
        read_digits(digits.drop_last()) * 10 + (digits.last() as int - '0' as int)
    }
}

/// The number that a rendering stands for: that of its digits, negated after a minus sign.
pub open spec fn read_number(rendering: Seq<char>) -> int {
    if rendering.len() > 0 && rendering[0] == '-' {
        -read_digits(rendering.skip(1))
    } else {
        read_digits(rendering)
    }
}

/// Whether a rendering is the shortest one: digits, without a leading zero but for zero itself.
pub open spec fn shortest(digits: Seq<char>) -> bool {
    &&& digits.len() > 0
    &&& forall|i: int| 0 <= i < digits.len() ==> is_digit(#[trigger] digits[i])
    &&& digits.len() > 1 ==> digits[0] != '0'
}

/// A number that is rendered reads back as itself, and is rendered in the shortest way.
pub proof fn law_decimals_read_back(value: int)
    ensures
        read_number(signed_decimal(value)) == value,
        value >= 0 ==> shortest(signed_decimal(value)),
        value < 0 ==> signed_decimal(value)[0] == '-' && shortest(signed_decimal(value).skip(1)),
{
    let magnitude = if value < 0 {
        -value
    } else {
        value
    };
    lemma_decimal_reads_back(magnitude as nat);
    if value < 0 {
        assert(signed_decimal(value).skip(1) =~= decimal(magnitude as nat));
    } else {
        assert(is_digit(signed_decimal(value)[0]));
    }
}

proof fn lemma_decimal_reads_back(value: nat)
    ensures
        read_digits(decimal(value)) == value,
        shortest(decimal(value)),
        value > 0 ==> decimal(value)[0] != '0',
    decreases value,
{
    let digits = decimal(value);
    reveal_with_fuel(read_digits, 2);
    if value >= 10 {
        lemma_decimal_reads_back(value / 10);
        assert(digits.drop_last() =~= decimal(value / 10));
        assert forall|i: int| 0 <= i < digits.len() implies is_digit(#[trigger] digits[i]) by {
            if i < digits.len() - 1 {
                assert(digits[i] == decimal(value / 10)[i]);
            }
        }
        assert(digits[0] == decimal(value / 10)[0]);
    } else {
        assert(digits.drop_last() =~= Seq::<char>::empty());
    }
}

/// Appending a number keeps the text and adds a rendering that reads back as the number.
pub proof fn law_appended_numbers_read_back(value: i32)
    ensures
        forall|text: &mut String| #[trigger]
            call_ensures(push_signed_decimal, (text, value), ()) ==> {
                &&& final(text)@.len() > text@.len()
                &&& final(text)@.take(text@.len() as int) == text@
                &&& read_number(final(text)@.skip(text@.len() as int)) == value
            },
{
    law_decimals_read_back(value as int);
    assert forall|text: &mut String| #[trigger]
        call_ensures(push_signed_decimal, (text, value), ()) implies {
        &&& final(text)@.len() > text@.len()
        &&& final(text)@.take(text@.len() as int) == text@
        &&& read_number(final(text)@.skip(text@.len() as int)) == value
    } by {
        assert(final(text)@.skip(text@.len() as int) =~= signed_decimal(value as int));
        assert(final(text)@.take(text@.len() as int) =~= text@);
    }
}

proof fn lemma_decimal_is_nul_free(value: nat)
    ensures
        nul_free(decimal(value)),
    decreases value,
{
    if value >= 10 {
        lemma_decimal_is_nul_free(value / 10);
    }
}

fn digit_text(digit: u32) -> (text: &'static str)
    requires
        digit < 10,
    ensures
        text@ == seq![digit_char(digit as int)],
{
    proof {
        reveal_strlit("0");
        reveal_strlit("1");
        reveal_strlit("2");
        reveal_strlit("3");
        reveal_strlit("4");
        reveal_strlit("5");
        reveal_strlit("6");
        reveal_strlit("7");
        reveal_strlit("8");
        reveal_strlit("9");
    }
    match digit {
        0 => "0",
        1 => "1",
        2 => "2",
        3 => "3",
        4 => "4",
        5 => "5",
        6 => "6",
        7 => "7",
        8 => "8",
        _ => "9",
    }
}

/// Appends the decimal rendering of `value` to `text`.
pub fn push_decimal(text: &mut String, value: u32)
    ensures
        final(text)@ == old(text)@ + decimal(value as nat),
    decreases value,
{
    if value >= 10 {
        push_decimal(text, value / 10);
    }
    text.append(digit_text(value % 10));
}

/// Appends the decimal rendering of `value`, signed where it is negative, to `text`.
pub fn push_signed_decimal(text: &mut String, value: i32)
    ensures
        final(text)@ == old(text)@ + signed_decimal(value as int),
{
    if value < 0 {
        proof {
            reveal_strlit("-");
        }
        text.append("-");
        push_decimal(text, (-(value as i64)) as u32);
    } else {
        push_decimal(text, value as u32);
    }
}

} // verus!
