//! What numbers and identifiers read and write, by the characters of their text.
use vstd::arithmetic::div_mod::lemma_div_denominator;
use vstd::arithmetic::power::{lemma_pow0, lemma_pow_positive, pow};
use vstd::prelude::*;

use crate::text::{
    all_digits, decimal_text, decimal_value, hex_has_length, hex_text, is_decimal_digit, parsed,
    unsigned_part,
};

verus! {

/// One more than the largest number of `len` decimal digits.
spec fn tens(len: nat) -> nat
    decreases len,
{
    if len == 0 {
        1
    } else {
        10 * tens((len - 1) as nat)
    }
}

proof fn value_is_bounded(digits: Seq<char>)
    requires
        all_digits(digits),
    ensures
        decimal_value(digits) < tens(digits.len()),
    decreases digits.len(),
{
    if digits.len() > 0 {
        assert(is_decimal_digit(digits[digits.len() - 1]));
        value_is_bounded(digits.drop_last());
    }
}

/// A text of decimal digits spells a number if it is not empty, whatever digit it begins with:
/// up to nineteen digits always fit.
pub proof fn digits_spell_a_number(text: Seq<char>)
    requires
        0 < text.len() <= 19,
        forall|i: int| 0 <= i < text.len() ==> '0' <= #[trigger] text[i] <= '9',
    ensures
        parsed(text) is Some,
{
    reveal_with_fuel(tens, 20);
    assert(all_digits(text));
    assert(text[0] != '+');
    value_is_bounded(text);
    assert(tens(text.len()) <= tens(19)) by {
        tens_grow(text.len(), 19);
    }
}

proof fn tens_grow(a: nat, b: nat)
    requires
        a <= b,
    ensures
        tens(a) <= tens(b),
    decreases b - a,
{
    if a < b {
        tens_grow(a, (b - 1) as nat);
    }
}

/// One decimal digit spells its own value.
pub proof fn digit_spells_its_value(c: char)
    requires
        '0' <= c <= '9',
    ensures
        parsed(seq![c]) == Some((c as int - '0' as int) as u64),
{
    let text = seq![c];
    assert(text.drop_last() =~= Seq::empty());
    assert(decimal_value(text.drop_last()) == 0);
    assert(decimal_value(text) == c as int - 48);
}

/// A digit after a number makes it ten times as large and adds its own value, if the result
/// fits; otherwise the text spells no number.
pub proof fn digits_count_by_place(text: Seq<char>, c: char)
    requires
        text.len() > 0,
        forall|i: int| 0 <= i < text.len() ==> '0' <= #[trigger] text[i] <= '9',
        '0' <= c <= '9',
    ensures
        parsed(text) matches Some(value) ==> (if value * 10 + (c as int - '0' as int) <= u64::MAX {
            parsed(text.push(c)) == Some((value * 10 + (c as int - '0' as int)) as u64)
        } else {
            parsed(text.push(c)) is None
        }),
        parsed(text) is None ==> parsed(text.push(c)) is None,
{
    let longer = text.push(c);
    assert(all_digits(text));
    assert(longer.drop_last() =~= text);
    assert(all_digits(longer)) by {
        assert forall|i: int| 0 <= i < longer.len() implies is_decimal_digit(
            #[trigger] longer[i],
        ) by {
            if i < text.len() {
                assert(longer[i] == text[i]);
            }
        }
    }
    assert(text[0] != '+');
    assert(longer[0] == text[0]);
    assert(decimal_value(longer) == decimal_value(text) * 10 + (c as int - 48));
}

proof fn leading_zero_is_worth_nothing(digits: Seq<char>)
    ensures
        decimal_value(seq!['0'] + digits) == decimal_value(digits),
    decreases digits.len(),
{
    let longer = seq!['0'] + digits;
    if digits.len() == 0 {
        assert(longer.drop_last() =~= Seq::empty());
        assert(decimal_value(longer.drop_last()) == 0);
    } else {
        assert(longer.drop_last() =~= seq!['0'] + digits.drop_last());
        leading_zero_is_worth_nothing(digits.drop_last());
    }
}

/// A zero before the digits of a number changes nothing.
pub proof fn leading_zeros_change_nothing(text: Seq<char>)
    requires
        text.len() > 0,
        forall|i: int| 0 <= i < text.len() ==> '0' <= #[trigger] text[i] <= '9',
    ensures
        parsed(seq!['0'] + text) == parsed(text),
{
    let longer = seq!['0'] + text;
    assert(all_digits(text));
    assert(all_digits(longer)) by {
        assert forall|i: int| 0 <= i < longer.len() implies is_decimal_digit(
            #[trigger] longer[i],
        ) by {
            if i > 0 {
                assert(longer[i] == text[i - 1]);
            }
        }
    }
    assert(text[0] != '+');
    leading_zero_is_worth_nothing(text);
}

/// A plus sign before a text that has none changes nothing.
pub proof fn plus_sign_changes_nothing(text: Seq<char>)
    requires
        text.len() > 0,
        text[0] != '+',
    ensures
        parsed(seq!['+'] + text) == parsed(text),
{
    assert((seq!['+'] + text).skip(1) =~= text);
}

/// A text with anything in it but decimal digits and one plus sign before them spells no
/// number, and neither does one without a digit.
pub proof fn other_text_spells_nothing(text: Seq<char>)
    requires
        text.len() == 0 || text =~= seq!['+'] || exists|i: int|
            0 <= i < text.len() && !('0' <= #[trigger] text[i] <= '9') && (i > 0 || text[i] != '+'),
    ensures
        parsed(text) is None,
{
    let digits = unsigned_part(text);
    if text.len() != 0 && !(text =~= seq!['+']) {
        let i = choose|i: int|
            0 <= i < text.len() && !('0' <= #[trigger] text[i] <= '9') && (i > 0 || text[i] != '+');
        if text[0] == '+' {
            assert(digits[i - 1] == text[i]);
            assert(!is_decimal_digit(digits[i - 1]));
        } else {
            assert(!is_decimal_digit(digits[i]));
        }
    }
}

/// A number is written with decimal digits only, and with no zero before them: `0` alone begins
/// with one.
pub proof fn decimal_is_plain(n: u64)
    ensures
        decimal_text(n as nat).len() > 0,
        forall|i: int|
            0 <= i < decimal_text(n as nat).len() ==> '0' <= #[trigger] decimal_text(n as nat)[i]
                <= '9',
        decimal_text(n as nat)[0] == '0' <==> n == 0,
        n == 0 ==> decimal_text(n as nat).len() == 1,
    decreases n,
{
    let text = decimal_text(n as nat);
    if n >= 10 {
        let shorter = decimal_text(n as nat / 10);
        decimal_is_plain(n / 10);
        assert(text.drop_last() =~= shorter);
        assert forall|i: int| 0 <= i < text.len() implies '0' <= #[trigger] text[i] <= '9' by {
            if i < shorter.len() {
                assert(text[i] == shorter[i]);
            }
        }
        assert(text[0] == shorter[0]);
    }
}

/// A simple form writes each hexadecimal digit of the number in its place, from the highest to
/// the lowest: `0` to `9`, then `a` to `f`.
pub proof fn hex_digits_stand_in_place(n: nat, len: nat, i: int)
    requires
        0 <= i < len,
    ensures
        hex_text(n, len).len() == len,
        ({
            let d = (n as int / pow(16, (len - 1 - i) as nat)) % 16;
            hex_text(n, len)[i] as int == if d < 10 {
                '0' as int + d
            } else {
                'a' as int + (d - 10)
            }
        }),
    decreases len,
{
    let shorter = (len - 1) as nat;
    hex_has_length(n, len);
    hex_has_length(n / 16, shorter);
    if i == len - 1 {
        lemma_pow0(16);
    } else {
        let power = pow(16, (shorter - 1 - i) as nat);
        hex_digits_stand_in_place(n / 16, shorter, i);
        assert(hex_text(n, len)[i] == hex_text(n / 16, shorter)[i]);
        lemma_pow_positive(16, (shorter - 1 - i) as nat);
        lemma_div_denominator(n as int, 16, power);
        assert(pow(16, (len - 1 - i) as nat) == 16 * power) by {
            reveal(pow);
        }
    }
}

} // verus!
