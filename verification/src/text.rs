//! Text: suffixes, decimal and hexadecimal numbers.
use vstd::prelude::*;

verus! {

broadcast use vstd::string::group_string_axioms;

/// The digit that stands for `d`: `0` to `9`, then `a` to `f`.
pub open spec fn digit(d: nat) -> char
    recommends
        d < 16,
{
    if d < 10 {
        (48 + d) as char
    } else {
        (87 + d) as char
    }
}

/// Whether `c` is one of `0` to `9`.
pub open spec fn is_decimal_digit(c: char) -> bool {
    48 <= c as int <= 57
}

/// Whether `text` holds decimal digits and nothing else.
pub open spec fn all_digits(text: Seq<char>) -> bool {
    forall|i: int| 0 <= i < text.len() ==> is_decimal_digit(#[trigger] text[i])
}

/// The number that a sequence of decimal digits stands for.
pub open spec fn decimal_value(digits: Seq<char>) -> nat
    decreases digits.len(),
{
    if digits.len() == 0 {
        0
    } else {
        (decimal_value(digits.drop_last()) * 10 + (digits.last() as int - 48)) as nat
    }
}

/// The digits of `text` without the plus sign that may stand before them.
pub open spec fn unsigned_part(text: Seq<char>) -> Seq<char> {
    if text.len() > 0 && text[0] == '+' {
        text.skip(1)
    } else {
        text
    }
}

/// The number that `text` spells: an optional plus sign, then one or more decimal digits, for
/// a value that 64 bits hold. Anything else spells none.
pub open spec fn parsed(text: Seq<char>) -> Option<u64> {
    let digits = unsigned_part(text);
    if digits.len() > 0 && all_digits(digits) && decimal_value(digits) <= u64::MAX {
        Some(decimal_value(digits) as u64)
    } else {
        None
    }
}

/// `n` in decimal, without leading zeros.
pub open spec fn decimal_text(n: nat) -> Seq<char>
    decreases n,
{
    if n < 10 {
        seq![digit(n)]
    } else {
        decimal_text(n / 10).push(digit(n % 10))
    }
}

/// The last `len` hexadecimal digits of `n`, in lower case.
pub open spec fn hex_text(n: nat, len: nat) -> Seq<char>
    decreases len,
{
    if len == 0 {
        Seq::empty()
    } else {
        hex_text(n / 16, (len - 1) as nat).push(digit(n % 16))
    }
}

/// The characters of `text`.
pub fn characters(text: &str) -> (chars: Vec<char>)
    ensures
        chars@ == text@,
{
    let mut chars: Vec<char> = Vec::new();
    for c in it: text.chars()
        invariant
            it.seq() == text@,
            chars@ == text@.take(it.index()),
    {
        assert(text@.take(it.index() + 1) == text@.take(it.index()).push(text@[it.index()]));
        chars.push(c);
    }
    assert(text@.take(text@.len() as int) == text@);
    chars
}

/// Whether `text` ends with `suffix`.
pub fn ends_with(text: &str, suffix: &str) -> (found: bool)
    ensures
        found == suffix@.is_suffix_of(text@),
{
    let whole = characters(text);
    let end = characters(suffix);
    if end.len() > whole.len() {
        return false;
    }
    let start: usize = whole.len() - end.len();
    let mut i: usize = 0;
    while i < end.len()
        invariant
            whole@ == text@,
            end@ == suffix@,
            start + end.len() == whole.len(),
            i <= end.len(),
            forall|j: int| 0 <= j < i ==> whole[start + j] == end[j],
        decreases end.len() - i,
    {
        if whole[start + i] != end[i] {
            assert(text@.subrange(start as int, text@.len() as int)[i as int] != suffix@[i as int]);
            return false;
        }
        i += 1;
    }
    assert(suffix@ =~= text@.subrange(start as int, text@.len() as int));
    true
}

proof fn decimal_value_grows(digits: Seq<char>, n: int)
    requires
        0 <= n <= digits.len(),
        all_digits(digits),
    ensures
        decimal_value(digits.take(n)) <= decimal_value(digits),
    decreases digits.len() - n,
{
    if n < digits.len() {
        let longer = digits.take(n + 1);
        assert(longer.drop_last() == digits.take(n));
        assert(is_decimal_digit(digits[n]));
        decimal_value_grows(digits, n + 1);
    } else {
        assert(digits.take(n) == digits);
    }
}

/// Reads an unsigned decimal number, as [`parsed`] says.
pub fn parse(text: &str) -> (number: Option<u64>)
    ensures
        number == parsed(text@),
{
    let chars = characters(text);
    let start: usize = if chars.len() > 0 && chars[0] == '+' {
        1
    } else {
        0
    };
    let ghost digits = unsigned_part(text@);
    assert(digits =~= chars@.skip(start as int));
    if chars.len() == start {
        return None;
    }
    let mut value: u64 = 0;
    let mut i: usize = start;
    while i < chars.len()
        invariant
            start <= i <= chars.len(),
            digits == chars@.skip(start as int),
            digits == unsigned_part(text@),
            all_digits(digits.take(i - start)),
            value == decimal_value(digits.take(i - start)),
        decreases chars.len() - i,
    {
        let c = chars[i];
        assert(digits[i - start] == c);
        if c < '0' || c > '9' {
            assert(!is_decimal_digit(digits[i - start]));
            return None;
        }
        let next: u64 = c as u64 - 48;
        let ghost longer = digits.take(i - start + 1);
        assert(longer.drop_last() == digits.take(i - start));
        assert(all_digits(longer)) by {
            assert forall|j: int| 0 <= j < longer.len() implies is_decimal_digit(
                #[trigger] longer[j],
            ) by {
                if j < i - start {
                    assert(longer[j] == digits.take(i - start)[j]);
                }
            }
        }
        assert(decimal_value(longer) == value * 10 + next);
        if value > (u64::MAX - next) / 10 {
            proof {
                if all_digits(digits) {
                    decimal_value_grows(digits, i - start + 1);
                }
            }
            return None;
        }
        value = value * 10 + next;
        i += 1;
    }
    assert(digits.take(digits.len() as int) == digits);
    Some(value)
}

/// The one-character text of a digit.
fn digit_text(d: u8) -> (text: &'static str)
    requires
        d < 16,
    ensures
        text@ == seq![digit(d as nat)],
{
    let text = match d {
        0 => "0",
        1 => "1",
        2 => "2",
        3 => "3",
        4 => "4",
        5 => "5",
        6 => "6",
        7 => "7",
        8 => "8",
        9 => "9",
        10 => "a",
        11 => "b",
        12 => "c",
        13 => "d",
        14 => "e",
        _ => "f",
    };
    proof {
        reveal_strlit("0");
        reveal_strlit("1");
        reveal_strlit("2");
        reveal_strlit("3");
        reveal_strlit("4");
        reveal_strlit("5");
        reveal_strlit("6");
        reveal_strlit("7");
        reveal_strlit("8");
        reveal_strlit("9");
        reveal_strlit("a");
        reveal_strlit("b");
        reveal_strlit("c");
        reveal_strlit("d");
        reveal_strlit("e");
        reveal_strlit("f");
    }
    assert(text@ =~= seq![digit(d as nat)]);
    text
}

/// Writes `n` in decimal.
pub fn decimal(n: u64) -> (text: String)
    ensures
        text@ == decimal_text(n as nat),
    decreases n,
{
    if n < 10 {
        let mut text = String::new();
        text.append(digit_text(n as u8));
        assert(text@ =~= decimal_text(n as nat));
        text
    } else {
        let mut text = decimal(n / 10);
        text.append(digit_text((n % 10) as u8));
        assert(text@ =~= decimal_text(n as nat));
        text
    }
}

/// Writes the last `len` hexadecimal digits of `n`.
fn hex(n: u128, len: usize) -> (text: String)
    ensures
        text@ == hex_text(n as nat, len as nat),
    decreases len,
{
    if len == 0 {
        let text = String::new();
        assert(text@ =~= hex_text(n as nat, len as nat));
        text
    } else {
        let mut text = hex(n / 16, len - 1);
        text.append(digit_text((n % 16) as u8));
        assert(text@ =~= hex_text(n as nat, len as nat));
        text
    }
}

/// An identifier in its simple form: 32 hexadecimal digits without separators.
pub fn simple(id: u128) -> (text: String)
    ensures
        text@ == hex_text(id as nat, 32),
{
    hex(id, 32)
}

/// A number that was written in decimal reads back as itself.
pub proof fn decimal_reads_back(n: u64)
    ensures
        parsed(decimal_text(n as nat)) == Some(n),
{
    decimal_digits(n as nat);
    assert(is_decimal_digit(decimal_text(n as nat)[0]));
}

/// A number in decimal is one or more decimal digits of its value.
proof fn decimal_digits(n: nat)
    ensures
        decimal_text(n).len() > 0,
        all_digits(decimal_text(n)),
        decimal_value(decimal_text(n)) == n,
    decreases n,
{
    let text = decimal_text(n);
    if n < 10 {
        assert(text.drop_last() =~= Seq::empty());
        assert(decimal_value(Seq::<char>::empty()) == 0);
    } else {
        decimal_digits(n / 10);
        assert(text.drop_last() =~= decimal_text(n / 10));
    }
}

/// Different numbers are written differently in decimal.
pub proof fn decimal_is_unique(a: u64, b: u64)
    requires
        decimal_text(a as nat) == decimal_text(b as nat),
    ensures
        a == b,
{
    decimal_reads_back(a);
    decimal_reads_back(b);
}

/// A number in decimal holds nothing but decimal digits.
pub proof fn decimal_is_digits(n: u64)
    ensures
        decimal_text(n as nat).len() > 0,
        all_digits(decimal_text(n as nat)),
{
    decimal_digits(n as nat);
}

/// How many numbers `len` hexadecimal digits can tell apart.
spec fn hex_range(len: nat) -> nat
    decreases len,
{
    if len == 0 {
        1
    } else {
        16 * hex_range((len - 1) as nat)
    }
}

proof fn hex_tells_apart(a: nat, b: nat, len: nat)
    requires
        a < hex_range(len),
        b < hex_range(len),
        hex_text(a, len) == hex_text(b, len),
    ensures
        a == b,
    decreases len,
{
    if len > 0 {
        let shorter = (len - 1) as nat;
        assert(hex_text(a, len).last() == digit(a % 16));
        assert(hex_text(b, len).last() == digit(b % 16));
        assert(hex_text(a, len).drop_last() =~= hex_text(a / 16, shorter));
        assert(hex_text(b, len).drop_last() =~= hex_text(b / 16, shorter));
        hex_tells_apart(a / 16, b / 16, shorter);
    }
}

/// Different identifiers have different simple forms, so that links that are found by them do
/// not stand in each other's way.
pub proof fn simple_is_unique(a: u128, b: u128)
    requires
        hex_text(a as nat, 32) == hex_text(b as nat, 32),
    ensures
        a == b,
{
    reveal_with_fuel(hex_range, 33);
    hex_tells_apart(a as nat, b as nat, 32);
}

/// A simple form has as many digits as it is asked for.
pub proof fn hex_has_length(n: nat, len: nat)
    ensures
        hex_text(n, len).len() == len,
    decreases len,
{
    if len > 0 {
        hex_has_length(n / 16, (len - 1) as nat);
    }
}

} // verus!
