//! Small operations on text that the rest of the crate shares.

use vstd::prelude::*;
use vstd::string::*;
use vstd::utf8::*;

verus! {

/// The position of the first occurrence of `wanted` in `text` at or after `from`, or
/// the length of `text` where there is none.
pub open spec fn position_of(text: Seq<char>, wanted: char, from: int) -> int
    decreases text.len() - from,
{
    if from < 0 || from >= text.len() {
        text.len() as int
    } else if text[from] == wanted {
        from
    } else {
        position_of(text, wanted, from + 1)
    }
}

/// `position_of` lies between `from` and the length, points at `wanted` where it is
/// inside the text, and nothing before it from `from` on is `wanted`.
pub proof fn lemma_position_of(text: Seq<char>, wanted: char, from: int)
    requires
        0 <= from <= text.len(),
    ensures
        from <= position_of(text, wanted, from) <= text.len(),
        position_of(text, wanted, from) < text.len() ==> text[position_of(text, wanted, from)]
            == wanted,
        forall|k: int| from <= k < position_of(text, wanted, from) ==> text[k] != wanted,
    decreases text.len() - from,
{
    if from < text.len() && text[from] != wanted {
        lemma_position_of(text, wanted, from + 1);
    }
}

/// Finds the first occurrence of the ASCII character `wanted` in `text` at or after
/// `from`.
pub(crate) fn find_ascii(text: &str, wanted: u8, from: usize) -> (at: usize)
    requires
        text.is_ascii(),
        wanted < 128,
        from <= text@.len(),
    ensures
        at == position_of(text@, wanted as char, from as int),
        from <= at <= text@.len(),
{
    let n = text.unicode_len();
    let mut i: usize = from;
    proof {
        lemma_position_of(text@, wanted as char, from as int);
    }
    while i < n
        invariant
            text.is_ascii(),
            n == text@.len(),
            from <= i <= n,
            wanted < 128,
            position_of(text@, wanted as char, from as int) == position_of(
                text@,
                wanted as char,
                i as int,
            ),
        decreases n - i,
    {
        let b = text.get_ascii(i);
        if b == wanted {
            assert(text@[i as int] == wanted as char);
            return i;
        }
        i = i + 1;
    }
    i
}

/// Whether two texts hold the same characters.
pub fn same_text(a: &str, b: &str) -> (same: bool)
    ensures
        same == (a@ == b@),
{
    let x = a.as_bytes();
    let y = b.as_bytes();
    proof {
        encode_utf8_decode_utf8(a@);
        encode_utf8_decode_utf8(b@);
    }
    if x.len() != y.len() {
        return false;
    }
    let mut i: usize = 0;
    while i < x.len()
        invariant
            x@ == encode_utf8(a@),
            y@ == encode_utf8(b@),
            x@.len() == y@.len(),
            i <= x@.len(),
            forall|k: int| 0 <= k < i ==> x@[k] == y@[k],
        decreases x@.len() - i,
    {
        if x[i] != y[i] {
            return false;
        }
        i = i + 1;
    }
    assert(x@ =~= y@);
    true
}

/// The character that stands for the decimal digit `digit`.
pub open spec fn digit_char(digit: nat) -> char {
    if digit == 0 {
        '0'
    } else if digit == 1 {
        '1'
    } else if digit == 2 {
        '2'
    } else if digit == 3 {
        '3'
    } else if digit == 4 {
        '4'
    } else if digit == 5 {
        '5'
    } else if digit == 6 {
        '6'
    } else if digit == 7 {
        '7'
    } else if digit == 8 {
        '8'
    } else {
        '9'
    }
}

/// The decimal numeral of `value`, without sign and without leading zeros.
pub open spec fn decimal_text(value: nat) -> Seq<char>
    decreases value,
{
    if value < 10 {
        seq![digit_char(value)]
    } else {
        decimal_text(value / 10).push(digit_char(value % 10))
    }
}

/// The one-character text of a decimal digit.
fn digit_text(digit: u8) -> (text: &'static str)
    requires
        digit < 10,
    ensures
        text@ == seq![digit_char(digit as nat)],
{
    proof {
        reveal_strlit("0");
        reveal_strlit("1");
        reveal_strlit("2");
        reveal_strlit("3");
        reveal_strlit("4");
        reveal_strlit("5");
        reveal_strlit("6");
        reveal_strlit("7");
        reveal_strlit("8");
        reveal_strlit("9");
    }
    let text = match digit {
        0 => "0",
        1 => "1",
        2 => "2",
        3 => "3",
        4 => "4",
        5 => "5",
        6 => "6",
        7 => "7",
        8 => "8",
        _ => "9",
    };
    assert(text@ =~= seq![digit_char(digit as nat)]);
    text
}

/// Writes `value` as a decimal numeral.
pub fn decimal(value: u64) -> (text: String)
    ensures
        text@ == decimal_text(value as nat),
    decreases value,
{
    if value < 10 {
        String::from_str(digit_text(value as u8))
    } else {
        let mut text = decimal(value / 10);
        text.append(digit_text((value % 10) as u8));
        assert(text@ =~= decimal_text(value as nat));
        text
    }
}

/// Whether `c` is white space: one of the characters with the Unicode property
/// `White_Space`.
pub open spec fn is_white_space(c: char) -> bool {
    ('\u{9}' <= c && c <= '\u{d}') || c == ' ' || c == '\u{85}' || c == '\u{a0}' || c
        == '\u{1680}' || ('\u{2000}' <= c && c <= '\u{200a}') || c == '\u{2028}' || c
        == '\u{2029}' || c == '\u{202f}' || c == '\u{205f}' || c == '\u{3000}'
}

/// `text` without the white space at its start.
pub open spec fn trimmed_start(text: Seq<char>) -> Seq<char>
    decreases text.len(),
{
    if text.len() > 0 && is_white_space(text[0]) {
        trimmed_start(text.drop_first())
    } else {
        text
    }
}

/// `text` without the white space at its end.
pub open spec fn trimmed_end(text: Seq<char>) -> Seq<char>
    decreases text.len(),
{
    if text.len() > 0 && is_white_space(text.last()) {
        trimmed_end(text.drop_last())
    } else {
        text
    }
}

/// `text` without the white space at its start and at its end.
pub open spec fn trimmed(text: Seq<char>) -> Seq<char> {
    trimmed_end(trimmed_start(text))
}

/// Whether `c` is one of the ten decimal digits.
pub open spec fn is_digit(c: char) -> bool {
    '0' <= c && c <= '9'
}

/// The number that the decimal digits `digits` stand for; leading zeros count for
/// nothing.
pub open spec fn numeral_value(digits: Seq<char>) -> nat
    decreases digits.len(),
{
    if digits.len() == 0 {
        0
    } else {
        (numeral_value(digits.drop_last()) * 10 + (digits.last() as u32 - '0' as u32)) as nat
    }
}

/// Whether every character of `digits` is a decimal digit.
pub open spec fn all_digits(digits: Seq<char>) -> bool {
    forall|i: int| 0 <= i < digits.len() ==> is_digit(#[trigger] digits[i])
}

/// What is left of `text` once a leading `+`, if there is one, is taken off.
pub open spec fn without_plus(text: Seq<char>) -> Seq<char> {
    if text.len() > 0 && text[0] == '+' {
        text.drop_first()
    } else {
        text
    }
}

/// The number below 256 that `text` is the decimal numeral of: an optional `+`, then
/// one or more decimal digits and nothing else, standing for a number below 256.
pub open spec fn parsed_u8(text: Seq<char>) -> Option<u8> {
    let digits = without_plus(text);
    if digits.len() > 0 && all_digits(digits) && numeral_value(digits) <= 255 {
        Some(numeral_value(digits) as u8)
    } else {
        None
    }
}

/// Removes leading and trailing white space with `str::trim`.
///
/// Trusted: the result is the text without the characters of the Unicode property
/// `White_Space` at its start and at its end, as the documentation of `str::trim`
/// says.
#[verifier::external_body]
pub(crate) fn trim(text: &str) -> (inner: &str)
    ensures
        inner@ == trimmed(text@),
{
    text.trim()
}

/// Reads a number with `u8::from_str`.
///
/// Trusted: the result is the number that the text stands for where the text is an
/// optional `+` followed by decimal digits only, at least one, that stand for a number
/// below 256, and `None`, in place of the parse error, for every other text, as the
/// documentation of `from_str` for the integer types says.
#[verifier::external_body]
pub(crate) fn parse_u8(text: &str) -> (number: Option<u8>)
    ensures
        number == parsed_u8(text@),
{
    <u8 as std::str::FromStr>::from_str(text).ok()
}

/// The decimal numeral of a number is made of digits only, is not empty, and stands
/// for that number.
pub proof fn lemma_decimal_text_is_numeral(value: nat)
    ensures
        decimal_text(value).len() > 0,
        all_digits(decimal_text(value)),
        numeral_value(decimal_text(value)) == value,
    decreases value,
{
    let text = decimal_text(value);
    if value < 10 {
        assert(text.drop_last() =~= Seq::<char>::empty());
        assert(text.last() == digit_char(value));
        assert(digit_char(value) as u32 - '0' as u32 == value);
        assert(numeral_value(text.drop_last()) == 0);
    } else {
        lemma_decimal_text_is_numeral(value / 10);
        assert(text.drop_last() =~= decimal_text(value / 10));
        assert(text.last() == digit_char(value % 10));
        assert(digit_char(value % 10) as u32 - '0' as u32 == value % 10);
        assert forall|i: int| 0 <= i < text.len() implies is_digit(#[trigger] text[i]) by {
            if i < text.len() - 1 {
                assert(text[i] == decimal_text(value / 10)[i]);
            }
        }
    }
}

/// Numeral round trip: the decimal numeral of a number below 256, with any white
/// space around it trimmed off by `trimmed`, is read back as that number.
pub proof fn lemma_numeral_round_trip(value: u8)
    ensures
        parsed_u8(decimal_text(value as nat)) == Some(value),
        trimmed(decimal_text(value as nat)) == decimal_text(value as nat),
{
    lemma_decimal_text_is_numeral(value as nat);
    let text = decimal_text(value as nat);
    assert(is_digit(text[0]));
    assert(is_digit(text.last()));
}

/// A text with anything but a decimal digit behind its optional `+` is no numeral.
pub proof fn lemma_non_digit_is_refused(text: Seq<char>, at: int)
    requires
        0 <= at < without_plus(text).len(),
        !is_digit(without_plus(text)[at]),
    ensures
        parsed_u8(text) is None,
{
}

/// A text that is read as a number is an optional `+` and then digits only, at least
/// one, and the number is what the digits stand for.
pub proof fn lemma_parsed_is_numeral(text: Seq<char>)
    requires
        parsed_u8(text) is Some,
    ensures
        without_plus(text).len() > 0,
        all_digits(without_plus(text)),
        parsed_u8(text)->Some_0 == numeral_value(without_plus(text)),
{
}

} // verus!
