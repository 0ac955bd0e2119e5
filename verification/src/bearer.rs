//! The `Authorization` header that carries a bearer token.

use vstd::prelude::*;
use vstd::string::*;
use vstd::utf8::*;

verus! {

/// Whether `c` may stand in a header value: a visible ASCII character, a space or a
/// tab.
pub open spec fn is_header_char(c: char) -> bool {
    c == '\t' || (' ' <= c && c <= '~')
}

/// Whether every character of `value` may stand in a header value.
pub open spec fn is_header_text(value: Seq<char>) -> bool {
    forall|i: int| 0 <= i < value.len() ==> is_header_char(#[trigger] value[i])
}

/// Whether `value` opens with the scheme `Bearer`, in any mix of upper and lower case,
/// followed by a space.
pub open spec fn names_bearer_scheme(value: Seq<char>) -> bool {
    &&& value.len() > 6
    &&& (value[0] == 'B' || value[0] == 'b')
    &&& (value[1] == 'E' || value[1] == 'e')
    &&& (value[2] == 'A' || value[2] == 'a')
    &&& (value[3] == 'R' || value[3] == 'r')
    &&& (value[4] == 'E' || value[4] == 'e')
    &&& (value[5] == 'R' || value[5] == 'r')
    &&& value[6] == ' '
}

/// The position of the first character of `value` at or after `from` that is neither
/// a space nor a tab, or the length of `value` where there is none.
pub open spec fn past_blanks(value: Seq<char>, from: int) -> int
    decreases value.len() - from,
{
    if from < 0 || from >= value.len() {
        value.len() as int
    } else if value[from] == ' ' || value[from] == '\t' {
        past_blanks(value, from + 1)
    } else {
        from
    }
}

/// The token that the `Authorization` header value `value` carries: what follows the
/// scheme `Bearer`, a space and any further spaces and tabs, if that is not empty and
/// the whole value is header text.
pub open spec fn bearer_token(value: Seq<char>) -> Option<Seq<char>> {
    if is_header_text(value) && names_bearer_scheme(value) && past_blanks(value, 7) < value.len() {
        Some(value.subrange(past_blanks(value, 7), value.len() as int))
    } else {
        None
    }
}

/// The `Authorization` header value that carries `token`.
pub open spec fn bearer_header(token: Seq<char>) -> Seq<char> {
    "Bearer "@ + token
}

/// Writes the `Authorization` header value that carries `token`: the scheme `Bearer`,
/// a space and the token.
pub fn bearer_header_value(token: &str) -> (value: String)
    ensures
        value@ == bearer_header(token@),
{
    let mut value = String::from_str("Bearer ");
    value.append(token);
    value
}

/// Whether every character of `value` may stand in a header value.
pub fn check_header_text(value: &str) -> (fits: bool)
    ensures
        fits == is_header_text(value@),
        fits ==> is_ascii_chars(value@),
{
    if !value.is_ascii() {
        proof {
            let i = choose|i: int| 0 <= i < value@.len() && !('\0' <= #[trigger] value@[i] <= '\u{7f}');
            assert(!is_header_char(value@[i]));
        }
        return false;
    }
    let length = value.unicode_len();
    let mut i: usize = 0;
    while i < length
        invariant
            value.is_ascii(),
            length == value@.len(),
            i <= length,
            forall|k: int| 0 <= k < i ==> is_header_char(#[trigger] value@[k]),
        decreases length - i,
    {
        let b = value.get_ascii(i);
        if !(b == 9 || (32 <= b && b <= 126)) {
            assert(!is_header_char(value@[i as int]));
            return false;
        }
        assert(is_header_char(value@[i as int]));
        i = i + 1;
    }
    true
}

/// Finds the first character of `value` at or after `from` that is neither a space nor
/// a tab.
pub(crate) fn skip_blanks(value: &str, from: usize) -> (at: usize)
    requires
        value.is_ascii(),
        from <= value@.len(),
    ensures
        at == past_blanks(value@, from as int),
        from <= at <= value@.len(),
{
    let length = value.unicode_len();
    let mut i: usize = from;
    while i < length
        invariant
            value.is_ascii(),
            length == value@.len(),
            from <= i <= length,
            past_blanks(value@, from as int) == past_blanks(value@, i as int),
        decreases length - i,
    {
        let b = value.get_ascii(i);
        if !(b == 32 || b == 9) {
            assert(value@[i as int] != ' ' && value@[i as int] != '\t');
            return i;
        }
        assert(value@[i as int] == ' ' || value@[i as int] == '\t');
        i = i + 1;
    }
    i
}

/// Extracts the bearer token from the value of an `Authorization` header.
pub fn extract_bearer<'a>(value: &'a str) -> (token: Option<&'a str>)
    ensures
        match token {
            Some(found) => bearer_token(value@) == Some(found@),
            None => bearer_token(value@).is_none(),
        },
{
    if !check_header_text(value) {
        return None;
    }
    let length = value.unicode_len();
    if length <= 6 {
        return None;
    }
    let b0 = value.get_ascii(0);
    let b1 = value.get_ascii(1);
    let b2 = value.get_ascii(2);
    let b3 = value.get_ascii(3);
    let b4 = value.get_ascii(4);
    let b5 = value.get_ascii(5);
    let b6 = value.get_ascii(6);
    let scheme = (b0 == 66 || b0 == 98) && (b1 == 69 || b1 == 101) && (b2 == 65 || b2 == 97) && (b3
        == 82 || b3 == 114) && (b4 == 69 || b4 == 101) && (b5 == 82 || b5 == 114) && b6 == 32;
    assert(scheme == names_bearer_scheme(value@));
    if !scheme {
        return None;
    }
    let start = skip_blanks(value, 7);
    if start >= length {
        return None;
    }
    Some(value.substring_ascii(start, length))
}

/// The position that `past_blanks` finds is `from` itself where no blank stands
/// there.
proof fn lemma_past_blanks_stays(value: Seq<char>, from: int)
    requires
        0 <= from < value.len(),
        value[from] != ' ',
        value[from] != '\t',
    ensures
        past_blanks(value, from) == from,
{
}

/// Header round trip: a token that is header text, is not empty and does not start
/// with a space or a tab is read back unchanged from the header value made for it.
pub proof fn lemma_bearer_round_trip(token: Seq<char>)
    requires
        is_header_text(token),
        token.len() > 0,
        token[0] != ' ',
        token[0] != '\t',
    ensures
        bearer_token(bearer_header(token)) == Some(token),
{
    reveal_strlit("Bearer ");
    let value = bearer_header(token);
    assert(value.len() == 7 + token.len());
    assert(value[0] == 'B' && value[1] == 'e' && value[2] == 'a' && value[3] == 'r' && value[4]
        == 'e' && value[5] == 'r' && value[6] == ' ');
    assert forall|i: int| 0 <= i < value.len() implies is_header_char(#[trigger] value[i]) by {
        if i >= 7 {
            assert(value[i] == token[i - 7]);
        }
    }
    assert(value[7] == token[0]);
    lemma_past_blanks_stays(value, 7);
    assert(value.subrange(7, value.len() as int) =~= token);
}

} // verus!
