//! Canonical names: the lowercase-hyphenated token form under which agent
//! types and methods are registered and looked up.

use crate::text::push_char;
use vstd::prelude::*;

verus! {

/// Whether Unicode classifies `c` as an uppercase letter, as
/// `char::is_uppercase` reports it.
pub uninterp spec fn unicode_uppercase(c: char) -> bool;

/// Trusted: the body is `char::is_uppercase`, whose answer depends on the
/// character alone; the contract gives that answer its name.
#[verifier::external_body]
fn is_uppercase(c: char) -> (r: bool)
    ensures
        r == unicode_uppercase(c),
{
    c.is_uppercase()
}

/// Lowercase form of an ASCII capital letter; every other character is
/// unchanged.
pub open spec fn ascii_lower(c: char) -> char {
    if 'A' <= c && c <= 'Z' {
        ((c as u8) + 32u8) as char
    } else {
        c
    }
}

/// Maps `A..=Z` to `a..=z` and leaves every other character as it is.
pub fn to_ascii_lower(c: char) -> (r: char)
    ensures
        r == ascii_lower(c),
{
    if 'A' <= c && c <= 'Z' {
        ((c as u8) + 32u8) as char
    } else {
        c
    }
}

/// What one character of an identifier contributes to its canonical form.
///
/// An underscore becomes a hyphen. An uppercase letter is lowered, and is
/// preceded by a hyphen unless it is the first character. Anything else is
/// kept.
pub open spec fn kebab_piece(c: char, first: bool, upper: bool) -> Seq<char> {
    if c == '_' {
        seq!['-']
    } else if upper {
        if first {
            seq![ascii_lower(c)]
        } else {
            seq!['-', ascii_lower(c)]
        }
    } else {
        seq![c]
    }
}

/// The canonical form of the identifier `s`.
pub open spec fn kebab_case(s: Seq<char>) -> Seq<char>
    decreases s.len(),
{
    if s.len() == 0 {
        Seq::empty()
    } else {
        kebab_case(s.drop_last()) + kebab_piece(
            s.last(),
            s.len() == 1,
            unicode_uppercase(s.last()),
        )
    }
}

/// Appends the canonical form of one character, given whether it is the
/// first of its identifier and whether it is an uppercase letter.
pub fn push_kebab_piece(out: &mut String, c: char, first: bool, upper: bool)
    ensures
        final(out)@ == old(out)@ + kebab_piece(c, first, upper),
{
    if c == '_' {
        push_char(out, '-');
        assert(out@ =~= old(out)@ + seq!['-']);
    } else if upper {
        if !first {
            push_char(out, '-');
        }
        push_char(out, to_ascii_lower(c));
        assert(out@ =~= old(out)@ + kebab_piece(c, first, upper));
    } else {
        push_char(out, c);
        assert(out@ =~= old(out)@ + seq![c]);
    }
}

/// Normalizes an identifier such as `WeatherAgent` or `get_weather` to its
/// canonical token form, `weather-agent` or `get-weather`.
pub fn to_kebab_case(s: &str) -> (result: String)
    ensures
        result@ == kebab_case(s@),
{
    let mut result = String::new();
    let mut first = true;
    for c in it: s.chars()
        invariant
            it.seq() == s@,
            first == (it.index() == 0),
            result@ == kebab_case(s@.take(it.index() as int)),
    {
        let upper = is_uppercase(c);
        proof {
            let now = s@.take(it.index() + 1);
            assert(now.drop_last() =~= s@.take(it.index() as int));
            assert(now.last() == c);
        }
        push_kebab_piece(&mut result, c, first, upper);
        first = false;
    }
    assert(s@.take(s@.len() as int) =~= s@);
    result
}

} // verus!
