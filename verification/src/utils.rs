//! Case conversions for identifiers.

use vstd::prelude::*;
use crate::text::{ascii_lower, ascii_upper, chars_of, is_uppercase, is_uppercase_char, push_char, to_ascii_lower, to_ascii_upper, to_uppercase, uppercase_of};

verus! {

/// Camel case of the text that follows, given whether the next letter is to be
/// capitalized and whether no letter has been kept as it is yet.
pub open spec fn camel_from(s: Seq<char>, capitalize_next: bool, first: bool) -> Seq<char>
    decreases s.len(),
{
    if s.len() == 0 {
        Seq::empty()
    } else if s[0] == '_' {
        camel_from(s.drop_first(), true, first)
    } else if capitalize_next {
        seq![ascii_upper(s[0])] + camel_from(s.drop_first(), false, first)
    } else if first {
        seq![ascii_lower(s[0])] + camel_from(s.drop_first(), false, false)
    } else {
        seq![s[0]] + camel_from(s.drop_first(), false, false)
    }
}

/// Camel case: underscores are dropped, the letter after an underscore is
/// capitalized, and the first letter that follows no underscore is lowered.
pub open spec fn camel_case(s: Seq<char>) -> Seq<char> {
    camel_from(s, false, true)
}

/// What the character at position `i` contributes to the snake case form: a
/// word boundary before every uppercase letter but the first character, then
/// the letter lowered.
pub open spec fn snake_piece(c: char, i: int) -> Seq<char> {
    if is_uppercase_char(c) && i > 0 {
        seq!['_', ascii_lower(c)]
    } else {
        seq![ascii_lower(c)]
    }
}

/// Snake case of the first `n` characters.
pub open spec fn snake_prefix(s: Seq<char>, n: int) -> Seq<char>
    decreases n,
{
    if n <= 0 {
        Seq::empty()
    } else {
        snake_prefix(s, n - 1) + snake_piece(s[n - 1], n - 1)
    }
}

/// Snake case: a `_` before every uppercase letter but the first character,
/// all ASCII letters lowered.
pub open spec fn snake_case(s: Seq<char>) -> Seq<char> {
    snake_prefix(s, s.len() as int)
}

/// The text with every `_` replaced by `-`.
pub open spec fn dashed(s: Seq<char>) -> Seq<char> {
    Seq::new(s.len(), |i: int| if s[i] == '_' { '-' } else { s[i] })
}

/// Kebab case: the snake case form with `-` for `_`.
pub open spec fn kebab_case(s: Seq<char>) -> Seq<char> {
    dashed(snake_case(s))
}

/// Screaming snake case: the snake case form in uppercase.
pub open spec fn screaming_snake_case(s: Seq<char>) -> Seq<char> {
    uppercase_of(snake_case(s))
}

/// Screaming kebab case: the kebab case form in uppercase.
pub open spec fn screaming_kebab_case(s: Seq<char>) -> Seq<char> {
    uppercase_of(kebab_case(s))
}

/// Converts snake_case to camelCase.
pub fn to_camel_case(s: &str) -> (r: String)
    ensures
        r@ == camel_case(s@),
{
    let chars = chars_of(s);
    let mut result = String::new();
    let mut capitalize_next = false;
    let mut first_char = true;
    let mut i: usize = 0;
    assert(chars@.skip(0) =~= s@);
    while i < chars.len()
        invariant
            i <= chars@.len(),
            chars@ == s@,
            result@ + camel_from(chars@.skip(i as int), capitalize_next, first_char) == camel_case(
                s@,
            ),
        decreases chars@.len() - i,
    {
        let c = chars[i];
        proof {
            assert(chars@.skip(i as int).drop_first() =~= chars@.skip(i + 1));
        }
        if c == '_' {
            capitalize_next = true;
        } else if capitalize_next {
            push_char(&mut result, to_ascii_upper(c));
            capitalize_next = false;
        } else if first_char {
            push_char(&mut result, to_ascii_lower(c));
            first_char = false;
        } else {
            push_char(&mut result, c);
        }
        i += 1;
    }
    result
}

/// Converts PascalCase to snake_case.
pub fn to_snake_case(s: &str) -> (r: String)
    ensures
        r@ == snake_case(s@),
{
    let chars = chars_of(s);
    let mut result = String::new();
    let mut i: usize = 0;
    while i < chars.len()
        invariant
            i <= chars@.len(),
            chars@ == s@,
            result@ == snake_prefix(s@, i as int),
        decreases chars@.len() - i,
    {
        let c = chars[i];
        if is_uppercase(c) && i > 0 {
            push_char(&mut result, '_');
        }
        push_char(&mut result, to_ascii_lower(c));
        i += 1;
    }
    result
}

/// Converts PascalCase to SCREAMING_SNAKE_CASE.
pub fn to_screaming_snake_case(s: &str) -> (r: String)
    ensures
        r@ == screaming_snake_case(s@),
{
    let snake = to_snake_case(s);
    to_uppercase(snake.as_str())
}

/// Converts PascalCase to kebab-case.
pub fn to_kebab_case(s: &str) -> (r: String)
    ensures
        r@ == kebab_case(s@),
{
    let snake = to_snake_case(s);
    let chars = chars_of(snake.as_str());
    let mut result = String::new();
    let mut i: usize = 0;
    while i < chars.len()
        invariant
            i <= chars@.len(),
            result@ == dashed(chars@).take(i as int),
        decreases chars@.len() - i,
    {
        let c = chars[i];
        if c == '_' {
            push_char(&mut result, '-');
        } else {
            push_char(&mut result, c);
        }
        i += 1;
    }
    result
}

/// Converts PascalCase to SCREAMING-KEBAB-CASE.
pub fn to_screaming_kebab_case(s: &str) -> (r: String)
    ensures
        r@ == screaming_kebab_case(s@),
{
    let kebab = to_kebab_case(s);
    to_uppercase(kebab.as_str())
}

} // verus!
