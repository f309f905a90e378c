//! The shape of an API key, and the pattern search that recognises it.

use vstd::prelude::*;

verus! {

/// The pattern that a key is held against: eight, four, four, four and twelve
/// hexadecimal digits, with hyphens between the groups and nothing around them.
pub const KEY_PATTERN: &'static str =
    "^[0-9a-fA-F]{8}-[0-9a-fA-F]{4}-[0-9a-fA-F]{4}-[0-9a-fA-F]{4}-[0-9a-fA-F]{12}$";

/// Number of characters of a key: 32 digits and 4 hyphens.
pub open spec fn key_length() -> nat {
    36
}

/// A hexadecimal digit, in either case.
pub open spec fn is_hex_digit(c: char) -> bool {
    ('0' <= c && c <= '9') || ('a' <= c && c <= 'f') || ('A' <= c && c <= 'F')
}

/// The positions of a key that hold a hyphen.
pub open spec fn is_hyphen_position(i: int) -> bool {
    i == 8 || i == 13 || i == 18 || i == 23
}

/// What position `i` of a key may hold.
pub open spec fn fits_key_position(c: char, i: int) -> bool {
    if is_hyphen_position(i) {
        c == '-'
    } else {
        is_hex_digit(c)
    }
}

/// The text is a key: 36 characters, hyphens at the four group boundaries and
/// hexadecimal digits everywhere else.
pub open spec fn has_key_shape(text: Seq<char>) -> bool {
    &&& text.len() == key_length()
    &&& forall|i: int| 0 <= i < text.len() ==> fits_key_position(#[trigger] text[i], i)
}

/// Compiles `pattern` with `regex::Regex::new` and searches `text` with
/// `Regex::is_match`; `None` stands for a pattern that does not compile.
///
/// Trusted, for the key pattern alone: by the regex crate's syntax (`^` and `$`
/// for the two ends of the haystack, `[0-9a-fA-F]` for one character of these
/// ranges, `{n}` for exactly `n` repetitions, `-` for itself) the pattern
/// compiles, and the search succeeds on the texts of key shape and on no other.
#[verifier::external_body]
fn pattern_is_match(pattern: &str, text: &str) -> (found: Option<bool>)
    requires
        pattern@ == KEY_PATTERN@,
    ensures
        found == Some(has_key_shape(text@)),
{
    match regex::Regex::new(pattern) {
        Ok(compiled) => Some(compiled.is_match(text)),
        Err(_) => None,
    }
}

/// Whether `text` is a key, decided by a search for [`KEY_PATTERN`].
pub fn matches_key_pattern(text: &str) -> (found: bool)
    ensures
        found == has_key_shape(text@),
{
    match pattern_is_match(KEY_PATTERN, text) {
        Some(found) => found,
        None => false,
    }
}

} // verus!
