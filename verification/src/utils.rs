//! Character helpers: which characters a player can type, and lowercasing.

use vstd::prelude::*;

verus! {

/// A character the player can enter directly: an ASCII digit `0`-`9` or an
/// ASCII lowercase letter `a`-`z`.  Every other character of a target word
/// (spaces, punctuation) is appended to the input automatically.
pub open spec fn is_inputable(c: char) -> bool {
    (48 <= c as u32 && c as u32 <= 57) || (97 <= c as u32 && c as u32 <= 122)
}

/// Whether `c` is something the player can type: a digit or a lowercase letter.
pub fn is_inputable_char(c: char) -> (r: bool)
    ensures
        r == is_inputable(c),
{
    let u = c as u32;
    (48 <= u && u <= 57) || (97 <= u && u <= 122)
}

/// The first character of `c`'s Unicode lowercase mapping.
pub uninterp spec fn lower_char(c: char) -> char;

/// Relies on `char::to_lowercase` (std): yields the Unicode lowercase mapping
/// of `c`, a character with no mapping yielding itself.  In particular ASCII
/// digits and lowercase letters map to themselves, and ASCII uppercase
/// letters map to their lowercase counterparts.
#[verifier::external_body]
fn std_lower_char(c: char) -> (r: char)
    ensures
        r == lower_char(c),
        is_inputable(c) ==> r == c,
        65 <= c as u32 && c as u32 <= 90 ==> r as u32 == c as u32 + 32,
{
    c.to_lowercase().next().unwrap_or(c)
}

/// The first character of `c` lowercased, as the game compares guesses:
/// a typed guess is always lowercase, a target word's letter need not be.
pub fn to_lowercase(c: char) -> (r: char)
    ensures
        r == lower_char(c),
        is_inputable(c) ==> r == c,
        65 <= c as u32 && c as u32 <= 90 ==> r as u32 == c as u32 + 32,
{
    std_lower_char(c)
}

} // verus!
