//! Region codec: maps a two-letter region code to its flag glyph pair by
//! offsetting each letter into the Unicode regional-indicator block.

use vstd::prelude::*;

verus! {

use vstd::string::StringExecFns;
use crate::text::{to_chars, upper_char};

/// A Unicode scalar value: what a `char` can hold.
pub open spec fn valid_scalar(u: int) -> bool {
    (0 <= u < 0xD800) || (0xE000 <= u <= 0x10FFFF)
}

/// Relies on std's `char::from_u32`: `Some` exactly on Unicode scalar
/// values, and then returns the character with that code.
pub assume_specification[ char::from_u32 ](u: u32) -> (r: Option<char>)
    ensures
        r is Some <==> valid_scalar(u as int),
        r matches Some(c) ==> c as u32 == u,
;

/// The regional-indicator code for a letter: `A`..`Z` land on the indicator
/// block; any other character degrades to an unspecified nearby code.
pub open spec fn indicator_code(c: char) -> int {
    0x1F1E6 + (upper_char(c) as int) - 65
}

/// The flag glyph pair for a region code: empty for input shorter than two
/// characters, and for the rare characters whose offset is no scalar value.
pub open spec fn flag_of(code: Seq<char>) -> Seq<char> {
    if code.len() < 2 {
        Seq::empty()
    } else {
        let u1 = indicator_code(code[0]);
        let u2 = indicator_code(code[1]);
        if valid_scalar(u1) && valid_scalar(u2) {
            seq![u1 as char, u2 as char]
        } else {
            Seq::empty()
        }
    }
}

/// An ASCII letter.
pub open spec fn is_ascii_letter(c: char) -> bool {
    ('A' <= c && c <= 'Z') || ('a' <= c && c <= 'z')
}

/// Law: the codec is a function of the code alone, and on a two-letter
/// alphabetic code the flag is exactly two glyph code points.
pub proof fn lemma_flag_two_glyphs(code: Seq<char>)
    requires
        code.len() == 2,
        is_ascii_letter(code[0]),
        is_ascii_letter(code[1]),
    ensures
        flag_of(code).len() == 2,
{
    assert(0x1F1E6 <= indicator_code(code[0]) <= 0x1F1FF);
    assert(0x1F1E6 <= indicator_code(code[1]) <= 0x1F1FF);
}

/// Law: input shorter than two characters yields the empty string.
pub proof fn lemma_flag_short_input(code: Seq<char>)
    requires
        code.len() < 2,
    ensures
        flag_of(code).len() == 0,
{
}

/// ASCII upper-casing, executable form.
pub fn upper_char_exec(c: char) -> (r: char)
    ensures
        r == upper_char(c),
{
    let u = c as u32;
    if 97 <= u && u <= 122 {
        ((u - 32) as u8) as char
    } else {
        c
    }
}

/// Converts a region code to its flag glyphs.
pub fn country_code_to_emoji(country_code: &str) -> (r: String)
    ensures
        r@ == flag_of(country_code@),
{
    let chars = to_chars(country_code);
    if chars.len() < 2 {
        return String::new();
    }
    let c1 = upper_char_exec(chars[0]);
    let c2 = upper_char_exec(chars[1]);
    let u1 = 0x1F1A5u32 + (c1 as u32);
    let u2 = 0x1F1A5u32 + (c2 as u32);
    assert(u1 as int == indicator_code(country_code@[0]));
    assert(u2 as int == indicator_code(country_code@[1]));
    match (char::from_u32(u1), char::from_u32(u2)) {
        (Some(f1), Some(f2)) => {
            let mut s = String::new();
            s.push(f1);
            s.push(f2);
            proof {
                vstd::utf8::char_u32_cast(f1, u1);
                vstd::utf8::char_u32_cast(f2, u2);
            }
            assert(f1 == (u1 as int) as char && f2 == (u2 as int) as char);
            assert(s@ =~= flag_of(country_code@));
            s
        }
        _ => String::new(),
    }
}

/// The region label shown to callers: flag glyphs followed by the code
/// itself.
pub open spec fn region_label_of(code: Seq<char>) -> Seq<char> {
    flag_of(code) + code
}

/// Builds the flag-plus-code label for a region code.
pub fn region_label(code: &str) -> (r: String)
    ensures
        r@ == region_label_of(code@),
{
    let mut s = country_code_to_emoji(code);
    s.append(code);
    s
}

} // verus!
