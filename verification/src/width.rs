//! Display-width classification of codepoints.
//!
//! A glyph occupies one terminal cell when its display width is one column
//! and two cells when it is two or more (East Asian wide and fullwidth
//! forms). Codepoints whose width is unresolvable (control characters) are
//! deliberately treated as wide, not narrow; codes that are no Unicode
//! scalar value (surrogates, codes above the last codepoint) are narrow.

use vstd::prelude::*;

verus! {

/// Whether a `u32` is a Unicode scalar value, that is, the code of some
/// `char`: not a surrogate and at most the last codepoint.
pub open spec fn is_scalar_value(ch: u32) -> bool {
    ch < 0xD800 || (0xE000 <= ch && ch <= 0x10FFFF)
}

/// The display width in columns that the East Asian Width tables assign to
/// the character with code `ch`, `None` for control characters. The tables
/// run to many pages, so the value is named rather than written out; it is
/// a function of the code alone.
pub uninterp spec fn display_width(ch: u32) -> Option<usize>;

/// Relies on `unicode_width::UnicodeWidthChar::width`, a pure table lookup
/// on the character, for the width of a codepoint; `char::from_u32` turns
/// the code into that character and, per its documentation, returns `None`
/// exactly when the code is no Unicode scalar value.
#[verifier::external_body]
fn codepoint_width(ch: u32) -> (r: Option<Option<usize>>)
    ensures
        r is Some <==> is_scalar_value(ch),
        r is Some ==> r->0 == display_width(ch),
{
    match char::from_u32(ch) {
        Some(c) => Some(unicode_width::UnicodeWidthChar::width(c)),
        None => None,
    }
}

/// Whether the codepoint `ch` occupies two terminal cells: its display
/// width is two or more, or is unresolvable; codes that name no character
/// are narrow.
pub open spec fn wide_spec(ch: u32) -> bool {
    if is_scalar_value(ch) {
        match display_width(ch) {
            Some(w) => w >= 2,
            None => true,
        }
    } else {
        false
    }
}

/// How many terminal cells a codepoint occupies.
pub open spec fn glyph_step(wide: bool) -> int {
    if wide {
        2
    } else {
        1
    }
}

/// Classifies a codepoint as double-width (two terminal cells) or narrow.
pub fn wide_test(ch: u32) -> (r: bool)
    ensures
        r == wide_spec(ch),
{
    match codepoint_width(ch) {
        Some(Some(w)) => w >= 2,
        Some(None) => true,
        None => false,
    }
}

} // verus!
