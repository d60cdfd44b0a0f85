//! The few facts about Unicode scalar values that the host ABI needs.
use vstd::prelude::*;

verus! {

/// Whether `v` is a Unicode scalar value, the values a `char` can hold.
pub open spec fn is_unicode_scalar(v: u32) -> bool {
    v <= 0xD7FF || (0xE000 <= v && v <= 0x10FFFF)
}

/// The `char` whose scalar value is `v` (meaningful when `v` is a scalar value).
pub open spec fn char_of(v: u32) -> char {
    choose|c: char| #[trigger] scalar_of(c) == v
}

/// The scalar value of a `char`.
pub open spec fn scalar_of(c: char) -> u32 {
    c as u32
}

/// A `char` is the `char` of its own scalar value.
pub proof fn lemma_char_of_scalar(c: char)
    ensures
        char_of(c as u32) == c,
{
    assert(scalar_of(c) == c as u32);
    let d = char_of(c as u32);
    assert(scalar_of(d) == c as u32);
}

/// Whether `c` has the general category for control codes (Cc), which is
/// exactly U+0000 to U+001F and U+007F to U+009F.
pub open spec fn char_is_control(c: char) -> bool {
    let v = c as u32;
    v <= 0x1F || (0x7F <= v && v <= 0x9F)
}

/// Whether `c` has the Unicode `White_Space` property: the 25 code points
/// U+0009 to U+000D, U+0020, U+0085, U+00A0, U+1680, U+2000 to U+200A,
/// U+2028, U+2029, U+202F, U+205F and U+3000.
pub open spec fn char_is_whitespace(c: char) -> bool {
    let v = c as u32;
    ||| (0x09 <= v && v <= 0x0D)
    ||| v == 0x20
    ||| v == 0x85
    ||| v == 0xA0
    ||| v == 0x1680
    ||| (0x2000 <= v && v <= 0x200A)
    ||| v == 0x2028
    ||| v == 0x2029
    ||| v == 0x202F
    ||| v == 0x205F
    ||| v == 0x3000
}

/// `char::from_u32`: a `char` exactly for Unicode scalar values, holding that value.
#[verifier::external_body]
pub(crate) fn char_from_u32(v: u32) -> (r: Option<char>)
    ensures
        r is Some <==> is_unicode_scalar(v),
        r matches Some(c) ==> c as u32 == v,
{
    char::from_u32(v)
}

/// `char::is_control`: whether `c` is a control code (category Cc).
#[verifier::external_body]
pub(crate) fn is_control(c: char) -> (b: bool)
    ensures
        b == char_is_control(c),
{
    c.is_control()
}

/// `char::is_whitespace`: whether `c` has the `White_Space` property.
#[verifier::external_body]
pub(crate) fn is_whitespace(c: char) -> (b: bool)
    ensures
        b == char_is_whitespace(c),
{
    c.is_whitespace()
}

} // verus!
