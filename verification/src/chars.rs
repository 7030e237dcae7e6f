//! The character predicate: control code points that are not whitespace.

use vstd::prelude::*;

verus! {

/// Code points of the general category Cc: the C0 controls, DEL and the C1
/// controls.
pub open spec fn is_control(c: char) -> bool {
    let n = c as u32;
    n <= 0x1F || 0x7F <= n <= 0x9F
}

/// Code points with the Unicode property White_Space.
pub open spec fn is_whitespace(c: char) -> bool {
    let n = c as u32;
    ||| 0x09 <= n <= 0x0D
    ||| n == 0x20
    ||| n == 0x85
    ||| n == 0xA0
    ||| n == 0x1680
    ||| 0x2000 <= n <= 0x200A
    ||| n == 0x2028
    ||| n == 0x2029
    ||| n == 0x202F
    ||| n == 0x205F
    ||| n == 0x3000
}

/// A code point is flagged when it is a control and not whitespace.
pub open spec fn is_flagged(c: char) -> bool {
    is_control(c) && !is_whitespace(c)
}

/// A text is flagged when one of its code points is.
pub open spec fn has_flagged(s: Seq<char>) -> bool {
    exists|i: int| 0 <= i < s.len() && is_flagged(#[trigger] s[i])
}

/// Every control in the text is a tab, a line feed or a carriage return.
pub open spec fn only_formatting_controls(s: Seq<char>) -> bool {
    forall|i: int|
        0 <= i < s.len() && is_control(#[trigger] s[i]) ==> s[i] == '\t' || s[i] == '\n' || s[i]
            == '\r'
}

/// `char::is_control`: true exactly on the code points of category Cc,
/// U+0000 to U+001F and U+007F to U+009F. Not proved.
#[verifier::external_body]
fn char_is_control(c: char) -> (r: bool)
    ensures
        r == is_control(c),
{
    c.is_control()
}

/// `char::is_whitespace`: true exactly on the code points with the property
/// White_Space, as `is_whitespace` lists them. Not proved.
#[verifier::external_body]
fn char_is_whitespace(c: char) -> (r: bool)
    ensures
        r == is_whitespace(c),
{
    c.is_whitespace()
}

/// Tells whether one code point is a control other than whitespace.
pub fn is_flagged_char(c: char) -> (r: bool)
    ensures
        r == is_flagged(c),
{
    char_is_control(c) && !char_is_whitespace(c)
}

/// Tells whether any code point of `s` is a control other than whitespace.
pub fn contains_control_chars(s: &str) -> (r: bool)
    ensures
        r == has_flagged(s@),
{
    for c in it: s.chars()
        invariant
            it.seq() == s@,
            forall|j: int| 0 <= j < it.index() ==> !is_flagged(#[trigger] s@[j]),
    {
        if is_flagged_char(c) {
            return true;
        }
    }
    false
}

/// The flagged code points are U+0000 to U+0008, U+000E to U+001F, U+007F
/// to U+0084 and U+0086 to U+009F, and no others.
pub proof fn lemma_flagged_ranges(c: char)
    ensures
        is_flagged(c) <==> {
            let n = c as u32;
            n <= 0x08 || 0x0E <= n <= 0x1F || 0x7F <= n <= 0x84 || 0x86 <= n <= 0x9F
        },
{
}

/// A text whose only controls are tab, line feed and carriage return is not
/// flagged.
pub proof fn lemma_plain_formatting_not_flagged(s: Seq<char>)
    requires
        only_formatting_controls(s),
    ensures
        !has_flagged(s),
{
}

} // verus!
