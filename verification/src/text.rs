//! Text helpers on top of `String`.

use vstd::prelude::*;
use vstd::string::*;

verus! {

/// `String::push` of the standard library: appends `c` to the end of `text`
/// and leaves the characters before it as they were.
#[verifier::external_body]
pub(crate) fn push_char(text: &mut String, c: char)
    ensures
        final(text)@ == old(text)@.push(c),
{
    text.push(c);
}

/// The text with `c` put in before the character at `at`, or at the end
/// where `at` is the length.
pub fn insert_char(text: &str, at: usize, c: char) -> (out: String)
    requires
        at <= text@.len(),
    ensures
        out@ == text@.insert(at as int, c),
{
    let len = text.unicode_len();
    let head = text.substring_char(0, at);
    let tail = text.substring_char(at, len);
    let mut out = String::from_str(head);
    push_char(&mut out, c);
    out.append(tail);
    out
}

/// The text without the character at `at`.
pub fn remove_char(text: &str, at: usize) -> (out: String)
    requires
        at < text@.len(),
    ensures
        out@ == text@.remove(at as int),
{
    let len = text.unicode_len();
    let head = text.substring_char(0, at);
    let tail = text.substring_char(at + 1, len);
    let mut out = String::from_str(head);
    out.append(tail);
    out
}

/// `inner` with one blank before it and one behind it.
pub fn padded(inner: &str) -> (out: String)
    ensures
        out@ == " "@ + inner@ + " "@,
{
    let mut out = String::from_str(" ");
    out.append(inner);
    out.append(" ");
    out
}

} // verus!
