//! Lengths of text as the ledger stores it: in bytes of UTF-8.

use vstd::prelude::*;
use vstd::string::StrSliceExecFns;
use vstd::utf8::encode_utf8;

verus! {

/// The number of bytes that a text takes when stored.
pub open spec fn stored_len(text: Seq<char>) -> nat {
    encode_utf8(text).len()
}

/// The number of bytes that `text` takes when stored.
pub fn byte_len(text: &str) -> (r: usize)
    ensures
        r == stored_len(text@),
{
    text.as_bytes().len()
}

/// Whether a character is a letter or a digit of any script.
pub uninterp spec fn is_alphanumeric(c: char) -> bool;

/// `char::is_alphanumeric` of std: whether the character is a letter or a
/// digit is a function of the character alone.
#[verifier::external_body]
fn char_is_alphanumeric(c: char) -> (r: bool)
    ensures
        r == is_alphanumeric(c),
{
    c.is_alphanumeric()
}

/// Whether a character may stand in a name: a letter, a digit, a space or
/// an underscore.
pub open spec fn is_name_char(c: char) -> bool {
    is_alphanumeric(c) || c == ' ' || c == '_'
}

/// Whether every character of a text may stand in a name.
pub open spec fn is_name_text(text: Seq<char>) -> bool {
    forall|i: int| 0 <= i < text.len() ==> is_name_char(#[trigger] text[i])
}

/// Whether every character of `text` may stand in a name; true of the
/// empty text.
pub fn all_name_chars(text: &str) -> (r: bool)
    ensures
        r == is_name_text(text@),
{
    let n = text.unicode_len();
    let mut i: usize = 0;
    while i < n
        invariant
            i <= n,
            n == text@.len(),
            forall|j: int| 0 <= j < i ==> is_name_char(#[trigger] text@[j]),
        decreases n - i,
    {
        let c = text.get_char(i);
        if !(char_is_alphanumeric(c) || c == ' ' || c == '_') {
            return false;
        }
        i += 1;
    }
    true
}

} // verus!
