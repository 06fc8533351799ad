//! Text helpers the steps share.

use vstd::prelude::*;

verus! {

/// The lowercase form of a text, as Unicode defines it.
pub uninterp spec fn lowercase_of(text: Seq<char>) -> Seq<char>;

/// `str::to_lowercase`: the result is the lowercase form of the whole input
/// and depends on nothing else.
#[verifier::external_body]
pub(crate) fn to_lowercase(text: &str) -> (lowered: String)
    ensures
        lowered@ == lowercase_of(text@),
{
    text.to_lowercase()
}

/// Two texts joined by a separator.
pub open spec fn joined(left: Seq<char>, separator: Seq<char>, right: Seq<char>) -> Seq<char> {
    left + separator + right
}

/// Builds `left`, `separator` and `right` as one string.
pub fn join(left: &str, separator: &str, right: &str) -> (text: String)
    ensures
        text@ == joined(left@, separator@, right@),
{
    let mut text = String::from_str(left);
    text.append(separator);
    text.append(right);
    text
}

} // verus!
