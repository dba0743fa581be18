//! Media types: which texts the parser of `hyper` takes for one.

use vstd::prelude::*;
use vstd::utf8::is_ascii_chars;

verus! {

/// Whether the `FromStr` impl of `hyper::mime::Mime` accepts a text.
pub uninterp spec fn mime_accepts(text: Seq<char>) -> bool;

/// Calls the `FromStr` impl of `hyper::mime::Mime` and tells whether it
/// accepted the text. Trusted: the answer depends on the text alone. The
/// parser cuts the text at positions that it counts in characters, which
/// fails on some texts that are not ASCII; such texts are left out.
#[verifier::external_body]
fn accepts(text: &str) -> (r: bool)
    requires
        is_ascii_chars(text@),
    ensures
        r == mime_accepts(text@),
{
    text.parse::<hyper::mime::Mime>().is_ok()
}

/// Whether a text can stand as the content type of a reply: it is ASCII
/// and the parser takes it for a media type.
pub open spec fn media_type(text: Seq<char>) -> bool {
    is_ascii_chars(text) && mime_accepts(text)
}

/// Tells whether a text can stand as the content type of a reply.
pub fn is_media_type(text: &str) -> (r: bool)
    ensures
        r == media_type(text@),
{
    text.is_ascii() && accepts(text)
}

} // verus!
