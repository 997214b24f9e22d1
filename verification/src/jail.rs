//! The answers that the jail gives: the teapot, the plain-text deterrent, and the headers put
//! on a jail file once it has been read.
use vstd::prelude::*;

use crate::text::{chars_of, header_text, header_text_differs};

verus! {

/// A fixed answer: its status code and its body.
#[derive(Clone, Copy, Debug)]
pub struct CannedResponse {
    pub status: u16,
    pub body: &'static str,
}

/// The answer for requests that are only junk: `418 I'm a Teapot`.
pub fn teapot_response() -> (r: CannedResponse)
    ensures
        r.status == 418,
        r.body@ == "I'm a Teapot!"@,
{
    CannedResponse { status: 418, body: "I'm a Teapot!" }
}

/// The plain-text deterrent, answered with status 200.
pub fn deny_text_response() -> (r: CannedResponse)
    ensures
        r.status == 200,
        r.body@ == "rm -rf --no-preserve root /\n\n"@,
{
    CannedResponse { status: 200, body: "rm -rf --no-preserve root /\n\n" }
}

/// The headers that a jail file is sent with, over those that serving the file set.
#[derive(Clone, Copy, Debug)]
pub struct JailFileHeaders {
    /// A `Content-Type` to put in place of the one the file was served with, if any.
    pub content_type: Option<&'static str>,
    /// The `Cache-Control` value.
    pub cache_control: &'static str,
    /// The `Content-Disposition` value.
    pub content_disposition: &'static str,
}

/// The `Content-Type` that a jail file ends up with, given the text of the one it was served
/// with: plain text is declared UTF-8, anything else is kept.
pub open spec fn final_content_type(served: Option<Seq<char>>) -> Option<Seq<char>> {
    match served {
        Some(t) => if t == "text/plain"@ {
            Some("text/plain; charset=utf-8"@)
        } else {
            Some(t)
        },
        None => None,
    }
}

/// The headers for a jail file that was served with the `Content-Type` value `content_type`
/// (its bytes), if any: a plain-text type is replaced by the UTF-8 one, the response is never
/// stored, and it is shown inline.
pub fn jail_file_headers(content_type: Option<&[u8]>) -> (h: JailFileHeaders)
    ensures
        h.cache_control@ == "no-store"@,
        h.content_disposition@ == "inline"@,
        match content_type {
            Some(ct) => {
                &&& (header_text(ct@) == "text/plain"@) <==> h.content_type is Some
                &&& h.content_type matches Some(t) ==> Some(t@) == final_content_type(
                    Some(header_text(ct@)),
                )
            },
            None => h.content_type is None,
        },
{
    let replacement = match content_type {
        Some(ct) => {
            if header_text_differs(chars_of("text/plain").as_slice(), ct) {
                None
            } else {
                Some("text/plain; charset=utf-8")
            }
        },
        None => None,
    };
    JailFileHeaders {
        content_type: replacement,
        cache_control: "no-store",
        content_disposition: "inline",
    }
}

/// Putting the jail headers on a response twice gives what putting them on once gives.
pub proof fn lemma_content_type_fix_idempotent(served: Option<Seq<char>>)
    ensures
        final_content_type(final_content_type(served)) == final_content_type(served),
{
    reveal_strlit("text/plain");
    reveal_strlit("text/plain; charset=utf-8");
    assert("text/plain; charset=utf-8"@.len() != "text/plain"@.len());
}

} // verus!
