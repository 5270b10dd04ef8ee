//! Thumbnails as text: a data URI around a base64 payload.

use vstd::prelude::*;
use vstd::string::StringExecFns;
use crate::path::text_of;
use crate::text::owned;

verus! {

/// The base64 text of a byte string: standard alphabet, padded.
pub uninterp spec fn base64_text(bytes: Seq<u8>) -> Seq<char>;

/// Whether the base64 text of `len` bytes has a length that fits in `usize`.
pub open spec fn fits_base64(len: nat) -> bool {
    4 * ((len + 2) / 3) <= usize::MAX
}

/// The data URI of a payload under a MIME type.
pub open spec fn data_uri_text(mime: Seq<char>, payload: Seq<char>) -> Seq<char> {
    "data:"@ + mime + ";base64,"@ + payload
}

/// Whether a text is a data URI under the MIME type `mime`, whatever its
/// payload.
pub open spec fn is_data_uri(uri: Seq<char>, mime: Seq<char>) -> bool {
    exists|payload: Seq<char>| uri == #[trigger] data_uri_text(mime, payload)
}

/// The data URI that carries `bytes` under a MIME type, where one can be
/// made.
pub open spec fn data_uri_of(mime: Seq<char>, bytes: Seq<u8>) -> Option<Seq<char>> {
    if fits_base64(bytes.len()) {
        Some(data_uri_text(mime, base64_text(bytes)))
    } else {
        None
    }
}

/// `base64::Engine::encode` of the engine `general_purpose::STANDARD`: the
/// padded base64 text of the bytes. It panics where the length of that text
/// does not fit in `usize`.
#[verifier::external_body]
fn base64_standard(bytes: &[u8]) -> (r: String)
    requires
        fits_base64(bytes@.len()),
    ensures
        r@ == base64_text(bytes@),
{
    base64::Engine::encode(&base64::engine::general_purpose::STANDARD, bytes)
}

/// The base64 text of `bytes`, or `None` where its length would not fit in
/// `usize`.
pub fn encode_base64(bytes: &Vec<u8>) -> (r: Option<String>)
    ensures
        text_of(r) == if fits_base64(bytes@.len()) {
            Some(base64_text(bytes@))
        } else {
            None
        },
{
    if bytes.len() <= (usize::MAX / 4) * 3 {
        Some(base64_standard(bytes.as_slice()))
    } else {
        None
    }
}

/// The data URI that carries `bytes` under the MIME type `mime`, or `None`
/// where the payload would be too long to encode.
pub fn data_uri(mime: &str, bytes: &Vec<u8>) -> (r: Option<String>)
    ensures
        text_of(r) == data_uri_of(mime@, bytes@),
{
    match encode_base64(bytes) {
        Some(payload) => {
            let mut out = owned("data:");
            out.append(mime);
            out.append(";base64,");
            out.append(payload.as_str());
            Some(out)
        },
        None => None,
    }
}

} // verus!
