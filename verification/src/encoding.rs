//! The base64url transport encoding of token segments.

use base64::Engine;
use vstd::prelude::*;

verus! {

/// `base64::DecodeError`, opaque to Verus.
#[verifier::external_type_specification]
#[verifier::external_body]
pub struct ExDecodeError(base64::DecodeError);

/// What `base64`'s `URL_SAFE_NO_PAD` engine decodes a text to: the bytes, or
/// `None` where it reports an error.
pub uninterp spec fn base64url_decoding(text: Seq<char>) -> Option<Seq<u8>>;

/// Calls `Engine::decode` on `base64::engine::general_purpose::URL_SAFE_NO_PAD`.
///
/// Trusted: the outcome depends on the text alone, and is the one that
/// [`base64url_decoding`] names.
#[verifier::external_body]
pub(crate) fn decode_base64url(text: &str) -> (decoded: Result<Vec<u8>, base64::DecodeError>)
    ensures
        match decoded {
            Ok(bytes) => base64url_decoding(text@) == Some(bytes@),
            Err(_) => base64url_decoding(text@) is None,
        },
{
    base64::engine::general_purpose::URL_SAFE_NO_PAD.decode(text)
}

} // verus!
