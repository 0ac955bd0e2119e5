//! Unpadded URL-safe base64, as used for token segments and key components.

use base64::Engine;
use vstd::prelude::*;

verus! {

/// The unpadded URL-safe base64 text that stands for `bytes`.
pub uninterp spec fn base64url_text(bytes: Seq<u8>) -> Seq<char>;

/// The bytes that `text` stands for in unpadded URL-safe base64, if it is such a text.
pub uninterp spec fn base64url_bytes(text: Seq<char>) -> Option<Seq<u8>>;

/// Encodes `bytes` with `base64::engine::general_purpose::URL_SAFE_NO_PAD`.
///
/// Trusted: the result is what the `base64` crate's `Engine::encode` returns for these
/// bytes, which this library calls `base64url_text`. The call only panics when the
/// encoded length overflows `usize`, which no slice in memory is long enough to cause.
#[verifier::external_body]
pub(crate) fn encode(bytes: &[u8]) -> (text: String)
    ensures
        text@ == base64url_text(bytes@),
{
    base64::engine::general_purpose::URL_SAFE_NO_PAD.encode(bytes)
}

/// Decodes `text` with `base64::engine::general_purpose::URL_SAFE_NO_PAD`.
///
/// Trusted: the result is what the `base64` crate's `Engine::decode` returns for this
/// text, with every decoding error mapped to `None`; this library calls that
/// `base64url_bytes`.
#[verifier::external_body]
pub(crate) fn decode(text: &str) -> (bytes: Option<Vec<u8>>)
    ensures
        match bytes {
            Some(b) => base64url_bytes(text@) == Some(b@),
            None => base64url_bytes(text@).is_none(),
        },
{
    base64::engine::general_purpose::URL_SAFE_NO_PAD.decode(text).ok()
}

} // verus!
