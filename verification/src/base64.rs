//! Base64 decoding, done by `data_encoding`. Nothing in this file is
//! proved: each item states what the outside function is taken to do.

use vstd::prelude::*;

verus! {

/// The error that `data_encoding` gives for a text that is not base64.
#[verifier::external_type_specification]
#[verifier::external_body]
pub struct ExDecodeError(data_encoding::DecodeError);

/// The bytes that `data_encoding::BASE64.decode` gives for the UTF-8 bytes
/// of `text` (standard alphabet, padding required), or `None` where it
/// reports an error.
pub uninterp spec fn base64_decoded(text: Seq<char>) -> Option<Seq<u8>>;

/// Calls `data_encoding::BASE64.decode` on the bytes of `text`. The result
/// is taken to depend on the text alone: it is `Ok` with the bytes exactly
/// where `base64_decoded` names them.
#[verifier::external_body]
pub(crate) fn decode_base64(text: &str) -> (decoded: Result<Vec<u8>, data_encoding::DecodeError>)
    ensures
        match decoded {
            Ok(bytes) => base64_decoded(text@) == Some(bytes@),
            Err(_) => base64_decoded(text@) is None,
        },
{
    data_encoding::BASE64.decode(text.as_bytes())
}

} // verus!
