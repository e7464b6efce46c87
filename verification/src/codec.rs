//! Base64 in the standard alphabet with padding, as hashes travel in JSON.

use vstd::prelude::*;

verus! {

/// Why a text is not valid base64, as the `base64` crate reports it.
#[verifier::external_type_specification]
pub struct ExDecodeError(base64::DecodeError);

/// The bytes that a text stands for in base64 (standard alphabet, padded),
/// or the reason why the text is not valid.
pub uninterp spec fn base64_decoded(text: Seq<char>) -> Result<Seq<u8>, base64::DecodeError>;

/// The base64 text (standard alphabet, padded) of a byte string.
pub uninterp spec fn base64_encoded(bytes: Seq<u8>) -> Seq<char>;

/// The longest byte string whose base64 text still has a length that fits.
pub open spec fn encodable_len() -> int {
    usize::MAX / 4 * 3
}

/// `Engine::decode` of the `base64` crate on its `STANDARD` engine: the
/// decoded bytes where the text is valid, the crate's error where it is not.
#[verifier::external_body]
pub(crate) fn decode_standard(text: &str) -> (decoded: Result<Vec<u8>, base64::DecodeError>)
    ensures
        match decoded {
            Ok(bytes) => base64_decoded(text@) == Ok::<Seq<u8>, base64::DecodeError>(bytes@),
            Err(error) => base64_decoded(text@) == Err::<Seq<u8>, base64::DecodeError>(error),
        },
{
    base64::Engine::decode(&base64::prelude::BASE64_STANDARD, text)
}

/// `Engine::encode` of the `base64` crate on its `STANDARD` engine. The crate
/// panics where the length of the text would overflow, so longer inputs are
/// left out.
#[verifier::external_body]
pub(crate) fn encode_standard(bytes: &[u8]) -> (text: String)
    requires
        bytes@.len() <= encodable_len(),
    ensures
        text@ == base64_encoded(bytes@),
{
    base64::Engine::encode(&base64::prelude::BASE64_STANDARD, bytes)
}

} // verus!
