use base64::Engine;
use vstd::prelude::*;

verus! {

/// base64's `DecodeError`, carried through opaquely.
#[verifier::external_type_specification]
#[verifier::external_body]
pub struct ExDecodeError(base64::DecodeError);

/// What base64's standard engine (standard alphabet, canonical padding)
/// decodes the text to, or `None` when it rejects the text.
pub uninterp spec fn standard_base64_decoded(text: Seq<char>) -> Option<Seq<u8>>;

/// Relies on `Engine::decode` of `base64::engine::general_purpose::STANDARD`:
/// the bytes that the text encodes, or an error when it is not valid base64.
#[verifier::external_body]
pub(crate) fn decode_standard(text: &str) -> (r: Result<Vec<u8>, base64::DecodeError>)
    ensures
        match r {
            Ok(bytes) => standard_base64_decoded(text@) == Some(bytes@),
            Err(_) => standard_base64_decoded(text@) is None,
        },
{
    base64::engine::general_purpose::STANDARD.decode(text)
}

/// Relies on the `Display` impl of `base64::DecodeError`, which describes
/// what was wrong with the input.
#[verifier::external_body]
pub(crate) fn decode_error_text(e: &base64::DecodeError) -> (r: String) {
    e.to_string()
}

} // verus!
