//! Decoding of image payloads on their way to a vision model: the
//! transport encoding (base64 text) and the picture encoding (PNG, JPEG
//! and friends) are undone by outside crates behind trusted wrappers, and
//! the surrounding logic maps their failures into the library's errors.
use vstd::prelude::*;
use vstd::string::*;

use crate::model::ModelError;

verus! {

#[verifier::external_type_specification]
#[verifier::external_body]
pub struct ExDecodeError(base64::DecodeError);

#[verifier::external_type_specification]
#[verifier::external_body]
pub struct ExImageError(image::ImageError);

#[verifier::external_type_specification]
#[verifier::external_body]
pub struct ExDynamicImage(image::DynamicImage);

/// The bytes that standard base64 text decodes to, where it decodes at
/// all.
pub uninterp spec fn b64_decoded(s: Seq<char>) -> Seq<u8>;

/// Relies on base64's standard-alphabet engine `decode`: the bytes are a
/// function of the input text alone.
#[verifier::external_body]
fn b64_decode(s: &str) -> (r: Result<Vec<u8>, base64::DecodeError>)
    ensures
        r matches Ok(v) ==> v@ == b64_decoded(s@),
{
    base64::Engine::decode(&base64::engine::general_purpose::STANDARD, s)
}

/// Relies on image's `load_from_memory`, which guesses the picture format
/// and decodes the bytes; the decoded image stays opaque here and is only
/// carried through to the engine.
#[verifier::external_body]
fn image_from_bytes(bytes: &Vec<u8>) -> (r: Result<image::DynamicImage, image::ImageError>) {
    image::load_from_memory(bytes.as_slice())
}

/// Undoes the transport encoding of an image payload.
pub fn decode_image_payload(payload: &str) -> (r: Result<Vec<u8>, ModelError>)
    ensures
        r matches Ok(v) ==> v@ == b64_decoded(payload@),
        r matches Err(e) ==> e matches ModelError::Base64Error(m) && m@
            == "invalid base64 image payload"@,
{
    match b64_decode(payload) {
        Ok(v) => Ok(v),
        Err(_) => Err(ModelError::Base64Error(String::from_str("invalid base64 image payload"))),
    }
}

/// Decodes image bytes into the engine's picture value, classifying a
/// failure as an image error.
pub fn decode_image(bytes: &Vec<u8>) -> (r: Result<image::DynamicImage, ModelError>)
    ensures
        r matches Err(e) ==> e matches ModelError::ImageError(m) && m@
            == "unsupported or corrupt image data"@,
{
    match image_from_bytes(bytes) {
        Ok(img) => Ok(img),
        Err(_) => Err(
            ModelError::ImageError(String::from_str("unsupported or corrupt image data")),
        ),
    }
}

} // verus!
