//! The mock encryption endpoint: it encodes the submitted data in base64.

use vstd::prelude::*;
use base64::Engine;

verus! {

/// A form submitting data to encrypt under an entity's key.
#[derive(Debug)]
pub struct EncryptRequest {
    pub json_data: String,
    pub entity_key: String,
}

/// The standard (padded) base64 encoding of `data`, as the base64 crate computes it.
pub uninterp spec fn base64_standard(data: Seq<u8>) -> Seq<char>;

/// Whether base64 can encode `len` bytes: the padded encoded length,
/// four characters per started group of three bytes, must fit in `usize`.
pub open spec fn base64_encodable(len: nat) -> bool {
    (len / 3) * 4 + 4 <= usize::MAX
}

/// The standard base64 encoding of `data`.
///
/// Wraps `base64::Engine::encode` on `base64::engine::general_purpose::STANDARD`.
/// The result is named [`base64_standard`]; by the crate's `encoded_len`,
/// which `encode` uses to size its output, it has four characters for each
/// started group of three bytes. `encode` panics where that length overflows
/// `usize`, hence the bound.
#[verifier::external_body]
fn base64_encode(data: &[u8]) -> (s: String)
    requires
        base64_encodable(data@.len()),
    ensures
        s@ == base64_standard(data@),
        s@.len() == (data@.len() + 2) / 3 * 4,
{
    base64::engine::general_purpose::STANDARD.encode(data)
}

/// The "encryption" of the submitted data: its UTF-8 bytes in standard base64.
/// The entity key is not used.
pub fn encrypt_with_key(form: &EncryptRequest) -> (s: String)
    requires
        base64_encodable(vstd::utf8::encode_utf8(form.json_data@).len()),
    ensures
        s@ == base64_standard(vstd::utf8::encode_utf8(form.json_data@)),
{
    base64_encode(form.json_data.as_str().as_bytes())
}

} // verus!
