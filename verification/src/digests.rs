//! Message digests: MD5, SHA-256 and SHA-512 over a string's UTF-8 bytes,
//! rendered in a chosen binary-to-text encoding.

use vstd::prelude::*;

use sha2::Digest;

use crate::encodings::{
    normalize_hash_encoding, spec_base64, spec_encoding_of, spec_hex_encode, BinaryEncoding,
};
use crate::errors::CryptoError;
use vstd::utf8::encode_utf8;

verus! {

/// What MD5 makes of a byte string: a pure function of the bytes.
pub uninterp spec fn md5_of(bytes: Seq<u8>) -> Seq<u8>;

/// What SHA-256 makes of a byte string: a pure function of the bytes.
pub uninterp spec fn sha256_of(bytes: Seq<u8>) -> Seq<u8>;

/// What SHA-512 makes of a byte string: a pure function of the bytes.
pub uninterp spec fn sha512_of(bytes: Seq<u8>) -> Seq<u8>;

/// Relies on the `md-5` crate's `Md5::digest`: a sixteen-byte digest that
/// depends on the input bytes alone.
#[verifier::external_body]
pub fn digest_md5(input: &str) -> (r: Vec<u8>)
    ensures
        r@ == md5_of(encode_utf8(input@)),
        r@.len() == 16,
{
    md5::Md5::digest(input.as_bytes()).to_vec()
}

/// Relies on the `sha2` crate's `Sha256::digest`: a thirty-two-byte digest
/// that depends on the input bytes alone.
#[verifier::external_body]
pub fn digest_sha256(input: &str) -> (r: Vec<u8>)
    ensures
        r@ == sha256_of(encode_utf8(input@)),
        r@.len() == 32,
{
    sha2::Sha256::digest(input.as_bytes()).to_vec()
}

/// Relies on the `sha2` crate's `Sha512::digest`: a sixty-four-byte digest
/// that depends on the input bytes alone.
#[verifier::external_body]
pub fn digest_sha512(input: &str) -> (r: Vec<u8>)
    ensures
        r@ == sha512_of(encode_utf8(input@)),
        r@.len() == 64,
{
    sha2::Sha512::digest(input.as_bytes()).to_vec()
}

/// A digest rendered in an encoding.
pub open spec fn spec_digest_text(digest: Seq<u8>, enc: BinaryEncoding) -> Seq<char> {
    match enc {
        BinaryEncoding::Hex => spec_hex_encode(digest),
        BinaryEncoding::Base64 => spec_base64(digest),
    }
}

/// The encoding a digest call's optional argument resolves to, hex by default.
pub open spec fn spec_hash_encoding(encoding: Option<String>) -> Option<BinaryEncoding> {
    match encoding {
        None => Some(BinaryEncoding::Hex),
        Some(v) => spec_encoding_of(v@),
    }
}

/// The MD5 digest of the input's UTF-8 bytes, hex by default.
pub fn md5(input: String, encoding: Option<String>) -> (r: Result<String, CryptoError>)
    ensures
        match spec_hash_encoding(encoding) {
            Some(enc) => r matches Ok(s) && s@ == spec_digest_text(
                md5_of(encode_utf8(input@)),
                enc,
            ),
            None => r matches Err(e) && e == CryptoError::UnsupportedEncoding,
        },
{
    let digest = digest_md5(input.as_str());
    let mode = match normalize_hash_encoding(encoding) {
        Ok(m) => m,
        Err(e) => {
            return Err(e);
        },
    };
    Ok(crate::encodings::encode_bytes(digest.as_slice(), &mode))
}

/// The SHA-256 digest of the input's UTF-8 bytes, hex by default.
pub fn sha256(input: String, encoding: Option<String>) -> (r: Result<String, CryptoError>)
    ensures
        match spec_hash_encoding(encoding) {
            Some(enc) => r matches Ok(s) && s@ == spec_digest_text(
                sha256_of(encode_utf8(input@)),
                enc,
            ),
            None => r matches Err(e) && e == CryptoError::UnsupportedEncoding,
        },
{
    let digest = digest_sha256(input.as_str());
    let mode = match normalize_hash_encoding(encoding) {
        Ok(m) => m,
        Err(e) => {
            return Err(e);
        },
    };
    Ok(crate::encodings::encode_bytes(digest.as_slice(), &mode))
}

/// The SHA-512 digest of the input's UTF-8 bytes, hex by default.
pub fn sha512(input: String, encoding: Option<String>) -> (r: Result<String, CryptoError>)
    ensures
        match spec_hash_encoding(encoding) {
            Some(enc) => r matches Ok(s) && s@ == spec_digest_text(
                sha512_of(encode_utf8(input@)),
                enc,
            ),
            None => r matches Err(e) && e == CryptoError::UnsupportedEncoding,
        },
{
    let digest = digest_sha512(input.as_str());
    let mode = match normalize_hash_encoding(encoding) {
        Ok(m) => m,
        Err(e) => {
            return Err(e);
        },
    };
    Ok(crate::encodings::encode_bytes(digest.as_slice(), &mode))
}

} // verus!
