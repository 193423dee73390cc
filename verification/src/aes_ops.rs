//! AES-256-CBC with PKCS#7 padding: the key is the SHA-256 digest of the
//! caller's key string, the initialization vector is drawn fresh per
//! encryption and travels beside the ciphertext as hex.

use vstd::prelude::*;

use cbc::cipher::block_padding::Pkcs7;
use cbc::cipher::{BlockDecryptMut, BlockEncryptMut, KeyIvInit};

use crate::digests::{digest_sha256, sha256_of, spec_digest_text};
use crate::encodings::{
    decode_bytes_with_optional_encoding, encode_bytes, hex_decode_str, hex_encode_bytes,
    lemma_hex_decode_len, lemma_hex_encode_props, normalize_binary_encoding, spec_base64,
    spec_cipher_encoding, spec_encoding_of, spec_hex_decode, valid_hex, BinaryEncoding,
};
use crate::errors::CryptoError;
use vstd::utf8::{decode_utf8, encode_utf8, valid_utf8};

verus! {

/// What the AES-256-CBC/PKCS#7 encryptor makes of key, IV and plaintext:
/// a pure function of the three.
pub uninterp spec fn aes_cbc_encrypt_of(key: Seq<u8>, iv: Seq<u8>, data: Seq<u8>) -> Seq<u8>;

/// What the AES-256-CBC/PKCS#7 decryptor makes of key, IV and ciphertext:
/// the plaintext, or nothing when the padding check fails.
pub uninterp spec fn aes_cbc_decrypt_of(key: Seq<u8>, iv: Seq<u8>, data: Seq<u8>) -> Option<
    Seq<u8>,
>;

/// Relies on `cbc::Encryptor<aes::Aes256>` with PKCS#7 padding: the result
/// depends on key, IV and input alone, is the input padded up to the next
/// whole block, and decrypts back to the input under the same key and IV.
/// The buffer is sized for the padding, so encryption cannot fail.
#[verifier::external_body]
fn aes_cbc_encrypt(input: &[u8], key: &[u8], iv: &[u8]) -> (r: Result<Vec<u8>, ()>)
    requires
        key@.len() == 32,
        iv@.len() == 16,
    ensures
        r is Ok,
        r matches Ok(v) ==> v@ == aes_cbc_encrypt_of(key@, iv@, input@),
        r matches Ok(v) ==> v@.len() == 16 * (input@.len() / 16 + 1),
        r matches Ok(v) ==> aes_cbc_decrypt_of(key@, iv@, v@) == Some(input@),
{
    let cipher = cbc::Encryptor::<aes::Aes256>::new_from_slices(key, iv).map_err(|_| ())?;
    let mut buffer = vec![0u8; input.len() + 16];
    buffer[..input.len()].copy_from_slice(input);
    let encrypted = cipher.encrypt_padded_mut::<Pkcs7>(&mut buffer, input.len()).map_err(
        |_| (),
    )?;
    Ok(encrypted.to_vec())
}

/// Relies on `cbc::Decryptor<aes::Aes256>` with PKCS#7 padding: the outcome
/// depends on key, IV and input alone; a failed padding check is the error.
#[verifier::external_body]
fn aes_cbc_decrypt(input: &[u8], key: &[u8], iv: &[u8]) -> (r: Result<Vec<u8>, ()>)
    requires
        key@.len() == 32,
        iv@.len() == 16,
    ensures
        match aes_cbc_decrypt_of(key@, iv@, input@) {
            Some(p) => r matches Ok(v) && v@ == p,
            None => r is Err,
        },
{
    let cipher = cbc::Decryptor::<aes::Aes256>::new_from_slices(key, iv).map_err(|_| ())?;
    let mut buffer = input.to_vec();
    let decrypted = cipher.decrypt_padded_mut::<Pkcs7>(&mut buffer).map_err(|_| ())?;
    Ok(decrypted.to_vec())
}

/// Relies on rand's `OsRng::fill_bytes`: the buffer is filled; nothing is
/// promised of the values, which are drawn from the operating system.
#[verifier::external_body]
fn os_random_bytes(n: usize) -> (r: Vec<u8>)
    ensures
        r@.len() == n as nat,
{
    let mut buf = vec![0u8; n];
    rand::RngCore::fill_bytes(&mut rand::rngs::OsRng, &mut buf);
    buf
}

/// The AES key a key string derives to: its SHA-256 digest.
pub fn derive_aes_key(key: &str) -> (r: Vec<u8>)
    ensures
        r@ == sha256_of(encode_utf8(key@)),
        r@.len() == 32,
{
    digest_sha256(key)
}

/// Validates an initialization vector: exactly thirty-two hex characters,
/// decoding to sixteen bytes.
pub fn normalize_aes_iv(iv_hex: &str) -> (r: Result<Vec<u8>, CryptoError>)
    ensures
        iv_hex@.len() != 32 ==> (r matches Err(e) && e == CryptoError::InvalidIvLength),
        iv_hex@.len() == 32 && !valid_hex(iv_hex@) ==> (r matches Err(e) && e
            == CryptoError::InvalidIvHex),
        iv_hex@.len() == 32 && valid_hex(iv_hex@) ==> (r matches Ok(v) && v@ == spec_hex_decode(
            iv_hex@,
        ) && v@.len() == 16),
{
    if iv_hex.unicode_len() != 32 {
        return Err(CryptoError::InvalidIvLength);
    }
    let decoded = match hex_decode_str(iv_hex) {
        Ok(v) => v,
        Err(_) => {
            return Err(CryptoError::InvalidIvHex);
        },
    };
    proof {
        lemma_hex_decode_len(iv_hex@);
    }
    if decoded.len() != 16 {
        return Err(CryptoError::InvalidIvLength);
    }
    Ok(decoded)
}

/// Draws a fresh initialization vector and returns it as thirty-two hex
/// characters.
pub fn generate_aes_iv_hex() -> (r: String)
    ensures
        r@.len() == 32,
        valid_hex(r@),
{
    let iv = os_random_bytes(16);
    let encoded = hex_encode_bytes(iv.as_slice());
    proof {
        lemma_hex_encode_props(iv@);
    }
    encoded
}

/// Encrypts with AES-256-CBC under a derived key and a validated vector.
pub fn aes_encrypt(input: &[u8], key: &Vec<u8>, iv: &Vec<u8>) -> (r: Result<Vec<u8>, CryptoError>)
    requires
        key@.len() == 32,
        iv@.len() == 16,
    ensures
        r matches Ok(v) && v@ == aes_cbc_encrypt_of(key@, iv@, input@),
        r matches Ok(v) ==> aes_cbc_decrypt_of(key@, iv@, v@) == Some(input@),
{
    match aes_cbc_encrypt(input, key.as_slice(), iv.as_slice()) {
        Ok(v) => Ok(v),
        Err(_) => Err(CryptoError::AesEncryptFailed),
    }
}

/// Decrypts with AES-256-CBC; a failed padding check surfaces as the
/// decryption error.
pub fn aes_decrypt(input: &[u8], key: &Vec<u8>, iv: &Vec<u8>) -> (r: Result<Vec<u8>, CryptoError>)
    requires
        key@.len() == 32,
        iv@.len() == 16,
    ensures
        match aes_cbc_decrypt_of(key@, iv@, input@) {
            Some(p) => r matches Ok(v) && v@ == p,
            None => r matches Err(e) && e == CryptoError::AesDecryptFailed,
        },
{
    match aes_cbc_decrypt(input, key.as_slice(), iv.as_slice()) {
        Ok(v) => Ok(v),
        Err(_) => Err(CryptoError::AesDecryptFailed),
    }
}

/// Encrypts a text under a key string: the result is the encoded ciphertext
/// and the fresh vector's hex, in that order. The ciphertext decrypts back
/// to the input under the same derived key and vector.
pub fn aes_encode(input: String, key: String, encoding: Option<String>) -> (r: Result<
    Vec<String>,
    CryptoError,
>)
    ensures
        match spec_cipher_encoding(encoding) {
            None => r matches Err(e) && e == CryptoError::UnsupportedEncoding,
            Some(enc) => r matches Ok(v) && {
                let aes_key = sha256_of(encode_utf8(key@));
                let iv = spec_hex_decode(v@[1]@);
                let ct = aes_cbc_encrypt_of(aes_key, iv, encode_utf8(input@));
                &&& v@.len() == 2
                &&& v@[1]@.len() == 32
                &&& valid_hex(v@[1]@)
                &&& v@[0]@ == spec_digest_text(ct, enc)
                &&& aes_cbc_decrypt_of(aes_key, iv, ct) == Some(encode_utf8(input@))
            },
        },
{
    let mode = match normalize_binary_encoding(encoding) {
        Ok(m) => m,
        Err(e) => {
            return Err(e);
        },
    };
    let key_bytes = derive_aes_key(key.as_str());
    let iv_hex = generate_aes_iv_hex();
    let iv_bytes = match normalize_aes_iv(iv_hex.as_str()) {
        Ok(v) => v,
        Err(e) => {
            return Err(e);
        },
    };
    let encrypted = match aes_encrypt(input.as_str().as_bytes(), &key_bytes, &iv_bytes) {
        Ok(v) => v,
        Err(e) => {
            return Err(e);
        },
    };
    let encoded = encode_bytes(encrypted.as_slice(), &mode);
    let mut out: Vec<String> = Vec::new();
    out.push(encoded);
    out.push(iv_hex);
    Ok(out)
}

/// How a ciphertext argument relates to its decoded bytes under the call's
/// optional encoding: a declared encoding decides; otherwise hex text is
/// read as hex and anything else as base64.
pub open spec fn spec_ciphertext_matches(
    encoded: Seq<char>,
    encoding: Option<String>,
    ct: Seq<u8>,
) -> bool {
    match encoding {
        Some(name) => match spec_encoding_of(name@) {
            Some(BinaryEncoding::Hex) => valid_hex(encoded) && ct == spec_hex_decode(encoded),
            Some(BinaryEncoding::Base64) => encoded == spec_base64(ct),
            None => false,
        },
        None => if valid_hex(encoded) {
            ct == spec_hex_decode(encoded)
        } else {
            encoded == spec_base64(ct)
        },
    }
}

/// Decrypts an encoded ciphertext under a key string and a vector's hex.
/// On success the returned text's bytes are exactly what the cipher yields
/// for the decoded ciphertext.
pub fn aes_decode(encoded: String, iv_hex: String, key: String, encoding: Option<String>) -> (r:
    Result<String, CryptoError>)
    ensures
        iv_hex@.len() != 32 ==> (r matches Err(e) && e == CryptoError::InvalidIvLength),
        iv_hex@.len() == 32 && !valid_hex(iv_hex@) ==> (r matches Err(e) && e
            == CryptoError::InvalidIvHex),
        iv_hex@.len() == 32 && valid_hex(iv_hex@) && spec_cipher_encoding(encoding) is None ==> (
        r matches Err(e) && e == CryptoError::UnsupportedEncoding),
        r matches Ok(s) ==> exists|ct: Seq<u8>|
            spec_ciphertext_matches(encoded@, encoding, ct) && aes_cbc_decrypt_of(
                sha256_of(encode_utf8(key@)),
                spec_hex_decode(iv_hex@),
                ct,
            ) == Some(encode_utf8(s@)),
        r matches Err(e) ==> (e == CryptoError::InvalidIvLength || e == CryptoError::InvalidIvHex
            || e == CryptoError::UnsupportedEncoding || e matches CryptoError::InvalidHex(_)
            || e matches CryptoError::InvalidBase64(_) || e == CryptoError::AesDecryptFailed
            || e matches CryptoError::DecryptedNotUtf8(_)),
{
    let iv = match normalize_aes_iv(iv_hex.as_str()) {
        Ok(v) => v,
        Err(e) => {
            return Err(e);
        },
    };
    let key_bytes = derive_aes_key(key.as_str());
    let encrypted = match decode_bytes_with_optional_encoding(encoded.as_str(), encoding) {
        Ok(v) => v,
        Err(e) => {
            return Err(e);
        },
    };
    let decrypted = match aes_decrypt(encrypted.as_slice(), &key_bytes, &iv) {
        Ok(v) => v,
        Err(e) => {
            return Err(e);
        },
    };
    let ghost ct = encrypted@;
    let ghost pt = decrypted@;
    match crate::encodings::string_from_utf8(decrypted) {
        Ok(s) => {
            proof {
                vstd::utf8::decode_utf8_encode_utf8(pt);
                assert(spec_ciphertext_matches(encoded@, encoding, ct));
            }
            Ok(s)
        },
        Err(detail) => Err(CryptoError::DecryptedNotUtf8(detail)),
    }
}

} // verus!
