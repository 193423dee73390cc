//! RSA with OAEP over SHA-256: a fresh key pair per encryption, both keys
//! travelling beside the ciphertext as PKCS#8/SPKI PEM text.

use vstd::prelude::*;

use rsa::pkcs8::{DecodePrivateKey, EncodePrivateKey, EncodePublicKey, LineEnding};

use crate::encodings::{
    decode_bytes_with_optional_encoding, encode_bytes, lemma_hex_encode_props,
    normalize_binary_encoding, spec_base64, spec_cipher_encoding, spec_hex_encode, valid_hex,
    BinaryEncoding,
};
use crate::errors::CryptoError;
use crate::text::{blank, is_blank};
use vstd::utf8::encode_utf8;

verus! {

/// An encrypted text together with everything needed to decrypt it again.
#[derive(Debug, PartialEq, Eq)]
pub struct RsaPacket {
    /// The encoded ciphertext.
    pub encoded: String,
    /// The private key, as PKCS#8 PEM.
    pub private_key: String,
    /// The public key, as SPKI PEM.
    pub public_key: String,
    /// The name of the ciphertext's encoding.
    pub encoding: String,
    /// The key size in bits.
    pub bits: u32,
}

#[verifier::external_type_specification]
#[verifier::external_body]
pub struct ExRsaPrivateKey(rsa::RsaPrivateKey);

#[verifier::external_type_specification]
#[verifier::external_body]
pub struct ExRsaPublicKey(rsa::RsaPublicKey);

/// Relies on `RsaPrivateKey::new` with the operating-system RNG: the key is
/// random, so nothing is promised of it; the error value carries the
/// library's report.
#[verifier::external_body]
fn rsa_generate_private(bits: u32) -> Result<rsa::RsaPrivateKey, String> {
    rsa::RsaPrivateKey::new(&mut rand::rngs::OsRng, bits as usize).map_err(|e| e.to_string())
}

/// Relies on `RsaPublicKey::from`, which derives the public half of a key.
#[verifier::external_body]
fn rsa_public_from(private: &rsa::RsaPrivateKey) -> rsa::RsaPublicKey {
    rsa::RsaPublicKey::from(private)
}

/// Relies on `to_pkcs8_pem`: the private key as PEM text; the error value
/// carries the library's report.
#[verifier::external_body]
fn rsa_private_to_pem(private: &rsa::RsaPrivateKey) -> Result<String, String> {
    private.to_pkcs8_pem(LineEnding::LF).map(|pem| pem.to_string()).map_err(|e| e.to_string())
}

/// Relies on `to_public_key_pem`: the public key as PEM text; the error
/// value carries the library's report.
#[verifier::external_body]
fn rsa_public_to_pem(public: &rsa::RsaPublicKey) -> Result<String, String> {
    public.to_public_key_pem(LineEnding::LF).map_err(|e| e.to_string())
}

/// Relies on `from_pkcs8_pem`: parses a private key back from PEM text; the
/// error value carries the library's report.
#[verifier::external_body]
fn rsa_private_from_pem(pem: &str) -> Result<rsa::RsaPrivateKey, String> {
    rsa::RsaPrivateKey::from_pkcs8_pem(pem).map_err(|e| e.to_string())
}

/// Relies on `RsaPublicKey::encrypt` with OAEP over SHA-256 and the
/// operating-system RNG: the padding is random, so nothing is promised of
/// the ciphertext; the error value carries the library's report.
#[verifier::external_body]
fn rsa_oaep_encrypt(public: &rsa::RsaPublicKey, input: &[u8]) -> Result<Vec<u8>, String> {
    public.encrypt(&mut rand::rngs::OsRng, rsa::Oaep::new::<sha2::Sha256>(), input).map_err(
        |e| e.to_string(),
    )
}

/// Relies on `RsaPrivateKey::decrypt` with OAEP over SHA-256; the error
/// value carries the library's report.
#[verifier::external_body]
fn rsa_oaep_decrypt(private: &rsa::RsaPrivateKey, input: &[u8]) -> Result<Vec<u8>, String> {
    private.decrypt(rsa::Oaep::new::<sha2::Sha256>(), input).map_err(|e| e.to_string())
}

/// The key size a caller's argument resolves to: 4096 by default, accepted
/// between 2048 and 8192 in steps of 256.
pub fn normalize_rsa_bits(bits: Option<u32>) -> (r: Result<u32, CryptoError>)
    ensures
        ({
            let value = (match bits {
                None => 4096u32,
                Some(b) => b,
            });
            if value < 2048 || value > 8192 {
                r matches Err(e) && e == CryptoError::RsaBitsRange
            } else if value % 256 != 0 {
                r matches Err(e) && e == CryptoError::RsaBitsStep
            } else {
                r matches Ok(v) && v == value
            }
        }),
{
    let value = match bits {
        None => 4096,
        Some(b) => b,
    };
    if value < 2048 || value > 8192 {
        return Err(CryptoError::RsaBitsRange);
    }
    if value % 256 != 0 {
        return Err(CryptoError::RsaBitsStep);
    }
    Ok(value)
}

/// Resolves the packet encoding argument, base64 by default.
pub fn normalize_rsa_encoding(encoding: Option<String>) -> (r: Result<BinaryEncoding, CryptoError>)
    ensures
        match spec_cipher_encoding(encoding) {
            Some(enc) => r matches Ok(e) && e == enc,
            None => r matches Err(e) && e == CryptoError::UnsupportedEncoding,
        },
{
    normalize_binary_encoding(encoding)
}

/// Encrypts a text under a fresh RSA key pair. The packet's encoding field
/// names the encoding its ciphertext is written in, and its bits field is
/// the resolved key size; keys and ciphertext are drawn with fresh
/// randomness, so only their shape is promised.
pub fn rsa_encode(input: String, encoding: Option<String>, bits: Option<u32>) -> (r: Result<
    RsaPacket,
    CryptoError,
>)
    ensures
        spec_cipher_encoding(encoding) is None ==> (r matches Err(e) && e
            == CryptoError::UnsupportedEncoding),
        ({
            let value = (match bits {
                None => 4096u32,
                Some(b) => b,
            });
            &&& spec_cipher_encoding(encoding) is Some && (value < 2048 || value > 8192) ==> (
            r matches Err(e) && e == CryptoError::RsaBitsRange)
            &&& spec_cipher_encoding(encoding) is Some && 2048 <= value <= 8192 && value % 256
                != 0 ==> (r matches Err(e) && e == CryptoError::RsaBitsStep)
            &&& r matches Ok(p) ==> p.bits == value
        }),
        r matches Ok(p) ==> match spec_cipher_encoding(encoding) {
            Some(BinaryEncoding::Hex) => p.encoding@ == "hex"@ && valid_hex(p.encoded@),
            Some(BinaryEncoding::Base64) => p.encoding@ == "base64"@ && exists|ct: Seq<u8>|
                p.encoded@ == spec_base64(ct),
            None => false,
        },
        r matches Err(e) ==> (e == CryptoError::UnsupportedEncoding || e
            == CryptoError::RsaBitsRange || e == CryptoError::RsaBitsStep || e matches
            CryptoError::RsaKeyGen(_) || e matches CryptoError::RsaEncryptFailed(_) || e matches
            CryptoError::RsaPrivateExport(_) || e matches CryptoError::RsaPublicExport(_)),
{
    let mode = match normalize_rsa_encoding(encoding) {
        Ok(m) => m,
        Err(e) => {
            return Err(e);
        },
    };
    let bits = match normalize_rsa_bits(bits) {
        Ok(b) => b,
        Err(e) => {
            return Err(e);
        },
    };
    let private = match rsa_generate_private(bits) {
        Ok(k) => k,
        Err(detail) => {
            return Err(CryptoError::RsaKeyGen(detail));
        },
    };
    let public = rsa_public_from(&private);
    let encrypted = match rsa_oaep_encrypt(&public, input.as_str().as_bytes()) {
        Ok(v) => v,
        Err(detail) => {
            return Err(CryptoError::RsaEncryptFailed(detail));
        },
    };
    let private_key = match rsa_private_to_pem(&private) {
        Ok(p) => p,
        Err(detail) => {
            return Err(CryptoError::RsaPrivateExport(detail));
        },
    };
    let public_key = match rsa_public_to_pem(&public) {
        Ok(p) => p,
        Err(detail) => {
            return Err(CryptoError::RsaPublicExport(detail));
        },
    };
    proof {
        if mode == BinaryEncoding::Hex {
            lemma_hex_encode_props(encrypted@);
        }
    }
    let encoded = encode_bytes(encrypted.as_slice(), &mode);
    let encoding_name = String::from_str(crate::encodings::binary_encoding_name(&mode));
    Ok(RsaPacket { encoded, private_key, public_key, encoding: encoding_name, bits })
}

/// Decrypts a packet: the private key must be present and parse, the
/// ciphertext must decode under the packet's declared (or, when blank,
/// inferred) encoding, and the decrypted bytes must be UTF-8 text.
pub fn rsa_decode(packet: RsaPacket) -> (r: Result<String, CryptoError>)
    ensures
        is_blank(packet.private_key@) ==> (r matches Err(e) && e == CryptoError::EmptyPrivateKey),
        r matches Err(e) ==> (e == CryptoError::EmptyPrivateKey || e
            == CryptoError::UnsupportedEncoding || e matches CryptoError::InvalidHex(_)
            || e matches CryptoError::InvalidBase64(_) || e matches CryptoError::RsaPrivateImport(
            _,
        ) || e matches CryptoError::RsaDecryptFailed(_) || e matches CryptoError::PlaintextNotUtf8(
            _,
        )),
{
    if blank(packet.private_key.as_str()) {
        return Err(CryptoError::EmptyPrivateKey);
    }
    let encoding: Option<String> = if blank(packet.encoding.as_str()) {
        None
    } else {
        Some(packet.encoding.clone())
    };
    let encrypted = match decode_bytes_with_optional_encoding(packet.encoded.as_str(), encoding) {
        Ok(v) => v,
        Err(e) => {
            return Err(e);
        },
    };
    let private = match rsa_private_from_pem(packet.private_key.as_str()) {
        Ok(k) => k,
        Err(detail) => {
            return Err(CryptoError::RsaPrivateImport(detail));
        },
    };
    let decrypted = match rsa_oaep_decrypt(&private, encrypted.as_slice()) {
        Ok(v) => v,
        Err(detail) => {
            return Err(CryptoError::RsaDecryptFailed(detail));
        },
    };
    match crate::encodings::string_from_utf8(decrypted) {
        Ok(s) => Ok(s),
        Err(detail) => Err(CryptoError::PlaintextNotUtf8(detail)),
    }
}

} // verus!
