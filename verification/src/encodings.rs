//! Binary-to-text encodings: hexadecimal and base64, with the encoding
//! normalization and inference the digest and cipher utilities share.

use vstd::prelude::*;

use base64::Engine;

use crate::errors::CryptoError;
use crate::text::{ascii_lower, str_eq, to_ascii_lower};
use vstd::utf8::{decode_utf8, encode_utf8, valid_utf8};

verus! {

/// The two binary-to-text encodings the utilities speak.
#[derive(Debug, Clone, Copy, PartialEq, Eq, Structural)]
pub enum BinaryEncoding {
    Hex,
    Base64,
}

/// The lower-case hex digit of a value below sixteen.
pub open spec fn hex_digit_char(v: u8) -> char
    recommends
        v < 16,
{
    if v < 10 {
        ((v + 48) as u8) as char
    } else {
        ((v + 87) as u8) as char
    }
}

/// A hexadecimal digit, either case.
pub open spec fn is_hex_digit(c: char) -> bool {
    ('0' <= c && c <= '9') || ('a' <= c && c <= 'f') || ('A' <= c && c <= 'F')
}

/// The value of a hexadecimal digit.
pub open spec fn hex_digit_val(c: char) -> u8
    recommends
        is_hex_digit(c),
{
    if '0' <= c && c <= '9' {
        ((c as u32) - 48) as u8
    } else if 'a' <= c && c <= 'f' {
        ((c as u32) - 87) as u8
    } else {
        ((c as u32) - 55) as u8
    }
}

/// The lower-case hexadecimal encoding: two digits for each byte, in order.
pub open spec fn spec_hex_encode(bytes: Seq<u8>) -> Seq<char>
    decreases bytes.len(),
{
    if bytes.len() == 0 {
        Seq::empty()
    } else {
        spec_hex_encode(bytes.drop_last()) + seq![
            hex_digit_char(bytes.last() / 16),
            hex_digit_char(bytes.last() % 16),
        ]
    }
}

/// Text that hexadecimal decoding accepts: even length, hex digits only.
pub open spec fn valid_hex(s: Seq<char>) -> bool {
    s.len() % 2 == 0 && forall|i: int| 0 <= i < s.len() ==> is_hex_digit(#[trigger] s[i])
}

/// The bytes of a hexadecimal string, two digits each, either case.
pub open spec fn spec_hex_decode(s: Seq<char>) -> Seq<u8>
    decreases s.len(),
{
    if s.len() < 2 {
        Seq::empty()
    } else {
        spec_hex_decode(s.take(s.len() - 2)) + seq![
            (16 * hex_digit_val(s[s.len() - 2]) + hex_digit_val(s[s.len() - 1])) as u8,
        ]
    }
}

/// Hexadecimal decoding halves the length.
pub proof fn lemma_hex_decode_len(s: Seq<char>)
    ensures
        spec_hex_decode(s).len() == s.len() / 2,
    decreases s.len(),
{
    if s.len() >= 2 {
        lemma_hex_decode_len(s.take(s.len() - 2));
    }
}

/// Hexadecimal encoding doubles the length and yields hexadecimal text.
pub proof fn lemma_hex_encode_props(bytes: Seq<u8>)
    ensures
        spec_hex_encode(bytes).len() == 2 * bytes.len(),
        valid_hex(spec_hex_encode(bytes)),
    decreases bytes.len(),
{
    if bytes.len() > 0 {
        lemma_hex_encode_props(bytes.drop_last());
        let e = spec_hex_encode(bytes);
        let inner = spec_hex_encode(bytes.drop_last());
        assert forall|i: int| 0 <= i < e.len() implies is_hex_digit(#[trigger] e[i]) by {
            if i < inner.len() {
                assert(e[i] == inner[i]);
            } else {
                let hi = bytes.last() / 16;
                let lo = bytes.last() % 16;
                assert(hi < 16 && lo < 16);
                assert(is_hex_digit(hex_digit_char(hi)));
                assert(is_hex_digit(hex_digit_char(lo)));
            }
        }
    }
}

/// Relies on `hex::encode`: each byte becomes its two lower-case hex digits.
#[verifier::external_body]
pub fn hex_encode_bytes(data: &[u8]) -> (r: String)
    ensures
        r@ == spec_hex_encode(data@),
{
    hex::encode(data)
}

/// Relies on `hex::decode`: it accepts exactly even-length, all-hex-digit
/// input (either case) and pairs the digits into bytes; the error value
/// carries its report.
#[verifier::external_body]
pub fn hex_decode_str(s: &str) -> (r: Result<Vec<u8>, String>)
    ensures
        r is Ok <==> valid_hex(s@),
        r matches Ok(v) ==> v@ == spec_hex_decode(s@),
{
    hex::decode(s).map_err(|e| e.to_string())
}

/// What `base64`'s standard engine makes of a byte string: a pure function
/// of the bytes (standard alphabet, padded).
pub uninterp spec fn spec_base64(bytes: Seq<u8>) -> Seq<char>;

/// Relies on `base64`'s standard engine: encoding is a pure function of the
/// bytes, four characters for every started group of three bytes.
#[verifier::external_body]
pub fn base64_encode_bytes(data: &[u8]) -> (r: String)
    ensures
        r@ == spec_base64(data@),
        r@.len() == 4 * ((data@.len() + 2) / 3),
{
    base64::engine::general_purpose::STANDARD.encode(data)
}

/// Relies on `base64`'s standard engine decode, which is strict: it accepts
/// exactly the canonical encodings and returns the encoded bytes — the one
/// preimage under encoding, which is injective. The error value carries the
/// decoder's report.
#[verifier::external_body]
pub fn base64_decode_str(s: &str) -> (r: Result<Vec<u8>, String>)
    ensures
        r matches Ok(v) ==> s@ == spec_base64(v@),
        r matches Ok(v) ==> forall|b: Seq<u8>| s@ == spec_base64(b) ==> b == v@,
        (exists|b: Seq<u8>| s@ == spec_base64(b)) ==> r is Ok,
{
    base64::engine::general_purpose::STANDARD.decode(s.as_bytes()).map_err(|e| e.to_string())
}

/// Relies on `String::from_utf8`: it succeeds exactly on valid UTF-8 and
/// decodes it; the error value carries its report.
#[verifier::external_body]
pub fn string_from_utf8(bytes: Vec<u8>) -> (r: Result<String, String>)
    ensures
        r is Ok <==> valid_utf8(bytes@),
        r matches Ok(s) ==> s@ == decode_utf8(bytes@),
{
    String::from_utf8(bytes).map_err(|e| e.to_string())
}

/// The canonical name of an encoding.
pub fn binary_encoding_name(encoding: &BinaryEncoding) -> (r: &'static str)
    ensures
        encoding == BinaryEncoding::Hex ==> r@ == "hex"@,
        encoding == BinaryEncoding::Base64 ==> r@ == "base64"@,
{
    match encoding {
        BinaryEncoding::Hex => "hex",
        BinaryEncoding::Base64 => "base64",
    }
}

/// Which encoding a name denotes, case-insensitively: `hex` and `base16`
/// both name hexadecimal; `base64` names base64; nothing else is accepted.
pub open spec fn spec_encoding_of(s: Seq<char>) -> Option<BinaryEncoding> {
    if ascii_lower(s) == "hex"@ || ascii_lower(s) == "base16"@ {
        Some(BinaryEncoding::Hex)
    } else if ascii_lower(s) == "base64"@ {
        Some(BinaryEncoding::Base64)
    } else {
        None
    }
}

/// Resolves an encoding name, rejecting unknown ones.
pub fn normalize_encoding_value(value: &str) -> (r: Result<BinaryEncoding, CryptoError>)
    ensures
        match spec_encoding_of(value@) {
            Some(enc) => r matches Ok(e) && e == enc,
            None => r matches Err(e) && e == CryptoError::UnsupportedEncoding,
        },
{
    let lowered = to_ascii_lower(value);
    if str_eq(lowered.as_str(), "hex") || str_eq(lowered.as_str(), "base16") {
        return Ok(BinaryEncoding::Hex);
    }
    if str_eq(lowered.as_str(), "base64") {
        return Ok(BinaryEncoding::Base64);
    }
    Err(CryptoError::UnsupportedEncoding)
}

/// Resolves a digest call's encoding argument; absent, it defaults to hex.
pub fn normalize_hash_encoding(encoding: Option<String>) -> (r: Result<
    BinaryEncoding,
    CryptoError,
>)
    ensures
        match encoding {
            None => r matches Ok(e) && e == BinaryEncoding::Hex,
            Some(v) => match spec_encoding_of(v@) {
                Some(enc) => r matches Ok(e) && e == enc,
                None => r matches Err(e) && e == CryptoError::UnsupportedEncoding,
            },
        },
{
    match encoding {
        None => Ok(BinaryEncoding::Hex),
        Some(v) => normalize_encoding_value(v.as_str()),
    }
}

/// The encoding a cipher call's optional argument resolves to, base64 by
/// default.
pub open spec fn spec_cipher_encoding(encoding: Option<String>) -> Option<BinaryEncoding> {
    match encoding {
        None => Some(BinaryEncoding::Base64),
        Some(v) => spec_encoding_of(v@),
    }
}

/// Resolves a cipher call's encoding argument; absent, it defaults to base64.
pub fn normalize_binary_encoding(encoding: Option<String>) -> (r: Result<
    BinaryEncoding,
    CryptoError,
>)
    ensures
        match encoding {
            None => r matches Ok(e) && e == BinaryEncoding::Base64,
            Some(v) => match spec_encoding_of(v@) {
                Some(enc) => r matches Ok(e) && e == enc,
                None => r matches Err(e) && e == CryptoError::UnsupportedEncoding,
            },
        },
{
    match encoding {
        None => Ok(BinaryEncoding::Base64),
        Some(v) => normalize_encoding_value(v.as_str()),
    }
}

/// Whether a string is hexadecimal text: even length, hex digits only.
pub fn is_hex_text(input: &str) -> (r: bool)
    ensures
        r == valid_hex(input@),
{
    let n = input.unicode_len();
    if n % 2 != 0 {
        return false;
    }
    let mut i: usize = 0;
    while i < n
        invariant
            n == input@.len(),
            0 <= i <= n,
            forall|j: int| 0 <= j < i ==> is_hex_digit(#[trigger] input@[j]),
        decreases n - i,
    {
        let c = input.get_char(i);
        if !(('0' <= c && c <= '9') || ('a' <= c && c <= 'f') || ('A' <= c && c <= 'F')) {
            return false;
        }
        i = i + 1;
    }
    true
}

/// Guesses the encoding of undeclared input: hexadecimal text is taken as
/// hex, anything else as base64.
pub fn infer_binary_encoding(input: &str) -> (r: BinaryEncoding)
    ensures
        r == (if valid_hex(input@) {
            BinaryEncoding::Hex
        } else {
            BinaryEncoding::Base64
        }),
{
    if is_hex_text(input) {
        BinaryEncoding::Hex
    } else {
        BinaryEncoding::Base64
    }
}

/// Encodes bytes in the chosen encoding.
pub fn encode_bytes(bytes: &[u8], encoding: &BinaryEncoding) -> (r: String)
    ensures
        encoding == BinaryEncoding::Hex ==> r@ == spec_hex_encode(bytes@),
        encoding == BinaryEncoding::Base64 ==> r@ == spec_base64(bytes@),
{
    match encoding {
        BinaryEncoding::Hex => hex_encode_bytes(bytes),
        BinaryEncoding::Base64 => base64_encode_bytes(bytes),
    }
}

/// Decodes text in the chosen encoding, rejecting what that encoding
/// does not accept.
pub fn decode_bytes(input: &str, encoding: &BinaryEncoding) -> (r: Result<Vec<u8>, CryptoError>)
    ensures
        encoding == BinaryEncoding::Hex ==> {
            &&& (r is Ok <==> valid_hex(input@))
            &&& (r matches Ok(v) ==> v@ == spec_hex_decode(input@))
            &&& (r matches Err(e) ==> e matches CryptoError::InvalidHex(_))
        },
        encoding == BinaryEncoding::Base64 ==> {
            &&& (r matches Ok(v) ==> input@ == spec_base64(v@))
            &&& ((exists|b: Seq<u8>| input@ == spec_base64(b)) ==> r is Ok)
            &&& (r matches Err(e) ==> e matches CryptoError::InvalidBase64(_))
        },
{
    match encoding {
        BinaryEncoding::Hex => match hex_decode_str(input) {
            Ok(v) => Ok(v),
            Err(detail) => Err(CryptoError::InvalidHex(detail)),
        },
        BinaryEncoding::Base64 => match base64_decode_str(input) {
            Ok(v) => Ok(v),
            Err(detail) => Err(CryptoError::InvalidBase64(detail)),
        },
    }
}

/// Decodes text whose encoding may be declared; undeclared input has its
/// encoding inferred from its shape.
pub fn decode_bytes_with_optional_encoding(input: &str, encoding: Option<String>) -> (r: Result<
    Vec<u8>,
    CryptoError,
>)
    ensures
        match encoding {
            Some(v) => match spec_encoding_of(v@) {
                None => r matches Err(e) && e == CryptoError::UnsupportedEncoding,
                Some(BinaryEncoding::Hex) => {
                    &&& (r is Ok <==> valid_hex(input@))
                    &&& (r matches Ok(b) ==> b@ == spec_hex_decode(input@))
                },
                Some(BinaryEncoding::Base64) => r matches Ok(b) ==> input@ == spec_base64(b@),
            },
            None => {
                &&& valid_hex(input@) ==> (r is Ok && (r matches Ok(b) ==> b@ == spec_hex_decode(
                    input@,
                )))
                &&& !valid_hex(input@) ==> (r matches Ok(b) ==> input@ == spec_base64(b@))
            },
        },
        r matches Err(e) ==> (e == CryptoError::UnsupportedEncoding || e matches
            CryptoError::InvalidHex(_) || e matches CryptoError::InvalidBase64(_)),
{
    match encoding {
        Some(value) => {
            let normalized = match normalize_encoding_value(value.as_str()) {
                Ok(e) => e,
                Err(e) => {
                    return Err(e);
                },
            };
            decode_bytes(input, &normalized)
        },
        None => {
            let inferred = infer_binary_encoding(input);
            decode_bytes(input, &inferred)
        },
    }
}

/// Encodes a string's UTF-8 bytes as base64.
pub fn base64_encode(input: String) -> (r: String)
    ensures
        r@ == spec_base64(encode_utf8(input@)),
{
    base64_encode_bytes(input.as_str().as_bytes())
}

/// Decodes base64 back to text: the input must be a canonical base64
/// encoding of valid UTF-8, and the result encodes back to the input.
pub fn base64_decode(input: String) -> (r: Result<String, CryptoError>)
    ensures
        r matches Ok(s) ==> input@ == spec_base64(encode_utf8(s@)),
        r matches Err(e) ==> (e matches CryptoError::InvalidBase64(_) || e matches
            CryptoError::DecodedNotUtf8(_)),
        (exists|b: Seq<u8>| input@ == spec_base64(b) && valid_utf8(b)) ==> r is Ok,
{
    let decoded = match base64_decode_str(input.as_str()) {
        Ok(v) => v,
        Err(detail) => {
            proof {
                if exists|b: Seq<u8>| input@ == spec_base64(b) && valid_utf8(b) {
                    assert(exists|b: Seq<u8>| input@ == spec_base64(b));
                }
            }
            return Err(CryptoError::InvalidBase64(detail));
        },
    };
    let ghost dv = decoded@;
    match string_from_utf8(decoded) {
        Ok(s) => {
            proof {
                vstd::utf8::decode_utf8_encode_utf8(dv);
            }
            Ok(s)
        },
        Err(detail) => Err(CryptoError::DecodedNotUtf8(detail)),
    }
}

/// Encodes a string's UTF-8 bytes as lower-case hexadecimal.
pub fn base16_encode(input: String) -> (r: String)
    ensures
        r@ == spec_hex_encode(encode_utf8(input@)),
{
    hex_encode_bytes(input.as_str().as_bytes())
}

/// Decodes hexadecimal back to text: accepted exactly when the input is
/// even-length hex digits whose bytes are valid UTF-8.
pub fn base16_decode(input: String) -> (r: Result<String, CryptoError>)
    ensures
        r is Ok <==> valid_hex(input@) && valid_utf8(spec_hex_decode(input@)),
        r matches Ok(s) ==> s@ == decode_utf8(spec_hex_decode(input@)),
        r matches Err(e) ==> (e matches CryptoError::InvalidHex(_) || e matches
            CryptoError::DecodedNotUtf8(_)),
{
    let decoded = match hex_decode_str(input.as_str()) {
        Ok(v) => v,
        Err(detail) => {
            return Err(CryptoError::InvalidHex(detail));
        },
    };
    match string_from_utf8(decoded) {
        Ok(s) => Ok(s),
        Err(detail) => Err(CryptoError::DecodedNotUtf8(detail)),
    }
}

} // verus!
