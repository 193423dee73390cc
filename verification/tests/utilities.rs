//! The encoding, digest, cipher and random-value utilities, run against the
//! real underlying libraries.

use sandbox_fs::aes_ops::{aes_decode, aes_encode, derive_aes_key, generate_aes_iv_hex,
    normalize_aes_iv};
use sandbox_fs::base32::{base32_decode, base32_decode_bytes, base32_encode, base32_encode_bytes,
    base32_value};
use sandbox_fs::ciphers::{morse_code_for, morse_char_for, morse_decode, morse_encode,
    normalize_rot_shift, rot, rotate_ascii_char, rotate_letter, should_insert_space};
use sandbox_fs::digests::{digest_md5, digest_sha256, digest_sha512, md5, sha256, sha512};
use sandbox_fs::encodings::{base16_decode, base16_encode, base64_decode, base64_encode,
    binary_encoding_name, infer_binary_encoding, is_hex_text, normalize_encoding_value,
    BinaryEncoding};
use sandbox_fs::errors::CryptoError;
use sandbox_fs::random_values::{random_bool, random_charset, random_int, random_string,
    random_string_from_charset, resolve_bounds, string_config, LenOrLetters};
use sandbox_fs::rsa_ops::{normalize_rsa_bits, rsa_decode, rsa_encode, RsaPacket};

#[test]
fn base16_encodes_lower_case_hex() {
    assert_eq!(base16_encode("Hello world!".to_string()), "48656c6c6f20776f726c6421");
    assert_eq!(base16_encode(String::new()), "");
}

#[test]
fn base16_decodes_either_case_and_rejects_junk() {
    assert_eq!(base16_decode("48656C6C6F".to_string()).unwrap(), "Hello");
    assert!(matches!(
        base16_decode("123".to_string()).unwrap_err(),
        CryptoError::InvalidHex(_)
    ));
    assert!(matches!(
        base16_decode("zz".to_string()).unwrap_err(),
        CryptoError::InvalidHex(_)
    ));
}

#[test]
fn base64_roundtrip_and_exact_value() {
    assert_eq!(base64_encode("ab".to_string()), "YWI=");
    assert_eq!(base64_decode("YWI=".to_string()).unwrap(), "ab");
    let text = "any carnal pleasure.";
    assert_eq!(base64_decode(base64_encode(text.to_string())).unwrap(), text);
    let err = base64_decode("not base64!!".to_string()).unwrap_err();
    assert!(err.message().starts_with("Invalid base64 input: "));
}

#[test]
fn base32_matches_the_reference_vectors() {
    assert_eq!(base32_encode(String::new()), "");
    assert_eq!(base32_encode("f".to_string()), "MY======");
    assert_eq!(base32_encode("fo".to_string()), "MZXQ====");
    assert_eq!(base32_encode("foo".to_string()), "MZXW6===");
    assert_eq!(base32_encode("foob".to_string()), "MZXW6YQ=");
    assert_eq!(base32_encode("fooba".to_string()), "MZXW6YTB");
    assert_eq!(base32_encode("foobar".to_string()), "MZXW6YTBOI======");
}

#[test]
fn base32_decode_is_lenient_about_case_and_whitespace() {
    assert_eq!(base32_decode("mzxw6ytboi======".to_string()).unwrap(), "foobar");
    assert_eq!(base32_decode("MZ XW\t6Y TB OI==".to_string()).unwrap(), "foobar");
    assert_eq!(base32_decode(String::new()).unwrap(), "");
    let err = base32_decode("M1======".to_string()).unwrap_err();
    assert_eq!(err.message(), "Invalid base32 input");
    // Everything after the first `=` is ignored.
    assert_eq!(base32_decode("MY=?!garbage".to_string()).unwrap(), "f");
}

#[test]
fn base32_helpers_expose_the_alphabet() {
    assert_eq!(base32_value(b'A'), Some(0));
    assert_eq!(base32_value(b'Z'), Some(25));
    assert_eq!(base32_value(b'2'), Some(26));
    assert_eq!(base32_value(b'7'), Some(31));
    assert_eq!(base32_value(b'a'), None);
    assert_eq!(base32_value(b'1'), None);
    assert_eq!(base32_encode_bytes(&[0xff]), "74======");
    assert_eq!(base32_decode_bytes("74======").unwrap(), vec![0xff]);
}

#[test]
fn digests_have_known_values() {
    assert_eq!(md5(String::new(), None).unwrap(), "d41d8cd98f00b204e9800998ecf8427e");
    assert_eq!(
        sha256("abc".to_string(), None).unwrap(),
        "ba7816bf8f01cfea414140de5dae2223b00361a396177a9cb410ff61f20015ad"
    );
    assert_eq!(
        sha512("abc".to_string(), None).unwrap(),
        "ddaf35a193617abacc417349ae20413112e6fa4e89a97ea20a9eeee64b55d39a\
         2192992a274fc1a836ba3c23a3feebbd454d4423643ce80e2a9ac94fa54ca49f"
    );
    assert_eq!(
        md5(String::new(), Some("base64".to_string())).unwrap(),
        "1B2M2Y8AsgTpgAmY7PhCfg=="
    );
    assert_eq!(digest_md5("").len(), 16);
    assert_eq!(digest_sha256("").len(), 32);
    assert_eq!(digest_sha512("").len(), 64);
    let err = md5("x".to_string(), Some("rot13".to_string())).unwrap_err();
    assert_eq!(err.message(), "Encoding must be one of: hex, base16, base64");
}

#[test]
fn encoding_names_normalize_case_insensitively() {
    assert!(matches!(normalize_encoding_value("HEX"), Ok(BinaryEncoding::Hex)));
    assert!(matches!(normalize_encoding_value("Base16"), Ok(BinaryEncoding::Hex)));
    assert!(matches!(normalize_encoding_value("base64"), Ok(BinaryEncoding::Base64)));
    assert!(normalize_encoding_value("base32").is_err());
    assert_eq!(binary_encoding_name(&BinaryEncoding::Hex), "hex");
    assert_eq!(binary_encoding_name(&BinaryEncoding::Base64), "base64");
    assert!(is_hex_text("00ff"));
    assert!(!is_hex_text("0f0"));
    assert!(!is_hex_text("0g"));
    assert!(matches!(infer_binary_encoding("cafe"), BinaryEncoding::Hex));
    assert!(matches!(infer_binary_encoding("caf"), BinaryEncoding::Base64));
}

#[test]
fn rot_defaults_to_thirteen_and_wraps() {
    assert_eq!(rot("abc".to_string(), None), "nop");
    assert_eq!(rot("Hello, World!".to_string(), None), "Uryyb, Jbeyq!");
    assert_eq!(rot("xyz".to_string(), Some(1)), "yza");
    // A shift of twenty-six does nothing, so it falls back to thirteen.
    assert_eq!(rot("abc".to_string(), Some(26)), "nop");
    assert_eq!(rot(String::new(), None), "");
    assert_eq!(normalize_rot_shift(Some(27)), 1);
    assert_eq!(normalize_rot_shift(None), 13);
    assert_eq!(rotate_letter(b'a', b'a', 2), b'c');
    assert_eq!(rotate_ascii_char('z', 1), 'a');
    assert_eq!(rotate_ascii_char('!', 5), '!');
}

#[test]
fn morse_encodes_with_word_separators() {
    assert_eq!(morse_encode("sos".to_string()), "... --- ...");
    assert_eq!(morse_encode("ab cd".to_string()), ".- -... / -.-. -..");
    assert_eq!(morse_encode("SOS".to_string()), "... --- ...");
    // Unencodable characters vanish.
    assert_eq!(morse_encode("a~b".to_string()), ".- -...");
    assert_eq!(morse_encode(String::new()), "");
    assert_eq!(morse_code_for('a'), Some(".-"));
    assert_eq!(morse_code_for('~'), None);
}

#[test]
fn morse_decodes_back() {
    assert_eq!(morse_decode("... --- ...".to_string()), "sos");
    assert_eq!(morse_decode(".- -... / -.-. -..".to_string()), "ab cd");
    // Leading separators and unknown codes are ignored.
    assert_eq!(morse_decode("/ .- / / -...".to_string()), "a b");
    assert_eq!(morse_decode("........ .-".to_string()), "a");
    assert_eq!(morse_decode("   ".to_string()), "");
    assert_eq!(morse_char_for(".-"), Some('a'));
    assert_eq!(morse_char_for(".-.-.-.-"), None);
    assert!(should_insert_space("x"));
    assert!(!should_insert_space("x "));
    assert!(!should_insert_space(""));
    let text = "the quick brown fox 123";
    assert_eq!(morse_decode(morse_encode(text.to_string())), text);
}

#[test]
fn aes_roundtrip_in_both_encodings() {
    let packet = aes_encode("secret message".to_string(), "passphrase".to_string(), None).unwrap();
    assert_eq!(packet.len(), 2);
    let decoded = aes_decode(
        packet[0].clone(),
        packet[1].clone(),
        "passphrase".to_string(),
        None,
    )
    .unwrap();
    assert_eq!(decoded, "secret message");

    let packet = aes_encode(
        "secret message".to_string(),
        "passphrase".to_string(),
        Some("hex".to_string()),
    )
    .unwrap();
    assert!(is_hex_text(&packet[0]));
    let decoded = aes_decode(
        packet[0].clone(),
        packet[1].clone(),
        "passphrase".to_string(),
        Some("hex".to_string()),
    )
    .unwrap();
    assert_eq!(decoded, "secret message");
}

#[test]
fn aes_decode_with_wrong_key_never_gives_the_message() {
    let packet = aes_encode("secret message".to_string(), "right key".to_string(), None).unwrap();
    let outcome = aes_decode(packet[0].clone(), packet[1].clone(), "wrong key".to_string(), None);
    assert_ne!(outcome.ok().as_deref(), Some("secret message"));
}

#[test]
fn aes_iv_validation() {
    let iv = generate_aes_iv_hex();
    assert_eq!(iv.len(), 32);
    assert!(is_hex_text(&iv));
    assert_eq!(normalize_aes_iv(&iv).unwrap().len(), 16);
    assert_eq!(
        normalize_aes_iv("abc").unwrap_err().message(),
        "AES IV must be 16 bytes encoded as 32 hex characters"
    );
    assert_eq!(
        normalize_aes_iv("zz112233445566778899aabbccddeeff").unwrap_err().message(),
        "AES IV must be valid hex"
    );
    assert_eq!(derive_aes_key("k").len(), 32);
    let err = aes_encode("m".to_string(), "k".to_string(), Some("nope".to_string())).unwrap_err();
    assert_eq!(err, CryptoError::UnsupportedEncoding);
}

#[test]
fn rsa_roundtrip_with_a_small_key() {
    let packet = rsa_encode("hi there".to_string(), None, Some(2048)).unwrap();
    assert_eq!(packet.bits, 2048);
    assert_eq!(packet.encoding, "base64");
    assert!(packet.private_key.contains("PRIVATE KEY"));
    assert!(packet.public_key.contains("PUBLIC KEY"));
    assert_eq!(rsa_decode(packet).unwrap(), "hi there");
}

#[test]
fn rsa_bits_are_validated() {
    assert_eq!(normalize_rsa_bits(None).unwrap(), 4096);
    assert_eq!(normalize_rsa_bits(Some(2048)).unwrap(), 2048);
    assert_eq!(
        normalize_rsa_bits(Some(1024)).unwrap_err().message(),
        "RSA bits must be in range 2048..=8192"
    );
    assert_eq!(
        normalize_rsa_bits(Some(2050)).unwrap_err().message(),
        "RSA bits must be a multiple of 256"
    );
    assert!(matches!(
        rsa_encode("x".to_string(), None, Some(9000)).unwrap_err(),
        CryptoError::RsaBitsRange
    ));
}

#[test]
fn rsa_decode_requires_a_private_key() {
    let packet = RsaPacket {
        encoded: "YWI=".to_string(),
        private_key: "   ".to_string(),
        public_key: String::new(),
        encoding: String::new(),
        bits: 2048,
    };
    let err = rsa_decode(packet).unwrap_err();
    assert_eq!(err.message(), "RSA packet.privateKey must not be empty");
}

#[test]
fn decoded_bytes_must_be_utf8() {
    // 0xff alone is not valid UTF-8.
    let err = base16_decode("ff".to_string()).unwrap_err();
    assert!(matches!(err, CryptoError::DecodedNotUtf8(_)));
    assert!(err.message().starts_with("Decoded bytes are not valid UTF-8: "));
    let err = base32_decode("74======".to_string()).unwrap_err();
    assert!(matches!(err, CryptoError::DecodedNotUtf8(_)));
}

#[test]
fn aes_decode_rejects_malformed_ciphertext() {
    let iv = generate_aes_iv_hex();
    // Three bytes are no whole cipher block.
    let err = aes_decode("AAAA".to_string(), iv, "key".to_string(), None).unwrap_err();
    assert_eq!(err, CryptoError::AesDecryptFailed);
    assert_eq!(err.message(), "AES decryption failed");
}

#[test]
fn rsa_decode_rejects_bad_keys_and_ciphertexts() {
    let packet = RsaPacket {
        encoded: "YWI=".to_string(),
        private_key: "not a pem".to_string(),
        public_key: String::new(),
        encoding: "base64".to_string(),
        bits: 2048,
    };
    let err = rsa_decode(packet).unwrap_err();
    assert!(matches!(err, CryptoError::RsaPrivateImport(_)));
    assert!(err.message().starts_with("RSA private key is invalid: "));

    let good = rsa_encode("msg".to_string(), None, Some(2048)).unwrap();
    let tampered = RsaPacket {
        encoded: "YWJj".to_string(),
        private_key: good.private_key,
        public_key: good.public_key,
        encoding: "base64".to_string(),
        bits: good.bits,
    };
    let err = rsa_decode(tampered).unwrap_err();
    assert!(matches!(err, CryptoError::RsaDecryptFailed(_)));
}

#[test]
fn random_int_respects_resolved_bounds() {
    for _ in 0..50 {
        let v = random_int(None, None);
        assert!((0..=5).contains(&v));
        let v = random_int(Some(10), None);
        assert!((1..=10).contains(&v));
        let v = random_int(None, Some(3));
        assert!((1..=3).contains(&v));
        let v = random_int(Some(-5), Some(-2));
        assert!((-5..=-2).contains(&v));
        // Reversed bounds still work.
        let v = random_int(Some(9), Some(4));
        assert!((4..=9).contains(&v));
    }
    assert_eq!(resolve_bounds(None, None, 0i64, 5i64, 1i64), (0, 5));
    assert_eq!(resolve_bounds(Some(7), None, 0i64, 5i64, 1i64), (1, 7));
    assert_eq!(resolve_bounds(Some(2), Some(3), 0i64, 5i64, 1i64), (2, 3));
}

#[test]
fn random_strings_draw_from_the_chosen_charset() {
    let s = random_string(None, None);
    assert_eq!(s.chars().count(), 5);
    let s = random_string(Some(LenOrLetters::Len(12)), Some(true));
    assert_eq!(s.chars().count(), 12);
    assert!(s.chars().all(|c| c.is_ascii_lowercase()));
    let s = random_string(Some(LenOrLetters::Letters(true)), None);
    assert_eq!(s.chars().count(), 5);
    assert!(s.chars().all(|c| c.is_ascii_lowercase()));
    let s = random_string(Some(LenOrLetters::Len(0)), None);
    assert_eq!(s, "");
    assert_eq!(string_config(None, None), (5, false));
    assert_eq!(string_config(Some(LenOrLetters::Len(9)), Some(true)), (9, true));
    assert_eq!(random_charset(true), "abcdefghijklmnopqrstuvwxyz");
    let s = random_string_from_charset(20, "x");
    assert_eq!(s, "x".repeat(20));
    let _ = random_bool();
}
