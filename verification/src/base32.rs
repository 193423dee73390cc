//! Base32: the RFC 4648 upper-case alphabet, padded with `=`, stated and
//! verified bit by bit.

use vstd::prelude::*;

use crate::errors::CryptoError;
use crate::text::push_char;
use vstd::utf8::{decode_utf8, encode_utf8, valid_utf8};

verus! {

/// A byte's eight bits, most significant first.
pub open spec fn byte_bits(b: u8) -> Seq<bool> {
    seq![
        b / 128 % 2 == 1,
        b / 64 % 2 == 1,
        b / 32 % 2 == 1,
        b / 16 % 2 == 1,
        b / 8 % 2 == 1,
        b / 4 % 2 == 1,
        b / 2 % 2 == 1,
        b % 2 == 1,
    ]
}

/// A byte string's bits, in order.
pub open spec fn bits_of_bytes(bytes: Seq<u8>) -> Seq<bool>
    decreases bytes.len(),
{
    if bytes.len() == 0 {
        Seq::empty()
    } else {
        bits_of_bytes(bytes.drop_last()) + byte_bits(bytes.last())
    }
}

/// The value of a five-bit group, most significant first.
pub open spec fn bits5_val(bits: Seq<bool>) -> u8
    recommends
        bits.len() == 5,
{
    ((if bits[0] {
        16u8
    } else {
        0u8
    }) + (if bits[1] {
        8u8
    } else {
        0u8
    }) + (if bits[2] {
        4u8
    } else {
        0u8
    }) + (if bits[3] {
        2u8
    } else {
        0u8
    }) + (if bits[4] {
        1u8
    } else {
        0u8
    })) as u8
}

/// The alphabet: `A`–`Z` for 0–25, `2`–`7` for 26–31.
pub open spec fn b32_char(v: u8) -> char
    recommends
        v < 32,
{
    if v < 26 {
        ((v + 65) as u8) as char
    } else {
        ((v + 24) as u8) as char
    }
}

/// A bit string padded with zero bits up to a multiple of five.
pub open spec fn pad5(bits: Seq<bool>) -> Seq<bool> {
    bits + Seq::new(((5 - bits.len() % 5) % 5) as nat, |i: int| false)
}

/// The data characters of a bit string: one alphabet character per
/// five-bit group.
pub open spec fn spec_b32_data_chars(bits: Seq<bool>) -> Seq<char>
    decreases bits.len(),
{
    if bits.len() < 5 {
        Seq::empty()
    } else {
        seq![b32_char(bits5_val(bits.take(5)))] + spec_b32_data_chars(bits.skip(5))
    }
}

/// The full encoding: the data characters of the zero-padded bits, then `=`
/// up to a multiple of eight; empty input encodes to the empty string.
pub open spec fn spec_base32_encode(bytes: Seq<u8>) -> Seq<char> {
    if bytes.len() == 0 {
        Seq::empty()
    } else {
        let data = spec_b32_data_chars(pad5(bits_of_bytes(bytes)));
        data + Seq::new(((8 - data.len() % 8) % 8) as nat, |i: int| '=')
    }
}

/// Appends one byte's eight bits.
fn push_byte_bits(bits: &mut Vec<bool>, b: u8)
    ensures
        final(bits)@ == old(bits)@ + byte_bits(b),
{
    bits.push(b / 128 % 2 == 1);
    bits.push(b / 64 % 2 == 1);
    bits.push(b / 32 % 2 == 1);
    bits.push(b / 16 % 2 == 1);
    bits.push(b / 8 % 2 == 1);
    bits.push(b / 4 % 2 == 1);
    bits.push(b / 2 % 2 == 1);
    bits.push(b % 2 == 1);
    proof {
        assert(bits@ =~= old(bits)@ + byte_bits(b));
    }
}

/// Appends a five-bit value's bits.
fn push_val_bits5(bits: &mut Vec<bool>, v: u8)
    ensures
        final(bits)@ == old(bits)@ + bits5(v),
{
    bits.push(v / 16 % 2 == 1);
    bits.push(v / 8 % 2 == 1);
    bits.push(v / 4 % 2 == 1);
    bits.push(v / 2 % 2 == 1);
    bits.push(v % 2 == 1);
    proof {
        assert(bits@ =~= old(bits)@ + bits5(v));
    }
}

/// Encodes bytes as base32.
#[verifier::rlimit(100)]
pub fn base32_encode_bytes(input: &[u8]) -> (r: String)
    ensures
        r@ == spec_base32_encode(input@),
{
    let n = input.len();
    if n == 0 {
        return String::new();
    }
    let mut bits: Vec<bool> = Vec::new();
    let mut i: usize = 0;
    proof {
        assert(bits@ =~= bits_of_bytes(input@.take(0)));
    }
    while i < n
        invariant
            n == input@.len(),
            0 <= i <= n,
            bits@ == bits_of_bytes(input@.take(i as int)),
            bits@.len() == 8 * i,
        decreases n - i,
    {
        let b = input[i];
        push_byte_bits(&mut bits, b);
        proof {
            assert(input@.take(i + 1).drop_last() =~= input@.take(i as int));
            assert(input@.take(i + 1).last() == input@[i as int]);
        }
        i = i + 1;
    }
    proof {
        assert(input@.take(n as int) =~= input@);
    }
    let ghost raw_bits = bits@;
    let rem = bits.len() % 5;
    if rem != 0 {
        let need = 5 - rem;
        let mut k: usize = 0;
        while k < need
            invariant
                0 <= k <= need,
                bits@ == raw_bits + Seq::new(k as nat, |t: int| false),
            decreases need - k,
        {
            bits.push(false);
            proof {
                assert(bits@ =~= raw_bits + Seq::new((k + 1) as nat, |t: int| false));
            }
            k = k + 1;
        }
    }
    proof {
        assert(bits@ =~= pad5(raw_bits));
    }
    let m = bits.len();
    proof {
        assert(m % 5 == 0);
    }
    let mut out = String::new();
    let mut count: usize = 0;
    let mut j: usize = 0;
    proof {
        assert(bits@.skip(0) =~= bits@);
    }
    while j < m
        invariant
            m == bits@.len(),
            m % 5 == 0,
            j % 5 == 0,
            0 <= j <= m,
            count == j / 5,
            out@.len() == count,
            spec_b32_data_chars(bits@) == out@ + spec_b32_data_chars(bits@.skip(j as int)),
        decreases m - j,
    {
        proof {
            assert(j + 5 <= m);
        }
        let v: u8 = (if bits[j] {
            16u8
        } else {
            0u8
        }) + (if bits[j + 1] {
            8u8
        } else {
            0u8
        }) + (if bits[j + 2] {
            4u8
        } else {
            0u8
        }) + (if bits[j + 3] {
            2u8
        } else {
            0u8
        }) + (if bits[j + 4] {
            1u8
        } else {
            0u8
        });
        let c: char = if v < 26 {
            (v + 65) as char
        } else {
            (v + 24) as char
        };
        proof {
            let g = bits@.skip(j as int);
            assert(g.take(5)[0] == bits@[j as int]);
            assert(g.take(5)[1] == bits@[j + 1]);
            assert(g.take(5)[2] == bits@[j + 2]);
            assert(g.take(5)[3] == bits@[j + 3]);
            assert(g.take(5)[4] == bits@[j + 4]);
            assert(bits5_val(g.take(5)) == v);
            assert(b32_char(v) == c);
            assert(g.skip(5) =~= bits@.skip(j + 5));
            assert(spec_b32_data_chars(g) == seq![c] + spec_b32_data_chars(bits@.skip(j + 5)));
        }
        push_char(&mut out, c);
        proof {
            assert(spec_b32_data_chars(bits@) =~= out@ + spec_b32_data_chars(bits@.skip(j + 5)));
        }
        count = count + 1;
        j = j + 5;
    }
    proof {
        assert(bits@.skip(m as int) =~= Seq::<bool>::empty());
        assert(spec_b32_data_chars(bits@) =~= out@);
    }
    let dlen = count;
    let prem = dlen % 8;
    if prem != 0 {
        let need = 8 - prem;
        let ghost data = out@;
        let mut k: usize = 0;
        while k < need
            invariant
                0 <= k <= need,
                out@ == data + Seq::new(k as nat, |t: int| '='),
            decreases need - k,
        {
            push_char(&mut out, '=');
            proof {
                assert(out@ =~= data + Seq::new((k + 1) as nat, |t: int| '='));
            }
            k = k + 1;
        }
        proof {
            assert(out@ =~= spec_base32_encode(input@));
        }
    } else {
        proof {
            assert(Seq::new(0nat, |t: int| '=') =~= Seq::<char>::empty());
            assert(out@ =~= spec_base32_encode(input@));
        }
    }
    out
}

/// An ASCII whitespace character, the set base32 decoding skips.
pub open spec fn is_ascii_space_char(c: char) -> bool {
    c == ' ' || c == '\t' || c == '\n' || c == '\u{000C}' || c == '\r'
}

/// The characters decoding actually reads: everything before the first `=`,
/// whitespace dropped.
pub open spec fn spec_b32_effective(s: Seq<char>) -> Seq<char>
    decreases s.len(),
{
    if s.len() == 0 {
        Seq::empty()
    } else if s[0] == '=' {
        Seq::empty()
    } else if is_ascii_space_char(s[0]) {
        spec_b32_effective(s.drop_first())
    } else {
        seq![s[0]] + spec_b32_effective(s.drop_first())
    }
}

/// The five-bit value of one character, case-insensitively; none when the
/// character is outside the alphabet.
pub open spec fn char_b32_val(c: char) -> Option<u8> {
    if 'A' <= c && c <= 'Z' {
        Some((((c as u32) - 65) as u8))
    } else if 'a' <= c && c <= 'z' {
        Some((((c as u32) - 97) as u8))
    } else if '2' <= c && c <= '7' {
        Some((((c as u32) - 50 + 26) as u8))
    } else {
        None
    }
}

/// Whether every character read is in the alphabet.
pub open spec fn all_b32_chars(s: Seq<char>) -> bool {
    forall|i: int| 0 <= i < s.len() ==> (#[trigger] char_b32_val(s[i])) is Some
}

/// A five-bit value's bits, most significant first.
pub open spec fn bits5(v: u8) -> Seq<bool>
    recommends
        v < 32,
{
    seq![v / 16 % 2 == 1, v / 8 % 2 == 1, v / 4 % 2 == 1, v / 2 % 2 == 1, v % 2 == 1]
}

/// The bit string of the characters read, five bits each.
pub open spec fn spec_b32_bits(s: Seq<char>) -> Seq<bool>
    decreases s.len(),
{
    if s.len() == 0 {
        Seq::empty()
    } else {
        spec_b32_bits(s.drop_last()) + (match char_b32_val(s.last()) {
            Some(v) => bits5(v),
            None => Seq::empty(),
        })
    }
}

/// The value of an eight-bit group, most significant first.
pub open spec fn byte_val(bits: Seq<bool>) -> u8
    recommends
        bits.len() == 8,
{
    ((if bits[0] {
        128u8
    } else {
        0u8
    }) + (if bits[1] {
        64u8
    } else {
        0u8
    }) + (if bits[2] {
        32u8
    } else {
        0u8
    }) + (if bits[3] {
        16u8
    } else {
        0u8
    }) + (if bits[4] {
        8u8
    } else {
        0u8
    }) + (if bits[5] {
        4u8
    } else {
        0u8
    }) + (if bits[6] {
        2u8
    } else {
        0u8
    }) + (if bits[7] {
        1u8
    } else {
        0u8
    })) as u8
}

/// The bytes of a bit string, eight bits each, a trailing shorter group
/// dropped.
pub open spec fn bytes_from_bits(bits: Seq<bool>) -> Seq<u8>
    decreases bits.len(),
{
    if bits.len() < 8 {
        Seq::empty()
    } else {
        seq![byte_val(bits.take(8))] + bytes_from_bits(bits.skip(8))
    }
}

/// What decoding yields: the eight-bit groups of the read characters' bits.
pub open spec fn spec_base32_decode(s: Seq<char>) -> Seq<u8> {
    bytes_from_bits(spec_b32_bits(spec_b32_effective(s)))
}

/// The five-bit value of an alphabet byte: upper-case letters and the
/// digits `2`–`7`.
pub fn base32_value(ch: u8) -> (r: Option<u8>)
    ensures
        65 <= ch <= 90 ==> r == Some((ch - 65) as u8),
        50 <= ch <= 55 ==> r == Some((ch - 50 + 26) as u8),
        !(65 <= ch <= 90) && !(50 <= ch <= 55) ==> r is None,
{
    if 65 <= ch && ch <= 90 {
        return Some(ch - 65);
    }
    if 50 <= ch && ch <= 55 {
        return Some(ch - 50 + 26);
    }
    None
}

/// Decodes base32 text to bytes: whitespace is skipped, the first `=` ends
/// the data, any character outside the alphabet (either case) is an error.
#[verifier::rlimit(100)]
pub fn base32_decode_bytes(input: &str) -> (r: Result<Vec<u8>, CryptoError>)
    ensures
        r is Ok <==> all_b32_chars(spec_b32_effective(input@)),
        r matches Ok(v) ==> v@ == spec_base32_decode(input@),
        r matches Err(e) ==> e == CryptoError::InvalidBase32,
{
    let n = input.unicode_len();
    let mut bits: Vec<bool> = Vec::new();
    let ghost whole_eff = spec_b32_effective(input@);
    let ghost mut eff: Seq<char> = Seq::empty();
    let mut i: usize = 0;
    let mut stopped: bool = false;
    proof {
        assert(input@.skip(0) =~= input@);
        assert(spec_b32_bits(eff) =~= Seq::<bool>::empty());
    }
    while i < n && !stopped
        invariant
            n == input@.len(),
            0 <= i <= n,
            !stopped ==> whole_eff == eff + spec_b32_effective(input@.skip(i as int)),
            stopped ==> whole_eff == eff,
            whole_eff == spec_b32_effective(input@),
            all_b32_chars(eff),
            bits@ == spec_b32_bits(eff),
        decreases n - i,
    {
        let c = input.get_char(i);
        proof {
            assert(input@.skip(i as int)[0] == input@[i as int]);
            assert(input@.skip(i as int).drop_first() =~= input@.skip(i + 1));
        }
        if c == '=' {
            stopped = true;
        } else if c == ' ' || c == '\t' || c == '\n' || c == '\u{000C}' || c == '\r' {
            // ASCII whitespace is skipped.
        } else {
            let up: char = if 'a' <= c && c <= 'z' {
                (((c as u32) - 32) as u8) as char
            } else {
                c
            };
            let code: u32 = up as u32;
            let value_opt: Option<u8> = if code < 128 {
                base32_value(code as u8)
            } else {
                None
            };
            let value = match value_opt {
                Some(v) => v,
                None => {
                    proof {
                        let tail = spec_b32_effective(input@.skip(i as int));
                        assert(tail[0] == c);
                        assert(whole_eff[eff.len() as int] == c);
                        assert(char_b32_val(c) is None);
                        assert(!all_b32_chars(whole_eff));
                    }
                    return Err(CryptoError::InvalidBase32);
                },
            };
            proof {
                assert(char_b32_val(c) == Some(value));
                let tail = spec_b32_effective(input@.skip(i as int));
                assert(tail =~= seq![c] + spec_b32_effective(input@.skip(i + 1)));
            }
            let ghost old_eff = eff;
            proof {
                eff = eff.push(c);
                assert(eff.drop_last() =~= old_eff);
                assert(whole_eff =~= eff + spec_b32_effective(input@.skip(i + 1)));
            }
            push_val_bits5(&mut bits, value);
            proof {
                assert(bits@ =~= spec_b32_bits(eff));
            }
        }
        i = i + 1;
    }
    proof {
        if !stopped {
            assert(input@.skip(n as int) =~= Seq::<char>::empty());
            assert(whole_eff == eff);
        }
    }
    let m = bits.len();
    let mut out: Vec<u8> = Vec::new();
    let mut j: usize = 0;
    proof {
        assert(bits@.skip(0) =~= bits@);
    }
    while m - j >= 8
        invariant
            m == bits@.len(),
            0 <= j <= m,
            bytes_from_bits(bits@) == out@ + bytes_from_bits(bits@.skip(j as int)),
        decreases m - j,
    {
        let b: u8 = (if bits[j] {
            128u8
        } else {
            0u8
        }) + (if bits[j + 1] {
            64u8
        } else {
            0u8
        }) + (if bits[j + 2] {
            32u8
        } else {
            0u8
        }) + (if bits[j + 3] {
            16u8
        } else {
            0u8
        }) + (if bits[j + 4] {
            8u8
        } else {
            0u8
        }) + (if bits[j + 5] {
            4u8
        } else {
            0u8
        }) + (if bits[j + 6] {
            2u8
        } else {
            0u8
        }) + (if bits[j + 7] {
            1u8
        } else {
            0u8
        });
        proof {
            let g = bits@.skip(j as int);
            assert(g.take(8)[0] == bits@[j as int]);
            assert(g.take(8)[1] == bits@[j + 1]);
            assert(g.take(8)[2] == bits@[j + 2]);
            assert(g.take(8)[3] == bits@[j + 3]);
            assert(g.take(8)[4] == bits@[j + 4]);
            assert(g.take(8)[5] == bits@[j + 5]);
            assert(g.take(8)[6] == bits@[j + 6]);
            assert(g.take(8)[7] == bits@[j + 7]);
            assert(byte_val(g.take(8)) == b);
            assert(g.skip(8) =~= bits@.skip(j + 8));
            assert(bytes_from_bits(g) == seq![b] + bytes_from_bits(bits@.skip(j + 8)));
        }
        out.push(b);
        proof {
            assert(bytes_from_bits(bits@) =~= out@ + bytes_from_bits(bits@.skip(j + 8)));
        }
        j = j + 8;
    }
    proof {
        assert(bytes_from_bits(bits@.skip(j as int)) =~= Seq::<u8>::empty());
        assert(out@ =~= spec_base32_decode(input@));
    }
    Ok(out)
}

/// Encodes a string's UTF-8 bytes as base32.
pub fn base32_encode(input: String) -> (r: String)
    ensures
        r@ == spec_base32_encode(encode_utf8(input@)),
{
    base32_encode_bytes(input.as_str().as_bytes())
}

/// Decodes base32 back to text: the read characters must be in the alphabet
/// and their bytes valid UTF-8.
pub fn base32_decode(input: String) -> (r: Result<String, CryptoError>)
    ensures
        r is Ok <==> all_b32_chars(spec_b32_effective(input@)) && valid_utf8(
            spec_base32_decode(input@),
        ),
        r matches Ok(s) ==> s@ == decode_utf8(spec_base32_decode(input@)),
        r matches Err(e) ==> (e == CryptoError::InvalidBase32 || e matches
            CryptoError::DecodedNotUtf8(_)),
{
    let decoded = match base32_decode_bytes(input.as_str()) {
        Ok(v) => v,
        Err(e) => {
            return Err(e);
        },
    };
    match crate::encodings::string_from_utf8(decoded) {
        Ok(s) => Ok(s),
        Err(detail) => Err(CryptoError::DecodedNotUtf8(detail)),
    }
}

} // verus!
