//! Random values: integers within resolved bounds, booleans, and strings
//! drawn from a chosen character set.

use vstd::prelude::*;

use crate::text::push_char;

verus! {

/// Relies on `fastrand::i64` over an inclusive range: it panics only on an
/// empty range and returns a value within the range.
#[verifier::external_body]
fn rand_i64_between(lo: i64, hi: i64) -> (r: i64)
    requires
        lo <= hi,
    ensures
        lo <= r <= hi,
{
    fastrand::i64(lo..=hi)
}

/// Relies on `fastrand::usize` below a bound: it panics only on an empty
/// range and returns a value below the bound.
#[verifier::external_body]
fn rand_index(len: usize) -> (r: usize)
    requires
        len > 0,
    ensures
        r < len,
{
    fastrand::usize(..len)
}

/// Relies on `fastrand::bool`; nothing is promised of the value.
#[verifier::external_body]
pub fn random_bool() -> bool {
    fastrand::bool()
}

/// How a pair of optional bounds resolves: absent bounds fall back to the
/// defaults, a single given value is the upper bound over the single-value
/// floor, two given values stand as they are.
pub open spec fn spec_resolve_bounds<T>(
    min: Option<T>,
    max: Option<T>,
    default_min: T,
    default_max: T,
    single_arg_min: T,
) -> (T, T) {
    match (min, max) {
        (None, None) => (default_min, default_max),
        (Some(value), None) => (single_arg_min, value),
        (None, Some(value)) => (single_arg_min, value),
        (Some(min_value), Some(max_value)) => (min_value, max_value),
    }
}

/// Resolves a pair of optional bounds.
pub fn resolve_bounds<T: Copy>(
    min: Option<T>,
    max: Option<T>,
    default_min: T,
    default_max: T,
    single_arg_min: T,
) -> (r: (T, T))
    ensures
        r == spec_resolve_bounds(min, max, default_min, default_max, single_arg_min),
{
    match (min, max) {
        (None, None) => (default_min, default_max),
        (Some(value), None) => (single_arg_min, value),
        (None, Some(value)) => (single_arg_min, value),
        (Some(min_value), Some(max_value)) => (min_value, max_value),
    }
}

/// The smaller of two values.
pub open spec fn spec_min_i64(a: i64, b: i64) -> i64 {
    if a <= b {
        a
    } else {
        b
    }
}

/// The larger of two values.
pub open spec fn spec_max_i64(a: i64, b: i64) -> i64 {
    if a >= b {
        a
    } else {
        b
    }
}

/// A random integer between the two values, whichever order they come in.
pub fn random_int_range(a: i64, b: i64) -> (r: i64)
    ensures
        spec_min_i64(a, b) <= r <= spec_max_i64(a, b),
{
    let lo = if a <= b {
        a
    } else {
        b
    };
    let hi = if a >= b {
        a
    } else {
        b
    };
    rand_i64_between(lo, hi)
}

/// A random integer within the resolved bounds: between 0 and 5 with no
/// arguments, between 1 and the value with one, between the two with both.
pub fn random_int(min: Option<i64>, max: Option<i64>) -> (r: i64)
    ensures
        ({
            let (a, b) = spec_resolve_bounds(min, max, 0i64, 5i64, 1i64);
            spec_min_i64(a, b) <= r <= spec_max_i64(a, b)
        }),
{
    let (a, b) = resolve_bounds(min, max, 0, 5, 1);
    random_int_range(a, b)
}

/// A string call's first argument: a length, or the letters-only flag in
/// the length's place.
#[derive(Debug, PartialEq, Eq)]
pub enum LenOrLetters {
    Len(u32),
    Letters(bool),
}

/// How a string call's arguments resolve to a length and the letters-only
/// flag: five characters by default, the flag defaulting to false.
pub open spec fn spec_string_config(
    length_or_letters: Option<LenOrLetters>,
    letters: Option<bool>,
) -> (nat, bool) {
    match length_or_letters {
        Some(LenOrLetters::Len(length)) => (
            length as nat,
            match letters {
                Some(l) => l,
                None => false,
            },
        ),
        Some(LenOrLetters::Letters(letters_only)) => (5 as nat, letters_only),
        None => (
            5 as nat,
            match letters {
                Some(l) => l,
                None => false,
            },
        ),
    }
}

/// Resolves a string call's arguments.
pub fn string_config(length_or_letters: Option<LenOrLetters>, letters: Option<bool>) -> (r: (
    usize,
    bool,
))
    ensures
        (r.0 as nat, r.1) == spec_string_config(length_or_letters, letters),
{
    match length_or_letters {
        Some(LenOrLetters::Len(length)) => (
            length as usize,
            match letters {
                Some(l) => l,
                None => false,
            },
        ),
        Some(LenOrLetters::Letters(letters_only)) => (5, letters_only),
        None => (
            5,
            match letters {
                Some(l) => l,
                None => false,
            },
        ),
    }
}

/// The character set a string is drawn from: the lower-case letters, or the
/// full set of letters, digits and punctuation.
pub open spec fn spec_charset(letters_only: bool) -> Seq<char> {
    if letters_only {
        "abcdefghijklmnopqrstuvwxyz"@
    } else {
        "ABCDEFGHIJKLMNOPQRSTUVWXYZabcdefghijklmnopqrstuvwxyz0123456789!@#$%^&*()_+-=[]{}|;:,.<>?/`~"@
    }
}

/// The character set the letters-only flag selects.
pub fn random_charset(letters_only: bool) -> (r: &'static str)
    ensures
        r@ == spec_charset(letters_only),
        r@.len() > 0,
{
    if letters_only {
        proof {
            reveal_strlit("abcdefghijklmnopqrstuvwxyz");
        }
        "abcdefghijklmnopqrstuvwxyz"
    } else {
        proof {
            reveal_strlit(
                "ABCDEFGHIJKLMNOPQRSTUVWXYZabcdefghijklmnopqrstuvwxyz0123456789!@#$%^&*()_+-=[]{}|;:,.<>?/`~",
            );
        }
        "ABCDEFGHIJKLMNOPQRSTUVWXYZabcdefghijklmnopqrstuvwxyz0123456789!@#$%^&*()_+-=[]{}|;:,.<>?/`~"
    }
}

/// A random string of the given length, every character drawn from the
/// given set.
pub fn random_string_from_charset(length: usize, charset: &str) -> (r: String)
    requires
        charset@.len() > 0,
    ensures
        r@.len() == length,
        forall|i: int| 0 <= i < r@.len() ==> charset@.contains(#[trigger] r@[i]),
{
    let n = charset.unicode_len();
    let mut out = String::new();
    let mut i: usize = 0;
    while i < length
        invariant
            n == charset@.len(),
            n > 0,
            0 <= i <= length,
            out@.len() == i,
            forall|j: int| 0 <= j < out@.len() ==> charset@.contains(#[trigger] out@[j]),
        decreases length - i,
    {
        let k = rand_index(n);
        let c = charset.get_char(k);
        push_char(&mut out, c);
        i = i + 1;
    }
    out
}

/// A random string: its length and character set resolve from the
/// arguments, five characters from the full set by default.
pub fn random_string(length_or_letters: Option<LenOrLetters>, letters: Option<bool>) -> (r: String)
    ensures
        ({
            let (length, letters_only) = spec_string_config(length_or_letters, letters);
            &&& r@.len() == length
            &&& forall|i: int|
                0 <= i < r@.len() ==> spec_charset(letters_only).contains(#[trigger] r@[i])
        }),
{
    let (length, letters_only) = string_config(length_or_letters, letters);
    if length == 0 {
        return String::new();
    }
    let charset = random_charset(letters_only);
    random_string_from_charset(length, charset)
}

} // verus!
