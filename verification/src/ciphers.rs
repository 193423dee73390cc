//! Letter ciphers: the ROT rotation over ASCII letters and the Morse code.

use vstd::prelude::*;

use crate::text::{ascii_lower_char, is_space_char, lower_char, push_char, space_char, str_eq};

verus! {

/// The rotation a caller's shift argument resolves to: reduced modulo the
/// alphabet, an absent or ineffective (zero) shift falling back to thirteen.
pub open spec fn spec_rot_shift(shift: Option<u8>) -> u8 {
    let n = (match shift {
        None => 13u8,
        Some(s) => s,
    }) % 26;
    if n == 0 {
        13u8
    } else {
        n
    }
}

/// Resolves the shift argument; the result always moves every letter.
pub fn normalize_rot_shift(shift: Option<u8>) -> (r: u8)
    ensures
        r == spec_rot_shift(shift),
        1 <= r <= 25,
{
    let value = match shift {
        None => 13u8,
        Some(s) => s,
    };
    let normalized = value % 26;
    if normalized == 0 {
        13
    } else {
        normalized
    }
}

/// Rotates one letter byte within its alphabet of twenty-six.
pub fn rotate_letter(byte: u8, base: u8, shift: u8) -> (r: u8)
    requires
        base <= byte < base + 26,
        shift < 26,
        base <= 97,
    ensures
        r == ((byte - base + shift) % 26) + base,
{
    ((byte - base + shift) % 26) + base
}

/// One character under the rotation: ASCII letters rotate within their
/// case's alphabet, everything else is unchanged.
pub open spec fn spec_rotate_char(c: char, shift: u8) -> char {
    if 'a' <= c && c <= 'z' {
        (((((c as u32) - 97 + (shift as u32)) % 26) + 97) as u8) as char
    } else if 'A' <= c && c <= 'Z' {
        (((((c as u32) - 65 + (shift as u32)) % 26) + 65) as u8) as char
    } else {
        c
    }
}

/// Rotates one character.
pub fn rotate_ascii_char(ch: char, shift: u8) -> (r: char)
    requires
        shift < 26,
    ensures
        r == spec_rotate_char(ch, shift),
{
    if 'a' <= ch && ch <= 'z' {
        rotate_letter((ch as u32) as u8, 97, shift) as char
    } else if 'A' <= ch && ch <= 'Z' {
        rotate_letter((ch as u32) as u8, 65, shift) as char
    } else {
        ch
    }
}

/// Rotates every ASCII letter of the input by the resolved shift.
pub fn rot(input: String, shift: Option<u8>) -> (r: String)
    ensures
        r@ == input@.map_values(|c: char| spec_rotate_char(c, spec_rot_shift(shift))),
{
    let normalized_shift = normalize_rot_shift(shift);
    let n = input.as_str().unicode_len();
    let mut out = String::new();
    let mut i: usize = 0;
    while i < n
        invariant
            n == input@.len(),
            0 <= i <= n,
            normalized_shift == spec_rot_shift(shift),
            normalized_shift < 26,
            out@ =~= input@.take(i as int).map_values(
                |c: char| spec_rotate_char(c, spec_rot_shift(shift)),
            ),
        decreases n - i,
    {
        push_char(&mut out, rotate_ascii_char(input.as_str().get_char(i), normalized_shift));
        proof {
            assert(input@.take(i + 1).map_values(
                |c: char| spec_rotate_char(c, spec_rot_shift(shift)),
            ) =~= input@.take(i as int).map_values(
                |c: char| spec_rotate_char(c, spec_rot_shift(shift)),
            ).push(spec_rotate_char(input@[i as int], spec_rot_shift(shift))));
        }
        i = i + 1;
    }
    proof {
        assert(input@.take(n as int) =~= input@);
    }
    out
}

/// The Morse code of a lower-case letter, digit or accepted punctuation mark.
pub open spec fn spec_morse_code(c: char) -> Option<Seq<char>> {
    if c == 'a' {
        Some(".-"@)
    } else if c == 'b' {
        Some("-..."@)
    } else if c == 'c' {
        Some("-.-."@)
    } else if c == 'd' {
        Some("-.."@)
    } else if c == 'e' {
        Some("."@)
    } else if c == 'f' {
        Some("..-."@)
    } else if c == 'g' {
        Some("--."@)
    } else if c == 'h' {
        Some("...."@)
    } else if c == 'i' {
        Some(".."@)
    } else if c == 'j' {
        Some(".---"@)
    } else if c == 'k' {
        Some("-.-"@)
    } else if c == 'l' {
        Some(".-.."@)
    } else if c == 'm' {
        Some("--"@)
    } else if c == 'n' {
        Some("-."@)
    } else if c == 'o' {
        Some("---"@)
    } else if c == 'p' {
        Some(".--."@)
    } else if c == 'q' {
        Some("--.-"@)
    } else if c == 'r' {
        Some(".-."@)
    } else if c == 's' {
        Some("..."@)
    } else if c == 't' {
        Some("-"@)
    } else if c == 'u' {
        Some("..-"@)
    } else if c == 'v' {
        Some("...-"@)
    } else if c == 'w' {
        Some(".--"@)
    } else if c == 'x' {
        Some("-..-"@)
    } else if c == 'y' {
        Some("-.--"@)
    } else if c == 'z' {
        Some("--.."@)
    } else if c == '0' {
        Some("-----"@)
    } else if c == '1' {
        Some(".----"@)
    } else if c == '2' {
        Some("..---"@)
    } else if c == '3' {
        Some("...--"@)
    } else if c == '4' {
        Some("....-"@)
    } else if c == '5' {
        Some("....."@)
    } else if c == '6' {
        Some("-...."@)
    } else if c == '7' {
        Some("--..."@)
    } else if c == '8' {
        Some("---.."@)
    } else if c == '9' {
        Some("----."@)
    } else if c == '.' {
        Some(".-.-.-"@)
    } else if c == ',' {
        Some("--..--"@)
    } else if c == '?' {
        Some("..--.."@)
    } else if c == '!' {
        Some("-.-.--"@)
    } else if c == '\'' {
        Some(".----."@)
    } else if c == '/' {
        Some("-..-."@)
    } else if c == '(' {
        Some("-.--."@)
    } else if c == ')' {
        Some("-.--.-"@)
    } else if c == '&' {
        Some(".-..."@)
    } else if c == ':' {
        Some("---..."@)
    } else if c == ';' {
        Some("-.-.-."@)
    } else if c == '=' {
        Some("-...-"@)
    } else if c == '+' {
        Some(".-.-."@)
    } else if c == '-' {
        Some("-....-"@)
    } else if c == '_' {
        Some("..--.-"@)
    } else if c == '"' {
        Some(".-..-."@)
    } else if c == '$' {
        Some("...-..-"@)
    } else if c == '@' {
        Some(".--.-."@)
    } else {
        None
    }
}

/// Looks a character's Morse code up, case-insensitively.
pub fn morse_code_for(ch: char) -> (r: Option<&'static str>)
    ensures
        match r {
            Some(code) => spec_morse_code(ascii_lower_char(ch)) == Some(code@),
            None => spec_morse_code(ascii_lower_char(ch)) is None,
        },
{
    let c = lower_char(ch);
    match c {
        'a' => Some(".-"),
        'b' => Some("-..."),
        'c' => Some("-.-."),
        'd' => Some("-.."),
        'e' => Some("."),
        'f' => Some("..-."),
        'g' => Some("--."),
        'h' => Some("...."),
        'i' => Some(".."),
        'j' => Some(".---"),
        'k' => Some("-.-"),
        'l' => Some(".-.."),
        'm' => Some("--"),
        'n' => Some("-."),
        'o' => Some("---"),
        'p' => Some(".--."),
        'q' => Some("--.-"),
        'r' => Some(".-."),
        's' => Some("..."),
        't' => Some("-"),
        'u' => Some("..-"),
        'v' => Some("...-"),
        'w' => Some(".--"),
        'x' => Some("-..-"),
        'y' => Some("-.--"),
        'z' => Some("--.."),
        '0' => Some("-----"),
        '1' => Some(".----"),
        '2' => Some("..---"),
        '3' => Some("...--"),
        '4' => Some("....-"),
        '5' => Some("....."),
        '6' => Some("-...."),
        '7' => Some("--..."),
        '8' => Some("---.."),
        '9' => Some("----."),
        '.' => Some(".-.-.-"),
        ',' => Some("--..--"),
        '?' => Some("..--.."),
        '!' => Some("-.-.--"),
        '\'' => Some(".----."),
        '/' => Some("-..-."),
        '(' => Some("-.--."),
        ')' => Some("-.--.-"),
        '&' => Some(".-..."),
        ':' => Some("---..."),
        ';' => Some("-.-.-."),
        '=' => Some("-...-"),
        '+' => Some(".-.-."),
        '-' => Some("-....-"),
        '_' => Some("..--.-"),
        '"' => Some(".-..-."),
        '$' => Some("...-..-"),
        '@' => Some(".--.-."),
        _ => None,
    }
}

/// The character a Morse code denotes.
pub open spec fn spec_morse_char(code: Seq<char>) -> Option<char> {
    if code == ".-"@ {
        Some('a')
    } else if code == "-..."@ {
        Some('b')
    } else if code == "-.-."@ {
        Some('c')
    } else if code == "-.."@ {
        Some('d')
    } else if code == "."@ {
        Some('e')
    } else if code == "..-."@ {
        Some('f')
    } else if code == "--."@ {
        Some('g')
    } else if code == "...."@ {
        Some('h')
    } else if code == ".."@ {
        Some('i')
    } else if code == ".---"@ {
        Some('j')
    } else if code == "-.-"@ {
        Some('k')
    } else if code == ".-.."@ {
        Some('l')
    } else if code == "--"@ {
        Some('m')
    } else if code == "-."@ {
        Some('n')
    } else if code == "---"@ {
        Some('o')
    } else if code == ".--."@ {
        Some('p')
    } else if code == "--.-"@ {
        Some('q')
    } else if code == ".-."@ {
        Some('r')
    } else if code == "..."@ {
        Some('s')
    } else if code == "-"@ {
        Some('t')
    } else if code == "..-"@ {
        Some('u')
    } else if code == "...-"@ {
        Some('v')
    } else if code == ".--"@ {
        Some('w')
    } else if code == "-..-"@ {
        Some('x')
    } else if code == "-.--"@ {
        Some('y')
    } else if code == "--.."@ {
        Some('z')
    } else if code == "-----"@ {
        Some('0')
    } else if code == ".----"@ {
        Some('1')
    } else if code == "..---"@ {
        Some('2')
    } else if code == "...--"@ {
        Some('3')
    } else if code == "....-"@ {
        Some('4')
    } else if code == "....."@ {
        Some('5')
    } else if code == "-...."@ {
        Some('6')
    } else if code == "--..."@ {
        Some('7')
    } else if code == "---.."@ {
        Some('8')
    } else if code == "----."@ {
        Some('9')
    } else if code == ".-.-.-"@ {
        Some('.')
    } else if code == "--..--"@ {
        Some(',')
    } else if code == "..--.."@ {
        Some('?')
    } else if code == "-.-.--"@ {
        Some('!')
    } else if code == ".----."@ {
        Some('\'')
    } else if code == "-..-."@ {
        Some('/')
    } else if code == "-.--."@ {
        Some('(')
    } else if code == "-.--.-"@ {
        Some(')')
    } else if code == ".-..."@ {
        Some('&')
    } else if code == "---..."@ {
        Some(':')
    } else if code == "-.-.-."@ {
        Some(';')
    } else if code == "-...-"@ {
        Some('=')
    } else if code == ".-.-."@ {
        Some('+')
    } else if code == "-....-"@ {
        Some('-')
    } else if code == "..--.-"@ {
        Some('_')
    } else if code == ".-..-."@ {
        Some('"')
    } else if code == "...-..-"@ {
        Some('$')
    } else if code == ".--.-."@ {
        Some('@')
    } else {
        None
    }
}

/// Looks the character of a Morse code up.
pub fn morse_char_for(code: &str) -> (r: Option<char>)
    ensures
        r == spec_morse_char(code@),
{
    if str_eq(code, ".-") {
        Some('a')
    } else if str_eq(code, "-...") {
        Some('b')
    } else if str_eq(code, "-.-.") {
        Some('c')
    } else if str_eq(code, "-..") {
        Some('d')
    } else if str_eq(code, ".") {
        Some('e')
    } else if str_eq(code, "..-.") {
        Some('f')
    } else if str_eq(code, "--.") {
        Some('g')
    } else if str_eq(code, "....") {
        Some('h')
    } else if str_eq(code, "..") {
        Some('i')
    } else if str_eq(code, ".---") {
        Some('j')
    } else if str_eq(code, "-.-") {
        Some('k')
    } else if str_eq(code, ".-..") {
        Some('l')
    } else if str_eq(code, "--") {
        Some('m')
    } else if str_eq(code, "-.") {
        Some('n')
    } else if str_eq(code, "---") {
        Some('o')
    } else if str_eq(code, ".--.") {
        Some('p')
    } else if str_eq(code, "--.-") {
        Some('q')
    } else if str_eq(code, ".-.") {
        Some('r')
    } else if str_eq(code, "...") {
        Some('s')
    } else if str_eq(code, "-") {
        Some('t')
    } else if str_eq(code, "..-") {
        Some('u')
    } else if str_eq(code, "...-") {
        Some('v')
    } else if str_eq(code, ".--") {
        Some('w')
    } else if str_eq(code, "-..-") {
        Some('x')
    } else if str_eq(code, "-.--") {
        Some('y')
    } else if str_eq(code, "--..") {
        Some('z')
    } else if str_eq(code, "-----") {
        Some('0')
    } else if str_eq(code, ".----") {
        Some('1')
    } else if str_eq(code, "..---") {
        Some('2')
    } else if str_eq(code, "...--") {
        Some('3')
    } else if str_eq(code, "....-") {
        Some('4')
    } else if str_eq(code, ".....") {
        Some('5')
    } else if str_eq(code, "-....") {
        Some('6')
    } else if str_eq(code, "--...") {
        Some('7')
    } else if str_eq(code, "---..") {
        Some('8')
    } else if str_eq(code, "----.") {
        Some('9')
    } else if str_eq(code, ".-.-.-") {
        Some('.')
    } else if str_eq(code, "--..--") {
        Some(',')
    } else if str_eq(code, "..--..") {
        Some('?')
    } else if str_eq(code, "-.-.--") {
        Some('!')
    } else if str_eq(code, ".----.") {
        Some('\'')
    } else if str_eq(code, "-..-.") {
        Some('/')
    } else if str_eq(code, "-.--.") {
        Some('(')
    } else if str_eq(code, "-.--.-") {
        Some(')')
    } else if str_eq(code, ".-...") {
        Some('&')
    } else if str_eq(code, "---...") {
        Some(':')
    } else if str_eq(code, "-.-.-.") {
        Some(';')
    } else if str_eq(code, "-...-") {
        Some('=')
    } else if str_eq(code, ".-.-.") {
        Some('+')
    } else if str_eq(code, "-....-") {
        Some('-')
    } else if str_eq(code, "..--.-") {
        Some('_')
    } else if str_eq(code, ".-..-.") {
        Some('"')
    } else if str_eq(code, "...-..-") {
        Some('$')
    } else if str_eq(code, ".--.-.") {
        Some('@')
    } else {
        None
    }
}

/// The Morse tokens of a text: a `/` for each whitespace character, the
/// code of each encodable character, nothing for the rest.
pub open spec fn spec_morse_tokens(s: Seq<char>) -> Seq<Seq<char>>
    decreases s.len(),
{
    if s.len() == 0 {
        Seq::empty()
    } else {
        let init = spec_morse_tokens(s.drop_last());
        if is_space_char(s.last()) {
            init.push("/"@)
        } else {
            match spec_morse_code(ascii_lower_char(s.last())) {
                Some(code) => init.push(code),
                None => init,
            }
        }
    }
}

/// Tokens joined by single spaces.
pub open spec fn spec_join_spaces(tokens: Seq<Seq<char>>) -> Seq<char>
    decreases tokens.len(),
{
    if tokens.len() == 0 {
        Seq::empty()
    } else if tokens.len() == 1 {
        tokens[0]
    } else {
        spec_join_spaces(tokens.drop_last()) + seq![' '] + tokens.last()
    }
}

/// Encodes a text in Morse: whitespace becomes `/`, unencodable characters
/// vanish, and the tokens are joined by single spaces.
pub fn morse_encode(input: String) -> (r: String)
    ensures
        r@ == spec_join_spaces(spec_morse_tokens(input@)),
{
    let n = input.as_str().unicode_len();
    let mut out = String::new();
    let mut any: bool = false;
    let mut i: usize = 0;
    while i < n
        invariant
            n == input@.len(),
            0 <= i <= n,
            any == (spec_morse_tokens(input@.take(i as int)).len() > 0),
            out@ == spec_join_spaces(spec_morse_tokens(input@.take(i as int))),
        decreases n - i,
    {
        let c = input.as_str().get_char(i);
        let ghost tokens_before = spec_morse_tokens(input@.take(i as int));
        proof {
            assert(input@.take(i + 1).drop_last() =~= input@.take(i as int));
            assert(input@.take(i + 1).last() == input@[i as int]);
        }
        let token: Option<&'static str>;
        if space_char(c) {
            token = Some("/");
            proof {
                assert(spec_morse_tokens(input@.take(i + 1)) == tokens_before.push("/"@));
            }
        } else {
            token = morse_code_for(c);
            proof {
                match token {
                    Some(code) => {
                        assert(spec_morse_tokens(input@.take(i + 1)) == tokens_before.push(
                            code@,
                        ));
                    },
                    None => {
                        assert(spec_morse_tokens(input@.take(i + 1)) == tokens_before);
                    },
                }
            }
        }
        match token {
            Some(code) => {
                proof {
                    let tokens_after = spec_morse_tokens(input@.take(i + 1));
                    assert(tokens_after == tokens_before.push(code@));
                    assert(tokens_after.drop_last() =~= tokens_before);
                    assert(tokens_after.last() == code@);
                }
                if any {
                    out.append(" ");
                }
                out.append(code);
                proof {
                    assert(" "@ =~= seq![' ']) by {
                        reveal_strlit(" ");
                    }
                    let tokens_after = spec_morse_tokens(input@.take(i + 1));
                    assert(out@ =~= spec_join_spaces(tokens_after));
                }
                any = true;
            },
            None => {},
        }
        i = i + 1;
    }
    proof {
        assert(input@.take(n as int) =~= input@);
    }
    out
}

/// Whether decoding inserts a word space: only after output that does not
/// already end in one.
pub open spec fn spec_should_insert_space(out: Seq<char>) -> bool {
    out.len() > 0 && out.last() != ' '
}

/// Decides `spec_should_insert_space`.
pub fn should_insert_space(output: &str) -> (r: bool)
    ensures
        r == spec_should_insert_space(output@),
{
    let n = output.unicode_len();
    n > 0 && output.get_char(n - 1) != ' '
}

/// The whitespace-separated tokens of a text, in order.
pub open spec fn spec_ws_tokens(s: Seq<char>) -> Seq<Seq<char>>
    decreases s.len(),
{
    if s.len() == 0 {
        Seq::empty()
    } else {
        let init = spec_ws_tokens(s.drop_last());
        if is_space_char(s.last()) {
            init
        } else if s.len() > 1 && !is_space_char(s[s.len() - 2]) {
            init.update(init.len() - 1, init.last().push(s.last()))
        } else {
            init.push(seq![s.last()])
        }
    }
}

/// One decoding step: a `/` token inserts a word space where one is due,
/// a known code appends its character, anything else is ignored.
pub open spec fn spec_morse_decode_step(out: Seq<char>, token: Seq<char>) -> Seq<char> {
    if token == "/"@ {
        if spec_should_insert_space(out) {
            out.push(' ')
        } else {
            out
        }
    } else {
        match spec_morse_char(token) {
            Some(c) => out.push(c),
            None => out,
        }
    }
}

/// The decoded text of a token list.
pub open spec fn spec_morse_decode_fold(tokens: Seq<Seq<char>>) -> Seq<char>
    decreases tokens.len(),
{
    if tokens.len() == 0 {
        Seq::empty()
    } else {
        spec_morse_decode_step(spec_morse_decode_fold(tokens.drop_last()), tokens.last())
    }
}

/// Decodes Morse: tokens are read in order, `/` marks a word space, and
/// unknown codes are ignored.
pub fn morse_decode(input: String) -> (r: String)
    ensures
        r@ == spec_morse_decode_fold(spec_ws_tokens(input@)),
{
    let tokens = split_whitespace_tokens(input.as_str());
    let m = tokens.len();
    let mut out = String::new();
    let mut j: usize = 0;
    while j < m
        invariant
            m == tokens@.len(),
            crate::text::views(tokens@) == spec_ws_tokens(input@),
            out@ == spec_morse_decode_fold(crate::text::views(tokens@).take(j as int)),
            0 <= j <= m,
        decreases m - j,
    {
        let ghost tvs = crate::text::views(tokens@);
        proof {
            assert(tvs.take(j + 1).drop_last() =~= tvs.take(j as int));
            assert(tvs.take(j + 1).last() == tvs[j as int]);
        }
        let token: &String = &tokens[j];
        let is_sep = str_eq(token.as_str(), "/");
        if is_sep {
            if should_insert_space(out.as_str()) {
                push_char(&mut out, ' ');
            }
        } else {
            match morse_char_for(token.as_str()) {
                Some(c) => {
                    push_char(&mut out, c);
                },
                None => {},
            }
        }
        j = j + 1;
    }
    proof {
        assert(crate::text::views(tokens@).take(m as int) =~= crate::text::views(tokens@));
    }
    out
}

/// Splits a text at whitespace runs into its tokens.
fn split_whitespace_tokens(s: &str) -> (r: Vec<String>)
    ensures
        crate::text::views(r@) == spec_ws_tokens(s@),
{
    let n = s.unicode_len();
    let mut tokens: Vec<String> = Vec::new();
    let mut cur: String = String::new();
    let mut in_token: bool = false;
    let mut i: usize = 0;
    proof {
        assert(s@.take(0) =~= Seq::<char>::empty());
        assert(crate::text::views(tokens@) =~= Seq::<Seq<char>>::empty());
    }
    while i < n
        invariant
            n == s@.len(),
            0 <= i <= n,
            in_token == (i > 0 && !is_space_char(s@[i - 1])),
            in_token ==> cur@.len() > 0,
            !in_token ==> (crate::text::views(tokens@) == spec_ws_tokens(s@.take(i as int))
                && cur@.len() == 0),
            in_token ==> crate::text::views(tokens@).push(cur@) == spec_ws_tokens(
                s@.take(i as int),
            ) && cur@ == spec_ws_tokens(s@.take(i as int)).last(),
        decreases n - i,
    {
        let c = s.get_char(i);
        proof {
            assert(s@.take(i + 1).drop_last() =~= s@.take(i as int));
            assert(s@.take(i + 1).last() == s@[i as int]);
        }
        if space_char(c) {
            if in_token {
                tokens.push(cur);
                cur = String::new();
                proof {
                    assert(crate::text::views(tokens@) =~= spec_ws_tokens(s@.take(i + 1)));
                }
            }
            in_token = false;
        } else {
            push_char(&mut cur, c);
            proof {
                if in_token {
                    let prev = spec_ws_tokens(s@.take(i as int));
                    assert(spec_ws_tokens(s@.take(i + 1)) == prev.update(
                        prev.len() - 1,
                        prev.last().push(s@[i as int]),
                    ));
                    assert(crate::text::views(tokens@).push(cur@) =~= spec_ws_tokens(
                        s@.take(i + 1),
                    ));
                } else {
                    assert(spec_ws_tokens(s@.take(i + 1)) == spec_ws_tokens(
                        s@.take(i as int),
                    ).push(seq![s@[i as int]]));
                    assert(cur@ =~= seq![s@[i as int]]);
                    assert(crate::text::views(tokens@).push(cur@) =~= spec_ws_tokens(
                        s@.take(i + 1),
                    ));
                }
            }
            in_token = true;
        }
        i = i + 1;
    }
    proof {
        assert(s@.take(n as int) =~= s@);
    }
    if in_token {
        tokens.push(cur);
        proof {
            assert(crate::text::views(tokens@) =~= spec_ws_tokens(s@));
        }
    }
    tokens
}

} // verus!
