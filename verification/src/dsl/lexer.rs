//! Splits the text of a macro invocation into tokens.
//!
//! Tokens are identifiers, single punctuation characters, string literals
//! (kept decoded) and numeric literals (kept as written). Whitespace
//! separates tokens and is otherwise dropped.

use vstd::prelude::*;

verus! {

/// A token of a macro invocation.
#[derive(Debug, Clone, PartialEq, Eq)]
pub enum Token {
    /// An identifier or keyword.
    Ident(Vec<u8>),
    /// One punctuation character.
    Punct(u8),
    /// A string literal, holding the bytes of its decoded value.
    Literal(Vec<u8>),
    /// A numeric literal, holding its text as written.
    Number(Vec<u8>),
}

/// The mathematical value of a token.
pub enum Lexeme {
    /// An identifier or keyword.
    Ident(Seq<u8>),
    /// One punctuation character.
    Punct(u8),
    /// The decoded value of a string literal.
    Literal(Seq<u8>),
    /// The text of a numeric literal.
    Number(Seq<u8>),
}

impl View for Token {
    type V = Lexeme;

    open spec fn view(&self) -> Lexeme {
        match self {
            Token::Ident(text) => Lexeme::Ident(text@),
            Token::Punct(byte) => Lexeme::Punct(*byte),
            Token::Literal(value) => Lexeme::Literal(value@),
            Token::Number(text) => Lexeme::Number(text@),
        }
    }
}

/// The values of a sequence of tokens.
pub open spec fn lexemes(tokens: Seq<Token>) -> Seq<Lexeme> {
    tokens.map_values(|token: Token| token@)
}

/// Whitespace between tokens.
pub open spec fn is_space(byte: u8) -> bool {
    byte == 32 || (9 <= byte && byte <= 13)
}

/// A byte that may start an identifier.
pub open spec fn is_ident_start(byte: u8) -> bool {
    (65 <= byte && byte <= 90) || (97 <= byte && byte <= 122) || byte == 95
}

/// A decimal digit.
pub open spec fn is_digit(byte: u8) -> bool {
    48 <= byte && byte <= 57
}

/// A byte that may continue an identifier or numeric literal.
pub open spec fn is_word(byte: u8) -> bool {
    is_ident_start(byte) || is_digit(byte)
}

/// A hexadecimal digit.
pub open spec fn is_hex(byte: u8) -> bool {
    is_digit(byte) || (65 <= byte && byte <= 70) || (97 <= byte && byte <= 102)
}

/// The value of a hexadecimal digit.
pub open spec fn hex_value(byte: u8) -> nat {
    if is_digit(byte) {
        (byte - 48) as nat
    } else if 65 <= byte && byte <= 70 {
        (byte - 55) as nat
    } else {
        (byte - 87) as nat
    }
}

/// The end of the run of word bytes that starts at `start`.
pub open spec fn word_end(text: Seq<u8>, start: int) -> int
    recommends
        0 <= start <= text.len(),
    decreases text.len() - start,
{
    if 0 <= start < text.len() && is_word(text[start]) {
        word_end(text, start + 1)
    } else {
        start
    }
}

/// The first position at or after `start` that is not whitespace.
pub open spec fn space_end(text: Seq<u8>, start: int) -> int
    decreases text.len() - start,
{
    if 0 <= start < text.len() && is_space(text[start]) {
        space_end(text, start + 1)
    } else {
        start
    }
}

/// The first position at or after `start` that does not hold `#`.
pub open spec fn hash_end(text: Seq<u8>, start: int) -> int
    decreases text.len() - start,
{
    if 0 <= start < text.len() && text[start] == 35 {
        hash_end(text, start + 1)
    } else {
        start
    }
}

/// The value and end of the hexadecimal digits of a `\u{...}` escape,
/// starting at `start` with `digits` digits of value `value` already read.
pub open spec fn unicode_digits(text: Seq<u8>, start: int, value: nat, digits: nat) -> Option<(nat, int)>
    decreases text.len() - start,
{
    if !(0 <= start < text.len()) {
        None
    } else if text[start] == 125 {
        if digits > 0 {
            Some((value, start + 1))
        } else {
            None
        }
    } else if is_hex(text[start]) && digits < 6 {
        unicode_digits(text, start + 1, value * 16 + hex_value(text[start]), digits + 1)
    } else {
        None
    }
}

/// The bytes that an escape sequence stands for and the position after it;
/// `start` is the position just after the backslash.
pub open spec fn escape(text: Seq<u8>, start: int) -> Option<(Seq<u8>, int)> {
    if !(0 <= start < text.len()) {
        None
    } else {
        let byte = text[start];
        if byte == 110 {
            Some((seq![10u8], start + 1))
        } else if byte == 114 {
            Some((seq![13u8], start + 1))
        } else if byte == 116 {
            Some((seq![9u8], start + 1))
        } else if byte == 92 || byte == 39 || byte == 34 {
            Some((seq![byte], start + 1))
        } else if byte == 48 {
            Some((seq![0u8], start + 1))
        } else if byte == 120 {
            if start + 2 < text.len() && is_hex(text[start + 1]) && is_hex(text[start + 2])
                && hex_value(text[start + 1]) * 16 + hex_value(text[start + 2]) <= 0x7f {
                Some((seq![(hex_value(text[start + 1]) * 16 + hex_value(text[start + 2])) as u8], start + 3))
            } else {
                None
            }
        } else if byte == 10 {
            Some((Seq::empty(), space_end(text, start + 1)))
        } else if byte == 117 {
            if start + 1 < text.len() && text[start + 1] == 123 {
                match unicode_digits(text, start + 2, 0, 0) {
                    Some((value, end)) => if vstd::utf8::is_scalar(value as u32) && value <= 0x10FFFF {
                        Some((vstd::utf8::encode_scalar(value as u32), end))
                    } else {
                        None
                    },
                    None => None,
                }
            } else {
                None
            }
        } else {
            None
        }
    }
}

pub proof fn lemma_space_end(text: Seq<u8>, start: int)
    ensures
        space_end(text, start) >= start,
        0 <= start <= text.len() ==> space_end(text, start) <= text.len(),
    decreases text.len() - start,
{
    if 0 <= start < text.len() && is_space(text[start]) {
        lemma_space_end(text, start + 1);
    }
}

pub proof fn lemma_word_end(text: Seq<u8>, start: int)
    ensures
        word_end(text, start) >= start,
        0 <= start < text.len() && is_word(text[start]) ==> word_end(text, start) > start,
        0 <= start <= text.len() ==> word_end(text, start) <= text.len(),
    decreases text.len() - start,
{
    if 0 <= start < text.len() && is_word(text[start]) {
        lemma_word_end(text, start + 1);
    }
}

pub proof fn lemma_hash_end(text: Seq<u8>, start: int)
    ensures
        hash_end(text, start) >= start,
        0 <= start <= text.len() ==> hash_end(text, start) <= text.len(),
    decreases text.len() - start,
{
    if 0 <= start < text.len() && text[start] == 35 {
        lemma_hash_end(text, start + 1);
    }
}

pub proof fn lemma_unicode_digits(text: Seq<u8>, start: int, value: nat, digits: nat)
    ensures
        unicode_digits(text, start, value, digits) matches Some((_, end)) ==> start < end
            <= text.len(),
    decreases text.len() - start,
{
    if 0 <= start < text.len() && text[start] != 125 && is_hex(text[start]) && digits < 6 {
        lemma_unicode_digits(text, start + 1, value * 16 + hex_value(text[start]), digits + 1);
    }
}

pub proof fn lemma_escape(text: Seq<u8>, start: int)
    ensures
        escape(text, start) matches Some((_, end)) ==> start < end <= text.len(),
{
    if 0 <= start < text.len() {
        lemma_space_end(text, start + 1);
        lemma_unicode_digits(text, start + 2, 0, 0);
    }
}

/// The decoded value of a quoted string literal whose body starts at
/// `start`, and the position after its closing quote.
pub open spec fn quoted(text: Seq<u8>, start: int) -> Option<(Seq<u8>, int)>
    decreases text.len() - start,
{
    if !(0 <= start < text.len()) {
        None
    } else if text[start] == 34 {
        Some((Seq::empty(), start + 1))
    } else if text[start] == 92 {
        match escape(text, start + 1) {
            Some((bytes, next)) => {
                proof {
                    lemma_escape(text, start + 1);
                }
                match quoted(text, next) {
                    Some((rest, end)) => Some((bytes + rest, end)),
                    None => None,
                }
            },
            None => None,
        }
    } else {
        match quoted(text, start + 1) {
            Some((rest, end)) => Some((seq![text[start]] + rest, end)),
            None => None,
        }
    }
}

/// Whether `hashes` `#` characters follow position `start`.
pub open spec fn closes(text: Seq<u8>, start: int, hashes: int) -> bool {
    start + hashes <= text.len() && forall|k: int| 0 <= k < hashes ==> #[trigger] text[start + k] == 35
}

/// The position of the quote that closes a raw string literal opened with
/// `hashes` `#` characters, searching from `start`.
pub open spec fn raw_close(text: Seq<u8>, start: int, hashes: int) -> Option<int>
    decreases text.len() - start,
{
    if !(0 <= start < text.len()) {
        None
    } else if text[start] == 34 && closes(text, start + 1, hashes) {
        Some(start)
    } else {
        raw_close(text, start + 1, hashes)
    }
}

/// The token that starts at `start` and the position after it.
pub open spec fn token_at(text: Seq<u8>, start: int) -> Option<(Lexeme, int)> {
    if !(0 <= start < text.len()) {
        None
    } else {
        let byte = text[start];
        if byte == 114 && start + 1 < text.len() && (text[start + 1] == 34 || text[start + 1] == 35) {
            let open = hash_end(text, start + 1);
            let hashes = open - (start + 1);
            if open < text.len() && text[open] == 34 {
                match raw_close(text, open + 1, hashes) {
                    Some(close) => Some((Lexeme::Literal(text.subrange(open + 1, close)), close + 1 + hashes)),
                    None => None,
                }
            } else {
                None
            }
        } else if is_ident_start(byte) {
            Some((Lexeme::Ident(text.subrange(start, word_end(text, start))), word_end(text, start)))
        } else if is_digit(byte) {
            Some((Lexeme::Number(text.subrange(start, word_end(text, start))), word_end(text, start)))
        } else if byte == 34 {
            match quoted(text, start + 1) {
                Some((value, end)) => Some((Lexeme::Literal(value), end)),
                None => None,
            }
        } else if 33 <= byte && byte <= 126 && byte != 39 {
            Some((Lexeme::Punct(byte), start + 1))
        } else {
            None
        }
    }
}

pub proof fn lemma_quoted(text: Seq<u8>, start: int)
    ensures
        quoted(text, start) matches Some((_, end)) ==> start < end <= text.len(),
    decreases text.len() - start,
{
    if 0 <= start < text.len() && text[start] != 34 {
        if text[start] == 92 {
            lemma_escape(text, start + 1);
            if let Some((_, next)) = escape(text, start + 1) {
                lemma_quoted(text, next);
            }
        } else {
            lemma_quoted(text, start + 1);
        }
    }
}

pub proof fn lemma_raw_close(text: Seq<u8>, start: int, hashes: int)
    ensures
        raw_close(text, start, hashes) matches Some(close) ==> start <= close < text.len()
            && text[close] == 34 && closes(text, close + 1, hashes),
    decreases text.len() - start,
{
    if 0 <= start < text.len() && !(text[start] == 34 && closes(text, start + 1, hashes)) {
        lemma_raw_close(text, start + 1, hashes);
    }
}

pub proof fn lemma_token_at(text: Seq<u8>, start: int)
    ensures
        token_at(text, start) matches Some((_, end)) ==> start < end <= text.len(),
{
    if 0 <= start < text.len() {
        lemma_word_end(text, start);
        lemma_quoted(text, start + 1);
        lemma_hash_end(text, start + 1);
        let open = hash_end(text, start + 1);
        lemma_raw_close(text, open + 1, open - (start + 1));
    }
}

/// The tokens of `text` from `start` on, if all of it is well formed.
pub open spec fn lex_from(text: Seq<u8>, start: int) -> Option<Seq<Lexeme>>
    decreases text.len() - start,
{
    let begin = space_end(text, start);
    if !(0 <= begin < text.len()) {
        Some(Seq::empty())
    } else {
        match token_at(text, begin) {
            Some((token, next)) => {
                proof {
                    lemma_space_end(text, start);
                    lemma_token_at(text, begin);
                }
                if next <= start {
                    None
                } else {
                    match lex_from(text, next) {
                        Some(rest) => Some(seq![token] + rest),
                        None => None,
                    }
                }
            },
            None => None,
        }
    }
}

/// The tokens of `text`, if all of it is well formed.
pub open spec fn lex(text: Seq<u8>) -> Option<Seq<Lexeme>> {
    lex_from(text, 0)
}

fn is_space_byte(byte: u8) -> (space: bool)
    ensures
        space == is_space(byte),
{
    byte == 32 || (9 <= byte && byte <= 13)
}

fn is_word_byte(byte: u8) -> (word: bool)
    ensures
        word == is_word(byte),
{
    (65 <= byte && byte <= 90) || (97 <= byte && byte <= 122) || byte == 95 || (48 <= byte && byte <= 57)
}

fn hex_digit(byte: u8) -> (value: Option<u32>)
    ensures
        is_hex(byte) ==> value == Some(hex_value(byte) as u32),
        !is_hex(byte) ==> value is None,
{
    if 48 <= byte && byte <= 57 {
        Some((byte - 48) as u32)
    } else if 65 <= byte && byte <= 70 {
        Some((byte - 55) as u32)
    } else if 97 <= byte && byte <= 102 {
        Some((byte - 87) as u32)
    } else {
        None
    }
}

fn skip_space(text: &[u8], start: usize) -> (end: usize)
    requires
        start <= text@.len(),
    ensures
        end == space_end(text@, start as int),
        start <= end <= text@.len(),
{
    let mut index = start;
    while index < text.len() && is_space_byte(text[index])
        invariant
            start <= index <= text@.len(),
            space_end(text@, index as int) == space_end(text@, start as int),
        decreases text@.len() - index,
    {
        index = index + 1;
    }
    index
}

fn skip_word(text: &[u8], start: usize) -> (end: usize)
    requires
        start <= text@.len(),
    ensures
        end == word_end(text@, start as int),
        start <= end <= text@.len(),
{
    let mut index = start;
    while index < text.len() && is_word_byte(text[index])
        invariant
            start <= index <= text@.len(),
            word_end(text@, index as int) == word_end(text@, start as int),
        decreases text@.len() - index,
    {
        index = index + 1;
    }
    index
}

fn skip_hashes(text: &[u8], start: usize) -> (end: usize)
    requires
        start <= text@.len(),
    ensures
        end == hash_end(text@, start as int),
        start <= end <= text@.len(),
{
    let mut index = start;
    while index < text.len() && text[index] == 35
        invariant
            start <= index <= text@.len(),
            hash_end(text@, index as int) == hash_end(text@, start as int),
        decreases text@.len() - index,
    {
        index = index + 1;
    }
    index
}

/// Copies the bytes of `text` from `start` up to `end`.
pub fn copy_range(text: &[u8], start: usize, end: usize) -> (copy: Vec<u8>)
    requires
        start <= end <= text@.len(),
    ensures
        copy@ == text@.subrange(start as int, end as int),
{
    let mut copy: Vec<u8> = Vec::new();
    let mut index = start;
    while index < end
        invariant
            start <= index <= end,
            end <= text@.len(),
            copy@ == text@.subrange(start as int, index as int),
        decreases end - index,
    {
        copy.push(text[index]);
        proof {
            assert(copy@ =~= text@.subrange(start as int, index + 1));
        }
        index = index + 1;
    }
    copy
}

/// Copies all of `text`.
pub fn copy_bytes(text: &[u8]) -> (copy: Vec<u8>)
    ensures
        copy@ == text@,
{
    let copy = copy_range(text, 0, text.len());
    proof {
        assert(text@.subrange(0, text@.len() as int) =~= text@);
    }
    copy
}

fn scan_unicode(text: &[u8], start: usize) -> (result: Option<(u32, usize)>)
    requires
        start <= text@.len(),
    ensures
        match unicode_digits(text@, start as int, 0, 0) {
            Some((value, end)) => result matches Some((found, next)) && found == value && next == end,
            None => result is None,
        },
{
    let mut index = start;
    let mut value: u32 = 0;
    let mut digits: u32 = 0;
    while index < text.len()
        invariant
            start <= index <= text@.len(),
            digits <= 6,
            value < pow16(digits as nat),
            unicode_digits(text@, index as int, value as nat, digits as nat) == unicode_digits(
                text@,
                start as int,
                0,
                0,
            ),
        decreases text@.len() - index,
    {
        let byte = text[index];
        if byte == 125 {
            if digits > 0 {
                return Some((value, index + 1));
            } else {
                return None;
            }
        }
        match hex_digit(byte) {
            Some(digit) => {
                if digits >= 6 {
                    return None;
                }
                proof {
                    lemma_pow16_step(digits as nat);
                    assert(value * 16 + digit < pow16((digits + 1) as nat)) by (nonlinear_arith)
                        requires
                            value < pow16(digits as nat),
                            digit < 16,
                            pow16((digits + 1) as nat) == pow16(digits as nat) * 16,
                    ;
                    lemma_pow16_bound((digits + 1) as nat);
                }
                value = value * 16 + digit;
                digits = digits + 1;
            },
            None => return None,
        }
        index = index + 1;
    }
    None
}

/// Sixteen to the power `digits`.
pub open spec fn pow16(digits: nat) -> nat
    decreases digits,
{
    if digits == 0 {
        1
    } else {
        pow16((digits - 1) as nat) * 16
    }
}

pub proof fn lemma_pow16_step(digits: nat)
    ensures
        pow16(digits + 1) == pow16(digits) * 16,
{
}

pub proof fn lemma_pow16_bound(digits: nat)
    requires
        digits <= 6,
    ensures
        pow16(digits) <= 0x1000000,
{
    assert(pow16(0) == 1);
    assert(pow16(1) == 16);
    assert(pow16(2) == 0x100);
    assert(pow16(3) == 0x1000);
    assert(pow16(4) == 0x10000);
    assert(pow16(5) == 0x100000);
    assert(pow16(6) == 0x1000000);
}

fn push_scalar(out: &mut Vec<u8>, scalar: u32)
    requires
        vstd::utf8::is_scalar(scalar),
    ensures
        final(out)@ == old(out)@ + vstd::utf8::encode_scalar(scalar),
{
    let ghost before = out@;
    if scalar <= 0x7f {
        out.push((scalar & 0x7f) as u8);
    } else if scalar <= 0x7ff {
        out.push(0xC0 | ((scalar >> 6) & 0x1F) as u8);
        out.push(0x80 | (scalar & 0x3F) as u8);
    } else if scalar <= 0xffff {
        out.push(0xE0 | ((scalar >> 12) & 0x0F) as u8);
        out.push(0x80 | ((scalar >> 6) & 0x3F) as u8);
        out.push(0x80 | (scalar & 0x3F) as u8);
    } else {
        out.push(0xF0 | ((scalar >> 18) & 0x7) as u8);
        out.push(0x80 | ((scalar >> 12) & 0x3F) as u8);
        out.push(0x80 | ((scalar >> 6) & 0x3F) as u8);
        out.push(0x80 | (scalar & 0x3F) as u8);
    }
    proof {
        assert(out@ =~= before + vstd::utf8::encode_scalar(scalar));
    }
}

fn scan_escape(text: &[u8], start: usize, out: &mut Vec<u8>) -> (result: Option<usize>)
    requires
        start <= text@.len(),
    ensures
        match escape(text@, start as int) {
            Some((bytes, end)) => result == Some(end as usize) && final(out)@ == old(out)@ + bytes,
            None => result is None,
        },
{
    if start >= text.len() {
        return None;
    }
    let byte = text[start];
    let ghost before = out@;
    if byte == 110 {
        out.push(10);
    } else if byte == 114 {
        out.push(13);
    } else if byte == 116 {
        out.push(9);
    } else if byte == 92 || byte == 39 || byte == 34 {
        out.push(byte);
    } else if byte == 48 {
        out.push(0);
    } else if byte == 120 {
        if text.len() - start > 2 {
            match (hex_digit(text[start + 1]), hex_digit(text[start + 2])) {
                (Some(high), Some(low)) => {
                    if high * 16 + low <= 0x7f {
                        out.push((high * 16 + low) as u8);
                        proof {
                            assert(out@ =~= before + seq![(hex_value(text@[start + 1]) * 16 + hex_value(text@[start + 2])) as u8]);
                        }
                        return Some(start + 3);
                    }
                    return None;
                },
                _ => return None,
            }
        }
        return None;
    } else if byte == 10 {
        let end = skip_space(text, start + 1);
        proof {
            assert(out@ =~= before + Seq::<u8>::empty());
        }
        return Some(end);
    } else if byte == 117 {
        if start + 1 < text.len() && text[start + 1] == 123 {
            match scan_unicode(text, start + 2) {
                Some((value, end)) => {
                    if value <= 0x10FFFF && !(0xD800 <= value && value <= 0xDFFF) {
                        push_scalar(out, value);
                        return Some(end);
                    }
                    return None;
                },
                None => return None,
            }
        }
        return None;
    } else {
        return None;
    }
    proof {
        assert(out@ =~= before + escape(text@, start as int).unwrap().0);
    }
    Some(start + 1)
}

fn scan_quoted(text: &[u8], start: usize) -> (result: Option<(Vec<u8>, usize)>)
    requires
        start <= text@.len(),
    ensures
        match quoted(text@, start as int) {
            Some((value, end)) => result matches Some((found, next)) && found@ == value && next == end,
            None => result is None,
        },
{
    let mut out: Vec<u8> = Vec::new();
    let mut index = start;
    while index < text.len()
        invariant
            start <= index <= text@.len(),
            match quoted(text@, start as int) {
                Some((value, end)) => quoted(text@, index as int) matches Some((rest, tail)) && value
                    == out@ + rest && tail == end,
                None => quoted(text@, index as int) is None,
            },
        decreases text@.len() - index,
    {
        let byte = text[index];
        if byte == 34 {
            proof {
                assert(out@ + Seq::<u8>::empty() =~= out@);
            }
            return Some((out, index + 1));
        } else if byte == 92 {
            let ghost before = out@;
            match scan_escape(text, index + 1, &mut out) {
                Some(next) => {
                    proof {
                        lemma_escape(text@, index + 1);
                        let bytes = escape(text@, index + 1).unwrap().0;
                        if let Some((rest, _)) = quoted(text@, next as int) {
                            assert(before + (bytes + rest) =~= out@ + rest);
                        }
                    }
                    index = next;
                },
                None => return None,
            }
        } else {
            let ghost before = out@;
            out.push(byte);
            proof {
                if let Some((rest, _)) = quoted(text@, index + 1) {
                    assert(before + (seq![byte] + rest) =~= out@ + rest);
                }
            }
            index = index + 1;
        }
    }
    None
}

fn hashes_follow(text: &[u8], start: usize, hashes: usize) -> (found: bool)
    ensures
        found == closes(text@, start as int, hashes as int),
{
    if start > text.len() || hashes > text.len() - start {
        return false;
    }
    let mut index: usize = 0;
    while index < hashes
        invariant
            index <= hashes,
            start + hashes <= text@.len(),
            forall|k: int| 0 <= k < index ==> #[trigger] text@[start + k] == 35,
        decreases hashes - index,
    {
        let total = text.len();
        assert(start + index < total);
        let position = start + index;
        if text[position] != 35 {
            proof {
                assert(!(text@[start + index] == 35));
            }
            return false;
        }
        index = index + 1;
    }
    true
}

fn scan_raw(text: &[u8], start: usize, hashes: usize) -> (result: Option<usize>)
    requires
        start <= text@.len(),
    ensures
        match raw_close(text@, start as int, hashes as int) {
            Some(close) => result == Some(close as usize),
            None => result is None,
        },
{
    let mut index = start;
    while index < text.len()
        invariant
            start <= index <= text@.len(),
            raw_close(text@, index as int, hashes as int) == raw_close(text@, start as int, hashes as int),
        decreases text@.len() - index,
    {
        if text[index] == 34 && hashes_follow(text, index + 1, hashes) {
            return Some(index);
        }
        index = index + 1;
    }
    None
}

fn scan_token(text: &[u8], start: usize) -> (result: Option<(Token, usize)>)
    requires
        start < text@.len(),
    ensures
        match token_at(text@, start as int) {
            Some((token, end)) => result matches Some((found, next)) && found@ == token && next == end,
            None => result is None,
        },
{
    let byte = text[start];
    if byte == 114 && start + 1 < text.len() && (text[start + 1] == 34 || text[start + 1] == 35) {
        let open = skip_hashes(text, start + 1);
        let hashes = open - (start + 1);
        if open < text.len() && text[open] == 34 {
            match scan_raw(text, open + 1, hashes) {
                Some(close) => {
                    proof {
                        lemma_raw_close(text@, open + 1, hashes as int);
                    }
                    let value = copy_range(text, open + 1, close);
                    return Some((Token::Literal(value), close + 1 + hashes));
                },
                None => return None,
            }
        }
        return None;
    }
    if (65 <= byte && byte <= 90) || (97 <= byte && byte <= 122) || byte == 95 {
        let end = skip_word(text, start);
        return Some((Token::Ident(copy_range(text, start, end)), end));
    }
    if 48 <= byte && byte <= 57 {
        let end = skip_word(text, start);
        return Some((Token::Number(copy_range(text, start, end)), end));
    }
    if byte == 34 {
        match scan_quoted(text, start + 1) {
            Some((value, end)) => return Some((Token::Literal(value), end)),
            None => return None,
        }
    }
    if 33 <= byte && byte <= 126 && byte != 39 {
        return Some((Token::Punct(byte), start + 1));
    }
    None
}

/// Splits `text` into tokens, or returns `None` when some part of it is not
/// a well-formed token.
pub fn tokenize(text: &[u8]) -> (result: Option<Vec<Token>>)
    ensures
        match lex(text@) {
            Some(tokens) => result matches Some(found) && lexemes(found@) == tokens,
            None => result is None,
        },
{
    let mut tokens: Vec<Token> = Vec::new();
    let mut index: usize = 0;
    while index < text.len()
        invariant
            index <= text@.len(),
            match lex(text@) {
                Some(all) => lex_from(text@, index as int) matches Some(rest) && all == lexemes(tokens@)
                    + rest,
                None => lex_from(text@, index as int) is None,
            },
        decreases text@.len() - index,
    {
        let begin = skip_space(text, index);
        if begin >= text.len() {
            proof {
                assert(lex_from(text@, index as int) == Some(Seq::<Lexeme>::empty()));
                assert(lexemes(tokens@) + Seq::<Lexeme>::empty() =~= lexemes(tokens@));
            }
            return Some(tokens);
        }
        match scan_token(text, begin) {
            Some((token, next)) => {
                proof {
                    lemma_space_end(text@, index as int);
                    lemma_token_at(text@, begin as int);
                }
                let ghost before = tokens@;
                tokens.push(token);
                proof {
                    if let Some(rest) = lex_from(text@, next as int) {
                        assert(lexemes(before) + (seq![token@] + rest) =~= lexemes(tokens@) + rest);
                    }
                }
                index = next;
            },
            None => return None,
        }
    }
    proof {
        assert(lex_from(text@, index as int) == Some(Seq::<Lexeme>::empty()));
        assert(lexemes(tokens@) + Seq::<Lexeme>::empty() =~= lexemes(tokens@));
    }
    Some(tokens)
}

/// The single-character escapes stand for the bytes Rust gives them: `\n`
/// a line feed, `\r` a carriage return, `\t` a tab, `\0` a zero byte, and
/// `\\`, `\'` and `\"` the character itself.
pub proof fn lemma_simple_escapes(text: Seq<u8>, start: int)
    requires
        0 <= start < text.len(),
    ensures
        text[start] == 110 ==> escape(text, start) == Some((seq![10u8], start + 1)),
        text[start] == 114 ==> escape(text, start) == Some((seq![13u8], start + 1)),
        text[start] == 116 ==> escape(text, start) == Some((seq![9u8], start + 1)),
        text[start] == 48 ==> escape(text, start) == Some((seq![0u8], start + 1)),
        text[start] == 92 ==> escape(text, start) == Some((seq![92u8], start + 1)),
        text[start] == 39 ==> escape(text, start) == Some((seq![39u8], start + 1)),
        text[start] == 34 ==> escape(text, start) == Some((seq![34u8], start + 1)),
{
}

/// A `\x` escape of two hexadecimal digits stands for the byte they spell in
/// base sixteen, when it is at most `0x7f`; digits `0`-`9` count 0 to 9 and
/// the letters `a`-`f` or `A`-`F` count 10 to 15.
pub proof fn lemma_hex_escape(text: Seq<u8>, start: int, high: nat, low: nat)
    requires
        0 <= start,
        start + 2 < text.len(),
        text[start] == 120,
        high < 16,
        low < 16,
        text[start + 1] == (if high < 10 { 48 + high } else { 87 + high }) as u8
            || (high >= 10 && text[start + 1] == (55 + high) as u8),
        text[start + 2] == (if low < 10 { 48 + low } else { 87 + low }) as u8
            || (low >= 10 && text[start + 2] == (55 + low) as u8),
    ensures
        high * 16 + low <= 0x7f ==> escape(text, start) == Some((seq![(high * 16 + low) as u8], start + 3)),
        high * 16 + low > 0x7f ==> escape(text, start) is None,
{
}

} // verus!
