//! Reads `metal_kernel!` and `metal_library!` declarations from their tokens.

use vstd::prelude::*;

use super::grammar::{
    digit_value, integer_literal, is_radix_part, radix_base, radix_digits_below, radix_end,
    radix_has_digit, radix_literal, radix_literal_value, radix_prefixed, radix_value, bool_at, buffer_at, buffers_at, buffers_rest, closes_at, decimal_literal, digit_between, digits_end,
    field_at, head_at, integer_at, kernel_buffers, kernel_declaration, kernel_tail,
    library_declaration, literal_at, name_at, path_rest, punct_at, segment_at, source_at, template_at,
    templates_at, templates_rest, visibility_at, word_at,
};
use super::lexer::{Lexeme, Token, copy_bytes, lexemes};
use super::model::{
    BufferDecl, KernelDecl, LibraryDecl, SourceDecl, TemplateDecl, TemplateDefault, Visibility,
    buffer_models, byte_strings, template_models,
};
use super::words::{
    is_keyword_text, is_word_atomic_outputs, is_word_bool, is_word_crate, is_word_dtype,
    is_word_false, is_word_file, is_word_fn, is_word_header, is_word_in, is_word_inline,
    is_word_inputs, is_word_int, is_word_name, is_word_outputs, is_word_pub,
    is_word_row_contiguous, is_word_scalar, is_word_self, is_word_source, is_word_super,
    is_word_templates, is_word_true, word_atomic_outputs, word_bool, word_crate, word_dtype,
    word_false, word_file, word_fn, word_header, word_in, word_inline, word_inputs, word_int,
    word_name, word_outputs, word_pub, word_row_contiguous, word_scalar, word_self, word_source,
    word_super, word_templates, word_true,
};

verus! {

pub(crate) fn punct_token(tokens: &[Token], at: usize, byte: u8) -> (found: bool)
    ensures
        found == punct_at(lexemes(tokens@), at as int, byte),
{
    if at < tokens.len() {
        match &tokens[at] {
            Token::Punct(found) => *found == byte,
            _ => false,
        }
    } else {
        false
    }
}

pub(crate) fn ident_token(tokens: &[Token], at: usize) -> (text: Option<&Vec<u8>>)
    ensures
        match text {
            Some(text) => at < tokens@.len() && lexemes(tokens@)[at as int] == Lexeme::Ident(text@),
            None => !(at < tokens@.len() && lexemes(tokens@)[at as int] is Ident),
        },
{
    if at < tokens.len() {
        match &tokens[at] {
            Token::Ident(text) => Some(text),
            _ => None,
        }
    } else {
        None
    }
}

pub(crate) fn name_token(tokens: &[Token], at: usize) -> (found: Option<Vec<u8>>)
    ensures
        match name_at(lexemes(tokens@), at as int) {
            Some(text) => found matches Some(copy) && copy@ == text,
            None => found is None,
        },
{
    match ident_token(tokens, at) {
        Some(text) => if is_keyword_text(text.as_slice()) {
            None
        } else {
            Some(copy_bytes(text.as_slice()))
        },
        None => None,
    }
}

pub(crate) fn literal_token(tokens: &[Token], at: usize) -> (found: Option<Vec<u8>>)
    ensures
        match literal_at(lexemes(tokens@), at as int) {
            Some(value) => found matches Some(copy) && copy@ == value,
            None => found is None,
        },
{
    if at < tokens.len() {
        match &tokens[at] {
            Token::Literal(value) => Some(copy_bytes(value.as_slice())),
            _ => None,
        }
    } else {
        None
    }
}

pub(crate) fn boolean_token(tokens: &[Token], at: usize) -> (found: Option<bool>)
    ensures
        found == bool_at(lexemes(tokens@), at as int),
{
    match ident_token(tokens, at) {
        Some(text) => if is_word_true(text.as_slice()) {
            Some(true)
        } else if is_word_false(text.as_slice()) {
            Some(false)
        } else {
            None
        },
        None => None,
    }
}

/// Returns the end of the digit part of an integer literal's text.
pub fn digit_part_end(text: &[u8], start: usize) -> (end: usize)
    requires
        start <= text@.len(),
    ensures
        end == digits_end(text@, start as int),
        start <= end <= text@.len(),
{
    let mut index = start;
    while index < text.len() && ((48 <= text[index] && text[index] <= 57) || text[index] == 95)
        invariant
            start <= index <= text@.len(),
            digits_end(text@, index as int) == digits_end(text@, start as int),
        decreases text@.len() - index,
    {
        index = index + 1;
    }
    index
}

fn is_decimal_literal(text: &[u8]) -> (found: bool)
    ensures
        found == decimal_literal(text@),
{
    if text.len() == 0 || !(48 <= text[0] && text[0] <= 57) {
        return false;
    }
    if text.len() > 1 && text[0] == 48 && (text[1] == 120 || text[1] == 111 || text[1] == 98) {
        return false;
    }
    let end = digit_part_end(text, 0);
    if end < text.len() && (text[end] == 101 || text[end] == 69) {
        let exponent_end = digit_part_end(text, end + 1);
        let mut index = end + 1;
        while index < exponent_end
            invariant
                end + 1 <= index <= exponent_end,
                exponent_end <= text@.len(),
                end == digits_end(text@, 0),
                end < text@.len(),
                text@[end as int] == 101 || text@[end as int] == 69,
                exponent_end == digits_end(text@, end + 1),
                forall|k: int| end + 1 <= k < index ==> !(48 <= #[trigger] text@[k] && text@[k] <= 57),
            decreases exponent_end - index,
        {
            if 48 <= text[index] && text[index] <= 57 {
                proof {
                    assert(digit_between(text@, end + 1, exponent_end as int));
                }
                return false;
            }
            index = index + 1;
        }
    }
    true
}

fn digit_of(byte: u8) -> (digit: u128)
    requires
        (48 <= byte && byte <= 57) || (97 <= byte && byte <= 102) || (65 <= byte && byte <= 70),
    ensures
        digit == digit_value(byte),
{
    if 48 <= byte && byte <= 57 {
        (byte - 48) as u128
    } else if 97 <= byte && byte <= 102 {
        (byte - 87) as u128
    } else {
        (byte - 55) as u128
    }
}

proof fn lemma_radix_end_after(text: Seq<u8>, base: nat, start: int)
    ensures
        radix_end(text, base, start) >= start,
    decreases text.len() - start,
{
    if 0 <= start < text.len() && is_radix_part(text[start], base) {
        lemma_radix_end_after(text, base, start + 1);
    }
}

proof fn lemma_radix_value_grows(text: Seq<u8>, base: nat, start: int, end: int)
    requires
        base >= 1,
        start <= end,
    ensures
        radix_value(text, base, start) <= radix_value(text, base, end),
    decreases end - start,
{
    if start < end {
        lemma_radix_value_grows(text, base, start, end - 1);
        if end > 2 && text[end - 1] != 95 {
            let before = radix_value(text, base, end - 1);
            assert(before * base >= before) by (nonlinear_arith)
                requires
                    base >= 1,
            ;
        }
    }
}

/// Scans the digit part of a hexadecimal, octal or binary literal: where it
/// ends, whether every digit is below the base, whether a digit is present,
/// and its value, or `None` when the value exceeds `u128`.
pub fn radix_scan(text: &[u8]) -> (scan: Option<(usize, bool, bool, u128)>)
    requires
        radix_prefixed(text@),
    ensures
        match scan {
            None => radix_literal_value(text@) > u128::MAX,
            Some((end, below, has_digit, value)) => {
                &&& end == radix_end(text@, radix_base(text@), 2)
                &&& below == radix_digits_below(text@, radix_base(text@), end as int)
                &&& has_digit == radix_has_digit(text@, end as int)
                &&& value == radix_literal_value(text@)
            },
        },
{
    let base: u128 = if text[1] == 120 {
        16
    } else if text[1] == 111 {
        8
    } else {
        2
    };
    let ghost b = radix_base(text@);
    let mut index: usize = 2;
    let mut value: u128 = 0;
    let mut below = true;
    let mut has_digit = false;
    while index < text.len() && (text[index] == 95 || (48 <= text[index] && text[index] <= 57) || (
    base == 16 && ((97 <= text[index] && text[index] <= 102) || (65 <= text[index] && text[index]
        <= 70))))
        invariant
            2 <= index <= text@.len(),
            base == b,
            b == radix_base(text@),
            b == 16 || b == 8 || b == 2,
            radix_end(text@, b, index as int) == radix_end(text@, b, 2),
            value == radix_value(text@, b, index as int),
            below == radix_digits_below(text@, b, index as int),
            has_digit == radix_has_digit(text@, index as int),
        decreases text@.len() - index,
    {
        let byte = text[index];
        proof {
            assert(is_radix_part(byte, b));
        }
        if byte != 95 {
            let digit = digit_of(byte);
            if digit >= base {
                below = false;
            }
            has_digit = true;
            let next = match value.checked_mul(base) {
                Some(scaled) => scaled.checked_add(digit),
                None => None,
            };
            match next {
                Some(updated) => {
                    value = updated;
                },
                None => {
                    proof {
                        assert(radix_value(text@, b, index + 1) == value * b + digit_value(byte));
                        assert(value * b + digit_value(byte) > u128::MAX) by (nonlinear_arith)
                            requires
                                value * b > u128::MAX || value * b + digit_value(byte) > u128::MAX,
                        ;
                        lemma_radix_end_after(text@, b, index + 1);
                        lemma_radix_value_grows(text@, b, index + 1, radix_end(text@, b, 2));
                    }
                    return None;
                },
            }
        }
        proof {
            assert(radix_has_digit(text@, index + 1) == (has_digit));
            assert(radix_digits_below(text@, b, index + 1) == below);
        }
        index = index + 1;
    }
    Some((index, below, has_digit, value))
}

fn is_integer_literal(text: &[u8]) -> (found: bool)
    ensures
        found == integer_literal(text@),
{
    if is_decimal_literal(text) {
        return true;
    }
    if !(text.len() > 1 && text[0] == 48 && (text[1] == 120 || text[1] == 111 || text[1] == 98)) {
        return false;
    }
    match radix_scan(text) {
        Some((_, below, has_digit, _)) => below && has_digit,
        None => false,
    }
}

pub(crate) fn integer_token(tokens: &[Token], at: usize) -> (found: Option<(bool, Vec<u8>, usize)>)
    ensures
        match integer_at(lexemes(tokens@), at as int) {
            Some((negative, text, end)) => found matches Some((sign, copy, next)) && sign == negative
                && copy@ == text && next == end,
            None => found is None,
        },
{
    if at < tokens.len() && punct_token(tokens, at, 45) && at + 1 < tokens.len() {
        match &tokens[at + 1] {
            Token::Number(text) => if is_integer_literal(text.as_slice()) {
                Some((true, copy_bytes(text.as_slice()), at + 2))
            } else {
                None
            },
            _ => None,
        }
    } else if at < tokens.len() && !punct_token(tokens, at, 45) {
        match &tokens[at] {
            Token::Number(text) => if is_integer_literal(text.as_slice()) {
                Some((false, copy_bytes(text.as_slice()), at + 1))
            } else {
                None
            },
            _ => None,
        }
    } else {
        None
    }
}

fn is_word_token(tokens: &[Token], at: usize, which: u8) -> (found: bool)
    requires
        which < 3,
    ensures
        which == 0 ==> found == word_at(lexemes(tokens@), at as int, word_crate()),
        which == 1 ==> found == word_at(lexemes(tokens@), at as int, word_self()),
        which == 2 ==> found == word_at(lexemes(tokens@), at as int, word_super()),
{
    match ident_token(tokens, at) {
        Some(text) => if which == 0 {
            is_word_crate(text.as_slice())
        } else if which == 1 {
            is_word_self(text.as_slice())
        } else {
            is_word_super(text.as_slice())
        },
        None => false,
    }
}

fn segment_token(tokens: &[Token], at: usize) -> (found: Option<Vec<u8>>)
    ensures
        match segment_at(lexemes(tokens@), at as int) {
            Some(text) => found matches Some(copy) && copy@ == text,
            None => found is None,
        },
{
    match ident_token(tokens, at) {
        Some(text) => if is_word_crate(text.as_slice()) || is_word_self(text.as_slice())
            || is_word_super(text.as_slice()) {
            Some(copy_bytes(text.as_slice()))
        } else {
            name_token(tokens, at)
        },
        None => None,
    }
}

fn path_token(tokens: &[Token], at: usize, first: Vec<u8>) -> (found: (Vec<Vec<u8>>, usize))
    ensures
        path_rest(lexemes(tokens@), at as int, seq![first@]) == (byte_strings(found.0@), found.1 as int),
{
    let mut segments: Vec<Vec<u8>> = Vec::new();
    let ghost first_model = first@;
    segments.push(first);
    proof {
        assert(byte_strings(segments@) =~= seq![first_model]);
    }
    let mut index = at;
    while index < tokens.len() && punct_token(tokens, index, 58) && index + 1 < tokens.len() && punct_token(
        tokens,
        index + 1,
        58,
    ) && index + 2 < tokens.len()
        invariant
            at <= index,
            path_rest(lexemes(tokens@), at as int, seq![first_model]) == path_rest(
                lexemes(tokens@),
                index as int,
                byte_strings(segments@),
            ),
        ensures
            path_rest(lexemes(tokens@), index as int, byte_strings(segments@)) == (
                byte_strings(segments@),
                index as int,
            ),
        decreases tokens@.len() - index,
    {
        match segment_token(tokens, index + 2) {
            Some(part) => {
                let ghost before = segments@;
                segments.push(part);
                proof {
                    assert(byte_strings(segments@) =~= byte_strings(before).push(part@));
                }
                index = index + 3;
            },
            None => break,
        }
    }
    (segments, index)
}

pub(crate) fn visibility_token(tokens: &[Token]) -> (found: (Visibility, usize))
    ensures
        visibility_at(lexemes(tokens@), 0) == (found.0@, found.1 as int),
{
    let is_pub = match ident_token(tokens, 0) {
        Some(text) => is_word_pub(text.as_slice()),
        None => false,
    };
    if !is_pub {
        return (Visibility::Inherited, 0);
    }
    if !punct_token(tokens, 1, 40) {
        return (Visibility::Public, 1);
    }
    if is_word_token(tokens, 2, 0) && punct_token(tokens, 3, 41) {
        return (Visibility::Crate, 4);
    }
    if is_word_token(tokens, 2, 1) && punct_token(tokens, 3, 41) {
        return (Visibility::SelfScope, 4);
    }
    if is_word_token(tokens, 2, 2) && punct_token(tokens, 3, 41) {
        return (Visibility::Super, 4);
    }
    let is_in = match ident_token(tokens, 2) {
        Some(text) => is_word_in(text.as_slice()),
        None => false,
    };
    if is_in {
        if let Some(first) = segment_token(tokens, 3) {
            let (segments, end) = path_token(tokens, 4, first);
            if end < tokens.len() && punct_token(tokens, end, 41) {
                return (Visibility::Restricted(segments), end + 1);
            }
        }
    }
    (Visibility::Public, 1)
}

pub(crate) fn template_token(tokens: &[Token], at: usize) -> (found: Option<(TemplateDecl, usize)>)
    ensures
        match template_at(lexemes(tokens@), at as int) {
            Some((item, end)) => found matches Some((decl, next)) && decl@ == item && next == end,
            None => found is None,
        },
{
    let name = match name_token(tokens, at) {
        Some(name) => name,
        None => return None,
    };
    if at > tokens.len() || tokens.len() - at < 5 || !punct_token(tokens, at + 1, 58) || !punct_token(tokens, at + 3, 61) {
        return None;
    }
    let kind = match name_token(tokens, at + 2) {
        Some(kind) => kind,
        None => return None,
    };
    if is_word_dtype(kind.as_slice()) {
        match name_token(tokens, at + 4) {
            Some(element) => Some((TemplateDecl { name, default: TemplateDefault::DType(element) }, at + 5)),
            None => None,
        }
    } else if is_word_int(kind.as_slice()) {
        match integer_token(tokens, at + 4) {
            Some((negative, literal, end)) => Some(
                (TemplateDecl { name, default: TemplateDefault::Int { negative, literal } }, end),
            ),
            None => None,
        }
    } else if is_word_bool(kind.as_slice()) {
        match boolean_token(tokens, at + 4) {
            Some(value) => Some((TemplateDecl { name, default: TemplateDefault::Bool(value) }, at + 5)),
            None => None,
        }
    } else {
        None
    }
}

pub(crate) fn buffer_token(tokens: &[Token], at: usize) -> (found: Option<(BufferDecl, usize)>)
    ensures
        match buffer_at(lexemes(tokens@), at as int) {
            Some((item, end)) => found matches Some((decl, next)) && decl@ == item && next == end,
            None => found is None,
        },
{
    let name = match name_token(tokens, at) {
        Some(name) => name,
        None => return None,
    };
    if at > tokens.len() || tokens.len() - at < 3 || !punct_token(tokens, at + 1, 58) {
        return None;
    }
    let marker = match name_token(tokens, at + 2) {
        Some(marker) => marker,
        None => return None,
    };
    if is_word_scalar(marker.as_slice()) {
        if tokens.len() - at < 6 || !punct_token(tokens, at + 3, 60) || !punct_token(tokens, at + 5, 62) {
            return None;
        }
        match name_token(tokens, at + 4) {
            Some(element) => Some((BufferDecl { name, scalar: true, element }, at + 6)),
            None => None,
        }
    } else {
        Some((BufferDecl { name, scalar: false, element: marker }, at + 3))
    }
}

pub(crate) fn template_list(tokens: &[Token], at: usize) -> (found: Option<(Vec<TemplateDecl>, usize)>)
    ensures
        match templates_at(lexemes(tokens@), at as int) {
            Some((items, end)) => found matches Some((decls, next)) && template_models(decls@) == items
                && next == end,
            None => found is None,
        },
{
    if at >= tokens.len() || !punct_token(tokens, at, 91) {
        return None;
    }
    let ghost toks = lexemes(tokens@);
    let mut items: Vec<TemplateDecl> = Vec::new();
    let mut index = at + 1;
    proof {
        assert(template_models(items@) =~= Seq::empty());
    }
    while index < tokens.len()
        invariant
            at < index,
            toks == lexemes(tokens@),
            templates_at(toks, at as int) == templates_rest(toks, index as int, template_models(items@)),
        decreases tokens@.len() - index,
    {
        if punct_token(tokens, index, 93) {
            return Some((items, index + 1));
        }
        match template_token(tokens, index) {
            None => return None,
            Some((item, next)) => {
                if next <= index {
                    return None;
                }
                let ghost before = items@;
                items.push(item);
                proof {
                    assert(template_models(items@) =~= template_models(before).push(item@));
                }
                if punct_token(tokens, next, 93) {
                    return Some((items, next + 1));
                } else if punct_token(tokens, next, 44) {
                    index = next + 1;
                } else {
                    return None;
                }
            },
        }
    }
    None
}

pub(crate) fn buffer_list(tokens: &[Token], at: usize) -> (found: Option<(Vec<BufferDecl>, usize)>)
    ensures
        match buffers_at(lexemes(tokens@), at as int) {
            Some((items, end)) => found matches Some((decls, next)) && buffer_models(decls@) == items
                && next == end,
            None => found is None,
        },
{
    if at >= tokens.len() || !punct_token(tokens, at, 91) {
        return None;
    }
    let ghost toks = lexemes(tokens@);
    let mut items: Vec<BufferDecl> = Vec::new();
    let mut index = at + 1;
    proof {
        assert(buffer_models(items@) =~= Seq::empty());
    }
    while index < tokens.len()
        invariant
            at < index,
            toks == lexemes(tokens@),
            buffers_at(toks, at as int) == buffers_rest(toks, index as int, buffer_models(items@)),
        decreases tokens@.len() - index,
    {
        if punct_token(tokens, index, 93) {
            return Some((items, index + 1));
        }
        match buffer_token(tokens, index) {
            None => return None,
            Some((item, next)) => {
                if next <= index {
                    return None;
                }
                let ghost before = items@;
                items.push(item);
                proof {
                    assert(buffer_models(items@) =~= buffer_models(before).push(item@));
                }
                if punct_token(tokens, next, 93) {
                    return Some((items, next + 1));
                } else if punct_token(tokens, next, 44) {
                    index = next + 1;
                } else {
                    return None;
                }
            },
        }
    }
    None
}

pub(crate) fn source_token(tokens: &[Token], at: usize) -> (found: Option<(SourceDecl, usize)>)
    ensures
        match source_at(lexemes(tokens@), at as int) {
            Some((item, end)) => found matches Some((decl, next)) && decl@ == item && next == end,
            None => found is None,
        },
{
    if at >= tokens.len() {
        return None;
    }
    let mode = match name_token(tokens, at) {
        Some(mode) => mode,
        None => return None,
    };
    let value = match literal_token(tokens, at + 1) {
        Some(value) => value,
        None => return None,
    };
    if is_word_inline(mode.as_slice()) {
        Some((SourceDecl::Inline(value), at + 2))
    } else if is_word_file(mode.as_slice()) {
        Some((SourceDecl::File(value), at + 2))
    } else {
        None
    }
}

pub(crate) fn field_token(tokens: &[Token], at: usize, which: u8) -> (found: bool)
    requires
        which < 10,
    ensures
        which == 0 ==> found == field_at(lexemes(tokens@), at as int, word_name()),
        which == 1 ==> found == field_at(lexemes(tokens@), at as int, word_templates()),
        which == 2 ==> found == field_at(lexemes(tokens@), at as int, word_inputs()),
        which == 3 ==> found == field_at(lexemes(tokens@), at as int, word_outputs()),
        which == 4 ==> found == field_at(lexemes(tokens@), at as int, word_source()),
        which == 5 ==> found == field_at(lexemes(tokens@), at as int, word_header()),
        which == 6 ==> found == field_at(lexemes(tokens@), at as int, word_row_contiguous()),
        which == 7 ==> found == field_at(lexemes(tokens@), at as int, word_atomic_outputs()),
{
    let label = match ident_token(tokens, at) {
        Some(text) => if which == 0 {
            is_word_name(text.as_slice())
        } else if which == 1 {
            is_word_templates(text.as_slice())
        } else if which == 2 {
            is_word_inputs(text.as_slice())
        } else if which == 3 {
            is_word_outputs(text.as_slice())
        } else if which == 4 {
            is_word_source(text.as_slice())
        } else if which == 5 {
            is_word_header(text.as_slice())
        } else if which == 6 {
            is_word_row_contiguous(text.as_slice())
        } else if which == 7 {
            is_word_atomic_outputs(text.as_slice())
        } else {
            false
        },
        None => false,
    };
    label && at < tokens.len() && punct_token(tokens, at + 1, 58)
}

pub(crate) fn closes_token(tokens: &[Token], at: usize) -> (found: bool)
    ensures
        found == closes_at(lexemes(tokens@), at as int),
{
    if at >= tokens.len() {
        return false;
    }
    if punct_token(tokens, at, 44) {
        punct_token(tokens, at + 1, 125) && at + 2 == tokens.len()
    } else {
        punct_token(tokens, at, 125) && at + 1 == tokens.len()
    }
}

pub(crate) fn head_token(tokens: &[Token]) -> (found: Option<(Visibility, Vec<u8>, usize)>)
    ensures
        match head_at(lexemes(tokens@)) {
            Some((visibility, function, at)) => found matches Some((vis, name, next)) && vis@
                == visibility && name@ == function && next == at,
            None => found is None,
        },
{
    let (visibility, at) = visibility_token(tokens);
    let is_fn = match ident_token(tokens, at) {
        Some(text) => is_word_fn(text.as_slice()),
        None => false,
    };
    if !is_fn || at >= tokens.len() {
        return None;
    }
    let function = match name_token(tokens, at + 1) {
        Some(function) => function,
        None => return None,
    };
    if !punct_token(tokens, at + 2, 123) {
        return None;
    }
    Some((visibility, function, at + 3))
}

pub(crate) fn tail_token(tokens: &[Token], at: usize) -> (found: Option<(SourceDecl, SourceDecl, bool, bool)>)
    ensures
        match kernel_tail(lexemes(tokens@), at as int) {
            Some((source, header, row, atomic)) => found matches Some((s, h, r, a)) && s@ == source
                && h@ == header && r == row && a == atomic,
            None => found is None,
        },
{
    if at >= tokens.len() || !field_token(tokens, at, 4) {
        return None;
    }
    let (source, a) = match source_token(tokens, at + 2) {
        Some(found) => found,
        None => return None,
    };
    if a >= tokens.len() || !punct_token(tokens, a, 44) || !field_token(tokens, a + 1, 5) {
        return None;
    }
    let (header, b) = match source_token(tokens, a + 3) {
        Some(found) => found,
        None => return None,
    };
    if b >= tokens.len() || !punct_token(tokens, b, 44) || !field_token(tokens, b + 1, 6) {
        return None;
    }
    let row_contiguous = match boolean_token(tokens, b + 3) {
        Some(value) => value,
        None => return None,
    };
    if !punct_token(tokens, b + 4, 44) || !field_token(tokens, b + 5, 7) {
        return None;
    }
    let atomic_outputs = match boolean_token(tokens, b + 7) {
        Some(value) => value,
        None => return None,
    };
    if !closes_token(tokens, b + 8) {
        return None;
    }
    Some((source, header, row_contiguous, atomic_outputs))
}

pub(crate) fn buffer_fields(tokens: &[Token], at: usize) -> (found: Option<
    (Vec<BufferDecl>, Vec<BufferDecl>, SourceDecl, SourceDecl, bool, bool),
>)
    ensures
        match kernel_buffers(lexemes(tokens@), at as int) {
            Some((inputs, outputs, source, header, row, atomic)) => found matches Some(
                (i, o, s, h, r, a),
            ) && buffer_models(i@) == inputs && buffer_models(o@) == outputs && s@ == source && h@
                == header && r == row && a == atomic,
            None => found is None,
        },
{
    if at >= tokens.len() || !field_token(tokens, at, 2) {
        return None;
    }
    let (inputs, a) = match buffer_list(tokens, at + 2) {
        Some(found) => found,
        None => return None,
    };
    if a >= tokens.len() || !punct_token(tokens, a, 44) || !field_token(tokens, a + 1, 3) {
        return None;
    }
    let (outputs, b) = match buffer_list(tokens, a + 3) {
        Some(found) => found,
        None => return None,
    };
    if b >= tokens.len() || !punct_token(tokens, b, 44) {
        return None;
    }
    match tail_token(tokens, b + 1) {
        Some((source, header, row_contiguous, atomic_outputs)) => Some(
            (inputs, outputs, source, header, row_contiguous, atomic_outputs),
        ),
        None => None,
    }
}

/// Reads a `metal_kernel!` declaration from its tokens.
pub fn parse_kernel(tokens: &[Token]) -> (found: Option<KernelDecl>)
    ensures
        match kernel_declaration(lexemes(tokens@)) {
            Some(kernel) => found matches Some(decl) && decl@ == kernel,
            None => found is None,
        },
{
    let (visibility, function, at) = match head_token(tokens) {
        Some(found) => found,
        None => return None,
    };
    if at >= tokens.len() || !field_token(tokens, at, 0) {
        return None;
    }
    let name = match literal_token(tokens, at + 2) {
        Some(name) => name,
        None => return None,
    };
    if !punct_token(tokens, at + 3, 44) || !field_token(tokens, at + 4, 1) {
        return None;
    }
    let (templates, a) = match template_list(tokens, at + 6) {
        Some(found) => found,
        None => return None,
    };
    if a >= tokens.len() || !punct_token(tokens, a, 44) {
        return None;
    }
    match buffer_fields(tokens, a + 1) {
        Some((inputs, outputs, source, header, row_contiguous, atomic_outputs)) => Some(
            KernelDecl {
                visibility,
                function,
                name,
                templates,
                inputs,
                outputs,
                source,
                header,
                row_contiguous,
                atomic_outputs,
            },
        ),
        None => None,
    }
}

/// Reads a `metal_library!` declaration from its tokens.
pub fn parse_library(tokens: &[Token]) -> (found: Option<LibraryDecl>)
    ensures
        match library_declaration(lexemes(tokens@)) {
            Some(library) => found matches Some(decl) && decl@ == library,
            None => found is None,
        },
{
    let (visibility, function, at) = match head_token(tokens) {
        Some(found) => found,
        None => return None,
    };
    if at >= tokens.len() || !field_token(tokens, at, 0) {
        return None;
    }
    let name = match literal_token(tokens, at + 2) {
        Some(name) => name,
        None => return None,
    };
    if !punct_token(tokens, at + 3, 44) || !field_token(tokens, at + 4, 4) {
        return None;
    }
    let (source, end) = match source_token(tokens, at + 6) {
        Some(found) => found,
        None => return None,
    };
    if !closes_token(tokens, end) {
        return None;
    }
    Some(LibraryDecl { visibility, function, name, source })
}

} // verus!
