//! What is wrong with a declaration that does not parse: the message for
//! the first token, in reading order, at which the grammar fails.

use vstd::prelude::*;

use super::grammar::{
    bool_at, buffer_at, buffers_at, closes_at, field_at, head_at, integer_at, literal_at, name_at,
    punct_at, source_at, template_at, templates_at, visibility_at, word_at,
};
use super::lexer::{Lexeme, Token, lexemes};
use super::parser::{
    boolean_token, buffer_list, buffer_token, closes_token, field_token, head_token, ident_token, integer_token,
    literal_token, name_token, punct_token, source_token, template_list, template_token,
    visibility_token,
};
use super::text::{append_word, ascii_chars, is_word_byte, lemma_keyword_bytes};
use super::words::{
    is_keyword, is_keyword_text, is_word_atomic_outputs, is_word_bool, is_word_dtype, is_word_fn,
    is_word_header, is_word_inputs, is_word_int, is_word_name, is_word_outputs,
    is_word_row_contiguous, is_word_scalar, is_word_source, is_word_templates, word_atomic_outputs,
    word_bool, word_dtype, word_fn, word_header, word_inputs, word_int, word_name, word_outputs,
    word_row_contiguous, word_scalar, word_source, word_templates,
};

verus! {

/// The field label selected by `which`, in declaration order.
pub open spec fn field_word(which: u8) -> Seq<u8> {
    if which == 0 {
        word_name()
    } else if which == 1 {
        word_templates()
    } else if which == 2 {
        word_inputs()
    } else if which == 3 {
        word_outputs()
    } else if which == 4 {
        word_source()
    } else if which == 5 {
        word_header()
    } else if which == 6 {
        word_row_contiguous()
    } else {
        word_atomic_outputs()
    }
}

/// The message for a token that should be an identifier.
pub open spec fn ident_fault(tokens: Seq<Lexeme>, at: int) -> Seq<char> {
    if 0 <= at < tokens.len() {
        match tokens[at] {
            Lexeme::Ident(word) => if is_keyword(word) {
                "expected identifier, found keyword `"@ + ascii_chars(word) + "`"@
            } else {
                "expected identifier"@
            },
            _ => "expected identifier"@,
        }
    } else {
        "expected identifier"@
    }
}

/// The message for a field label that is missing at `at`.
pub open spec fn label_fault(tokens: Seq<Lexeme>, at: int, which: u8) -> Seq<char> {
    if word_at(tokens, at, field_word(which)) {
        "expected `:`"@
    } else if name_at(tokens, at) is Some {
        "expected `"@ + ascii_chars(field_word(which)) + "`"@
    } else {
        ident_fault(tokens, at)
    }
}

/// The message for a source that does not parse at `at`: a mode word and
/// a string literal are read before the mode is checked.
pub open spec fn source_fault(tokens: Seq<Lexeme>, at: int) -> Seq<char> {
    if name_at(tokens, at) is None {
        ident_fault(tokens, at)
    } else if literal_at(tokens, at + 1) is None {
        "expected string literal"@
    } else {
        "expected `inline` or `file`"@
    }
}

/// The message for a template declaration that does not parse at `at`.
pub open spec fn template_fault(tokens: Seq<Lexeme>, at: int) -> Seq<char> {
    if name_at(tokens, at) is None {
        ident_fault(tokens, at)
    } else if !punct_at(tokens, at + 1, 58) {
        "expected `:`"@
    } else if name_at(tokens, at + 2) is None {
        ident_fault(tokens, at + 2)
    } else if !punct_at(tokens, at + 3, 61) {
        "expected `=`"@
    } else if name_at(tokens, at + 2) == Some(word_dtype()) {
        ident_fault(tokens, at + 4)
    } else if name_at(tokens, at + 2) == Some(word_int()) {
        "expected integer literal"@
    } else if name_at(tokens, at + 2) == Some(word_bool()) {
        "expected boolean literal"@
    } else {
        "expected `dtype`, `int`, or `bool`"@
    }
}

/// The message for a buffer declaration that does not parse at `at`.
pub open spec fn buffer_fault(tokens: Seq<Lexeme>, at: int) -> Seq<char> {
    if name_at(tokens, at) is None {
        ident_fault(tokens, at)
    } else if !punct_at(tokens, at + 1, 58) {
        "expected `:`"@
    } else if name_at(tokens, at + 2) is None {
        ident_fault(tokens, at + 2)
    } else if !punct_at(tokens, at + 3, 60) {
        "expected `<`"@
    } else if name_at(tokens, at + 4) is None {
        ident_fault(tokens, at + 4)
    } else {
        "expected `>`"@
    }
}

/// The message for a template list that fails from `at` on, inside its
/// brackets.
pub open spec fn templates_fault(tokens: Seq<Lexeme>, at: int) -> Seq<char>
    decreases tokens.len() - at,
{
    if !(0 <= at < tokens.len()) {
        "expected `]`"@
    } else if punct_at(tokens, at, 93) {
        "expected `,`"@
    } else {
        match template_at(tokens, at) {
            None => template_fault(tokens, at),
            Some((_, next)) => if next > at && !punct_at(tokens, next, 93) && punct_at(tokens, next, 44) {
                templates_fault(tokens, next + 1)
            } else {
                "expected `,`"@
            },
        }
    }
}

/// The message for a buffer list that fails from `at` on, inside its
/// brackets.
pub open spec fn buffers_fault(tokens: Seq<Lexeme>, at: int) -> Seq<char>
    decreases tokens.len() - at,
{
    if !(0 <= at < tokens.len()) {
        "expected `]`"@
    } else if punct_at(tokens, at, 93) {
        "expected `,`"@
    } else {
        match buffer_at(tokens, at) {
            None => buffer_fault(tokens, at),
            Some((_, next)) => if next > at && !punct_at(tokens, next, 93) && punct_at(tokens, next, 44) {
                buffers_fault(tokens, next + 1)
            } else {
                "expected `,`"@
            },
        }
    }
}

/// The message for a bracketed list that fails at `at`.
pub open spec fn list_fault(tokens: Seq<Lexeme>, at: int, templates: bool) -> Seq<char> {
    if !punct_at(tokens, at, 91) {
        "expected square brackets"@
    } else if templates {
        templates_fault(tokens, at + 1)
    } else {
        buffers_fault(tokens, at + 1)
    }
}

/// The message for a declaration head that does not parse.
pub open spec fn head_fault(tokens: Seq<Lexeme>) -> Seq<char> {
    let at = visibility_at(tokens, 0).1;
    if !word_at(tokens, at, word_fn()) {
        "expected `fn`"@
    } else if name_at(tokens, at + 1) is None {
        ident_fault(tokens, at + 1)
    } else {
        "expected curly braces"@
    }
}

/// The message for the fields of a kernel declaration from `source` on.
pub open spec fn tail_fault(tokens: Seq<Lexeme>, at: int) -> Seq<char> {
    if !field_at(tokens, at, word_source()) {
        label_fault(tokens, at, 4)
    } else {
        match source_at(tokens, at + 2) {
            None => source_fault(tokens, at + 2),
            Some((_, a)) => if !punct_at(tokens, a, 44) {
                "expected `,`"@
            } else if !field_at(tokens, a + 1, word_header()) {
                label_fault(tokens, a + 1, 5)
            } else {
                match source_at(tokens, a + 3) {
                    None => source_fault(tokens, a + 3),
                    Some((_, b)) => if !punct_at(tokens, b, 44) {
                        "expected `,`"@
                    } else if !field_at(tokens, b + 1, word_row_contiguous()) {
                        label_fault(tokens, b + 1, 6)
                    } else if bool_at(tokens, b + 3) is None {
                        "expected boolean literal"@
                    } else if !punct_at(tokens, b + 4, 44) {
                        "expected `,`"@
                    } else if !field_at(tokens, b + 5, word_atomic_outputs()) {
                        label_fault(tokens, b + 5, 7)
                    } else if bool_at(tokens, b + 7) is None {
                        "expected boolean literal"@
                    } else {
                        "unexpected token"@
                    },
                }
            },
        }
    }
}

/// The message for the fields of a kernel declaration from `inputs` on.
pub open spec fn buffers_fields_fault(tokens: Seq<Lexeme>, at: int) -> Seq<char> {
    if !field_at(tokens, at, word_inputs()) {
        label_fault(tokens, at, 2)
    } else {
        match buffers_at(tokens, at + 2) {
            None => list_fault(tokens, at + 2, false),
            Some((_, a)) => if !punct_at(tokens, a, 44) {
                "expected `,`"@
            } else if !field_at(tokens, a + 1, word_outputs()) {
                label_fault(tokens, a + 1, 3)
            } else {
                match buffers_at(tokens, a + 3) {
                    None => list_fault(tokens, a + 3, false),
                    Some((_, b)) => if !punct_at(tokens, b, 44) {
                        "expected `,`"@
                    } else {
                        tail_fault(tokens, b + 1)
                    },
                }
            },
        }
    }
}

/// The message for a kernel declaration that does not parse.
pub open spec fn kernel_fault(tokens: Seq<Lexeme>) -> Seq<char> {
    match head_at(tokens) {
        None => head_fault(tokens),
        Some((_, _, at)) => if !field_at(tokens, at, word_name()) {
            label_fault(tokens, at, 0)
        } else if literal_at(tokens, at + 2) is None {
            "expected string literal"@
        } else if !punct_at(tokens, at + 3, 44) {
            "expected `,`"@
        } else if !field_at(tokens, at + 4, word_templates()) {
            label_fault(tokens, at + 4, 1)
        } else {
            match templates_at(tokens, at + 6) {
                None => list_fault(tokens, at + 6, true),
                Some((_, a)) => if !punct_at(tokens, a, 44) {
                    "expected `,`"@
                } else {
                    buffers_fields_fault(tokens, a + 1)
                },
            }
        },
    }
}

/// The message for a library declaration that does not parse.
pub open spec fn library_fault(tokens: Seq<Lexeme>) -> Seq<char> {
    match head_at(tokens) {
        None => head_fault(tokens),
        Some((_, _, at)) => if !field_at(tokens, at, word_name()) {
            label_fault(tokens, at, 0)
        } else if literal_at(tokens, at + 2) is None {
            "expected string literal"@
        } else if !punct_at(tokens, at + 3, 44) {
            "expected `,`"@
        } else if !field_at(tokens, at + 4, word_source()) {
            label_fault(tokens, at + 4, 4)
        } else {
            match source_at(tokens, at + 6) {
                None => source_fault(tokens, at + 6),
                Some(_) => "unexpected token"@,
            }
        },
    }
}


proof fn lemma_field_bytes(which: u8)
    ensures
        forall|index: int| 0 <= index < field_word(which).len() ==> is_word_byte(
            #[trigger] field_word(which)[index],
        ),
{
}

/// Returns the message for a token that should be an identifier.
fn ident_fault_text(tokens: &[Token], at: usize) -> (message: String)
    ensures
        message@ == ident_fault(lexemes(tokens@), at as int),
{
    if at >= tokens.len() {
        return String::from_str("expected identifier");
    }
    match &tokens[at] {
        Token::Ident(word) => {
            if is_keyword_text(word.as_slice()) {
                proof {
                    lemma_keyword_bytes(word@);
                }
                let mut message = String::from_str("expected identifier, found keyword `");
                append_word(&mut message, word.as_slice());
                message.append("`");
                message
            } else {
                String::from_str("expected identifier")
            }
        },
        _ => String::from_str("expected identifier"),
    }
}

/// Returns whether the field label selected by `which` stands at `at`.
fn word_token(tokens: &[Token], at: usize, which: u8) -> (found: bool)
    ensures
        found == word_at(lexemes(tokens@), at as int, field_word(which)),
{
    match ident_token(tokens, at) {
        Some(text) => {
            let text = text.as_slice();
            if which == 0 {
                is_word_name(text)
            } else if which == 1 {
                is_word_templates(text)
            } else if which == 2 {
                is_word_inputs(text)
            } else if which == 3 {
                is_word_outputs(text)
            } else if which == 4 {
                is_word_source(text)
            } else if which == 5 {
                is_word_header(text)
            } else if which == 6 {
                is_word_row_contiguous(text)
            } else {
                is_word_atomic_outputs(text)
            }
        },
        None => false,
    }
}

/// Returns the message for a field label that is missing at `at`.
fn label_fault_text(tokens: &[Token], at: usize, which: u8) -> (message: String)
    requires
        which < 8,
    ensures
        message@ == label_fault(lexemes(tokens@), at as int, which),
{
    if word_token(tokens, at, which) {
        return String::from_str("expected `:`");
    }
    if name_token(tokens, at).is_none() {
        return ident_fault_text(tokens, at);
    }
    proof {
        lemma_field_bytes(which);
    }
    let mut message = String::from_str("expected `");
    if which == 0 {
        let word: [u8; 4] = [110, 97, 109, 101];
        append_word(&mut message, word.as_slice());
    } else if which == 1 {
        let word: [u8; 9] = [116, 101, 109, 112, 108, 97, 116, 101, 115];
        append_word(&mut message, word.as_slice());
    } else if which == 2 {
        let word: [u8; 6] = [105, 110, 112, 117, 116, 115];
        append_word(&mut message, word.as_slice());
    } else if which == 3 {
        let word: [u8; 7] = [111, 117, 116, 112, 117, 116, 115];
        append_word(&mut message, word.as_slice());
    } else if which == 4 {
        let word: [u8; 6] = [115, 111, 117, 114, 99, 101];
        append_word(&mut message, word.as_slice());
    } else if which == 5 {
        let word: [u8; 6] = [104, 101, 97, 100, 101, 114];
        append_word(&mut message, word.as_slice());
    } else if which == 6 {
        let word: [u8; 14] = [114, 111, 119, 95, 99, 111, 110, 116, 105, 103, 117, 111, 117, 115];
        append_word(&mut message, word.as_slice());
    } else {
        let word: [u8; 14] = [97, 116, 111, 109, 105, 99, 95, 111, 117, 116, 112, 117, 116, 115];
        append_word(&mut message, word.as_slice());
    }
    message.append("`");
    message
}


/// Returns the message for a source that does not parse at `at`.
fn source_fault_text(tokens: &[Token], at: usize) -> (message: String)
    ensures
        message@ == source_fault(lexemes(tokens@), at as int),
{
    if at >= tokens.len() || name_token(tokens, at).is_none() {
        return ident_fault_text(tokens, at);
    }
    if literal_token(tokens, at + 1).is_none() {
        return String::from_str("expected string literal");
    }
    String::from_str("expected `inline` or `file`")
}

/// Returns the message for a template declaration that does not parse.
fn template_fault_text(tokens: &[Token], at: usize) -> (message: String)
    ensures
        message@ == template_fault(lexemes(tokens@), at as int),
{
    if at >= tokens.len() || name_token(tokens, at).is_none() {
        return ident_fault_text(tokens, at);
    }
    if at + 1 >= tokens.len() || !punct_token(tokens, at + 1, 58) {
        return String::from_str("expected `:`");
    }
    let kind = match name_token(tokens, at + 2) {
        Some(kind) => kind,
        None => {
            return ident_fault_text(tokens, at + 2);
        },
    };
    if at + 2 >= tokens.len() || !punct_token(tokens, at + 3, 61) {
        return String::from_str("expected `=`");
    }
    if is_word_dtype(kind.as_slice()) {
        ident_fault_text(tokens, at + 4)
    } else if is_word_int(kind.as_slice()) {
        String::from_str("expected integer literal")
    } else if is_word_bool(kind.as_slice()) {
        String::from_str("expected boolean literal")
    } else {
        String::from_str("expected `dtype`, `int`, or `bool`")
    }
}

/// Returns the message for a buffer declaration that does not parse.
fn buffer_fault_text(tokens: &[Token], at: usize) -> (message: String)
    ensures
        message@ == buffer_fault(lexemes(tokens@), at as int),
{
    if at >= tokens.len() || name_token(tokens, at).is_none() {
        return ident_fault_text(tokens, at);
    }
    if at + 1 >= tokens.len() || !punct_token(tokens, at + 1, 58) {
        return String::from_str("expected `:`");
    }
    if at + 2 >= tokens.len() || name_token(tokens, at + 2).is_none() {
        return ident_fault_text(tokens, at + 2);
    }
    if at + 3 >= tokens.len() || !punct_token(tokens, at + 3, 60) {
        return String::from_str("expected `<`");
    }
    if name_token(tokens, at + 4).is_none() {
        return ident_fault_text(tokens, at + 4);
    }
    String::from_str("expected `>`")
}


/// Returns the message for a template list that fails from `at` on.
fn templates_fault_text(tokens: &[Token], at: usize) -> (message: String)
    ensures
        message@ == templates_fault(lexemes(tokens@), at as int),
    decreases tokens@.len() - at,
{
    if at >= tokens.len() {
        return String::from_str("expected `]`");
    }
    if punct_token(tokens, at, 93) {
        return String::from_str("expected `,`");
    }
    match template_token(tokens, at) {
        None => template_fault_text(tokens, at),
        Some((_, next)) => {
            if next > at && next < tokens.len() && !punct_token(tokens, next, 93) && punct_token(
                tokens,
                next,
                44,
            ) {
                templates_fault_text(tokens, next + 1)
            } else {
                String::from_str("expected `,`")
            }
        },
    }
}

/// Returns the message for a buffer list that fails from `at` on.
fn buffers_fault_text(tokens: &[Token], at: usize) -> (message: String)
    ensures
        message@ == buffers_fault(lexemes(tokens@), at as int),
    decreases tokens@.len() - at,
{
    if at >= tokens.len() {
        return String::from_str("expected `]`");
    }
    if punct_token(tokens, at, 93) {
        return String::from_str("expected `,`");
    }
    match buffer_token(tokens, at) {
        None => buffer_fault_text(tokens, at),
        Some((_, next)) => {
            if next > at && next < tokens.len() && !punct_token(tokens, next, 93) && punct_token(
                tokens,
                next,
                44,
            ) {
                buffers_fault_text(tokens, next + 1)
            } else {
                String::from_str("expected `,`")
            }
        },
    }
}

/// Returns the message for a bracketed list that fails at `at`.
fn list_fault_text(tokens: &[Token], at: usize, templates: bool) -> (message: String)
    ensures
        message@ == list_fault(lexemes(tokens@), at as int, templates),
{
    if at >= tokens.len() || !punct_token(tokens, at, 91) {
        String::from_str("expected square brackets")
    } else if templates {
        templates_fault_text(tokens, at + 1)
    } else {
        buffers_fault_text(tokens, at + 1)
    }
}

/// Returns the message for a declaration head that does not parse.
fn head_fault_text(tokens: &[Token]) -> (message: String)
    ensures
        message@ == head_fault(lexemes(tokens@)),
{
    let (_, at) = visibility_token(tokens);
    let is_fn = match ident_token(tokens, at) {
        Some(text) => is_word_fn(text.as_slice()),
        None => false,
    };
    if !is_fn {
        return String::from_str("expected `fn`");
    }
    if at >= tokens.len() || name_token(tokens, at + 1).is_none() {
        return ident_fault_text(tokens, at + 1);
    }
    String::from_str("expected curly braces")
}


/// Returns the message for the fields of a kernel declaration from
/// `source` on.
fn tail_fault_text(tokens: &[Token], at: usize) -> (message: String)
    ensures
        message@ == tail_fault(lexemes(tokens@), at as int),
{
    if at >= tokens.len() || !field_token(tokens, at, 4) {
        return label_fault_text(tokens, at, 4);
    }
    let a = match source_token(tokens, at + 2) {
        None => {
            return source_fault_text(tokens, at + 2);
        },
        Some((_, a)) => a,
    };
    if a >= tokens.len() || !punct_token(tokens, a, 44) {
        return String::from_str("expected `,`");
    }
    if a + 1 >= tokens.len() || !field_token(tokens, a + 1, 5) {
        return label_fault_text(tokens, a + 1, 5);
    }
    let b = match source_token(tokens, a + 3) {
        None => {
            return source_fault_text(tokens, a + 3);
        },
        Some((_, b)) => b,
    };
    if b >= tokens.len() || !punct_token(tokens, b, 44) {
        return String::from_str("expected `,`");
    }
    if b + 1 >= tokens.len() || !field_token(tokens, b + 1, 6) {
        return label_fault_text(tokens, b + 1, 6);
    }
    if boolean_token(tokens, b + 3).is_none() {
        return String::from_str("expected boolean literal");
    }
    if b + 4 >= tokens.len() || !punct_token(tokens, b + 4, 44) {
        return String::from_str("expected `,`");
    }
    if b + 5 >= tokens.len() || !field_token(tokens, b + 5, 7) {
        return label_fault_text(tokens, b + 5, 7);
    }
    if boolean_token(tokens, b + 7).is_none() {
        return String::from_str("expected boolean literal");
    }
    String::from_str("unexpected token")
}

/// Returns the message for the fields of a kernel declaration from
/// `inputs` on.
fn buffers_fields_fault_text(tokens: &[Token], at: usize) -> (message: String)
    ensures
        message@ == buffers_fields_fault(lexemes(tokens@), at as int),
{
    if at >= tokens.len() || !field_token(tokens, at, 2) {
        return label_fault_text(tokens, at, 2);
    }
    let a = match buffer_list(tokens, at + 2) {
        None => {
            return list_fault_text(tokens, at + 2, false);
        },
        Some((_, a)) => a,
    };
    if a >= tokens.len() || !punct_token(tokens, a, 44) {
        return String::from_str("expected `,`");
    }
    if a + 1 >= tokens.len() || !field_token(tokens, a + 1, 3) {
        return label_fault_text(tokens, a + 1, 3);
    }
    let b = match buffer_list(tokens, a + 3) {
        None => {
            return list_fault_text(tokens, a + 3, false);
        },
        Some((_, b)) => b,
    };
    if b >= tokens.len() || !punct_token(tokens, b, 44) {
        return String::from_str("expected `,`");
    }
    tail_fault_text(tokens, b + 1)
}

/// Returns the message for a kernel declaration that does not parse.
pub fn kernel_fault_text(tokens: &[Token]) -> (message: String)
    ensures
        message@ == kernel_fault(lexemes(tokens@)),
{
    let at = match head_token(tokens) {
        None => {
            return head_fault_text(tokens);
        },
        Some((_, _, at)) => at,
    };
    if at >= tokens.len() || !field_token(tokens, at, 0) {
        return label_fault_text(tokens, at, 0);
    }
    if literal_token(tokens, at + 2).is_none() {
        return String::from_str("expected string literal");
    }
    if at + 3 >= tokens.len() || !punct_token(tokens, at + 3, 44) {
        return String::from_str("expected `,`");
    }
    if at + 4 >= tokens.len() || !field_token(tokens, at + 4, 1) {
        return label_fault_text(tokens, at + 4, 1);
    }
    let a = match template_list(tokens, at + 6) {
        None => {
            return list_fault_text(tokens, at + 6, true);
        },
        Some((_, a)) => a,
    };
    if a >= tokens.len() || !punct_token(tokens, a, 44) {
        return String::from_str("expected `,`");
    }
    buffers_fields_fault_text(tokens, a + 1)
}

/// Returns the message for a library declaration that does not parse.
pub fn library_fault_text(tokens: &[Token]) -> (message: String)
    ensures
        message@ == library_fault(lexemes(tokens@)),
{
    let at = match head_token(tokens) {
        None => {
            return head_fault_text(tokens);
        },
        Some((_, _, at)) => at,
    };
    if at >= tokens.len() || !field_token(tokens, at, 0) {
        return label_fault_text(tokens, at, 0);
    }
    if literal_token(tokens, at + 2).is_none() {
        return String::from_str("expected string literal");
    }
    if at + 3 >= tokens.len() || !punct_token(tokens, at + 3, 44) {
        return String::from_str("expected `,`");
    }
    if at + 4 >= tokens.len() || !field_token(tokens, at + 4, 4) {
        return label_fault_text(tokens, at + 4, 4);
    }
    match source_token(tokens, at + 6) {
        None => source_fault_text(tokens, at + 6),
        Some(_) => String::from_str("unexpected token"),
    }
}

} // verus!
