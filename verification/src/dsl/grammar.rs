//! The grammar of `metal_kernel!` and `metal_library!` declarations, read
//! over their tokens from left to right.

use vstd::prelude::*;

use super::lexer::Lexeme;
use super::model::{
    BufferModel, KernelModel, LibraryModel, SourceModel, TemplateDefaultModel, TemplateModel,
    VisibilityModel,
};
use super::words::{is_keyword, word_atomic_outputs, word_bool, word_crate, word_dtype, word_false, word_file, word_fn, word_header, word_in, word_inline, word_inputs, word_int, word_name, word_outputs, word_pub, word_row_contiguous, word_scalar, word_self, word_source, word_super, word_templates, word_true};

verus! {

/// Whether the token at `at` is the punctuation character `byte`.
pub open spec fn punct_at(tokens: Seq<Lexeme>, at: int, byte: u8) -> bool {
    0 <= at < tokens.len() && tokens[at] == Lexeme::Punct(byte)
}

/// Whether the token at `at` is the identifier `word`.
pub open spec fn word_at(tokens: Seq<Lexeme>, at: int, word: Seq<u8>) -> bool {
    0 <= at < tokens.len() && tokens[at] == Lexeme::Ident(word)
}

/// The identifier at `at`, if it is one that may name something.
pub open spec fn name_at(tokens: Seq<Lexeme>, at: int) -> Option<Seq<u8>> {
    if 0 <= at < tokens.len() {
        match tokens[at] {
            Lexeme::Ident(text) => if is_keyword(text) {
                None
            } else {
                Some(text)
            },
            _ => None,
        }
    } else {
        None
    }
}

/// The decoded string literal at `at`.
pub open spec fn literal_at(tokens: Seq<Lexeme>, at: int) -> Option<Seq<u8>> {
    if 0 <= at < tokens.len() {
        match tokens[at] {
            Lexeme::Literal(value) => Some(value),
            _ => None,
        }
    } else {
        None
    }
}

/// The Boolean literal at `at`.
pub open spec fn bool_at(tokens: Seq<Lexeme>, at: int) -> Option<bool> {
    if word_at(tokens, at, word_true()) {
        Some(true)
    } else if word_at(tokens, at, word_false()) {
        Some(false)
    } else {
        None
    }
}

/// Whether `byte` may appear in the digit part of an integer literal.
pub open spec fn is_digit_part(byte: u8) -> bool {
    (48 <= byte && byte <= 57) || byte == 95
}

/// The end of the digit part of an integer literal's text.
pub open spec fn digits_end(text: Seq<u8>, start: int) -> int
    decreases text.len() - start,
{
    if 0 <= start < text.len() && is_digit_part(text[start]) {
        digits_end(text, start + 1)
    } else {
        start
    }
}

/// Whether `text` starts with a hexadecimal, octal or binary radix prefix.
pub open spec fn radix_prefixed(text: Seq<u8>) -> bool {
    text.len() > 1 && text[0] == 48 && (text[1] == 120 || text[1] == 111 || text[1] == 98)
}

/// Whether a decimal digit lies between `start` and `end`.
pub open spec fn digit_between(text: Seq<u8>, start: int, end: int) -> bool {
    exists|index: int| start <= index < end && 48 <= #[trigger] text[index] && text[index] <= 57
}

/// Whether `text` is a floating-point literal written with an exponent:
/// digits, then `e` or `E`, then a run of digits and underscores that holds
/// a digit.
pub open spec fn exponent_literal(text: Seq<u8>) -> bool {
    let end = digits_end(text, 0);
    end < text.len() && (text[end] == 101 || text[end] == 69) && digit_between(
        text,
        end + 1,
        digits_end(text, end + 1),
    )
}

/// Whether `text` is a decimal integer literal: it starts with a digit, has
/// no radix prefix, and is not an exponent literal; any letters after its
/// digits form a suffix.
pub open spec fn decimal_literal(text: Seq<u8>) -> bool {
    text.len() > 0 && 48 <= text[0] && text[0] <= 57 && !radix_prefixed(text) && !exponent_literal(text)
}

/// The base that a radix prefix selects: sixteen, eight or two.
pub open spec fn radix_base(text: Seq<u8>) -> nat {
    if text[1] == 120 {
        16
    } else if text[1] == 111 {
        8
    } else {
        2
    }
}

/// Whether `byte` continues the digit part of a literal of `base`: an
/// underscore, a decimal digit, or for base sixteen a letter from `a` to `f`
/// in either case.
pub open spec fn is_radix_part(byte: u8, base: nat) -> bool {
    byte == 95 || (48 <= byte && byte <= 57) || (base == 16 && ((97 <= byte && byte <= 102) || (65
        <= byte && byte <= 70)))
}

/// The end of the digit part of a radix literal of `base` that starts at
/// `start`.
pub open spec fn radix_end(text: Seq<u8>, base: nat, start: int) -> int
    decreases text.len() - start,
{
    if 0 <= start < text.len() && is_radix_part(text[start], base) {
        radix_end(text, base, start + 1)
    } else {
        start
    }
}

/// The value of a digit character.
pub open spec fn digit_value(byte: u8) -> nat {
    if 48 <= byte && byte <= 57 {
        (byte - 48) as nat
    } else if 97 <= byte && byte <= 102 {
        (byte - 87) as nat
    } else {
        (byte - 55) as nat
    }
}

/// The value of the digits of a radix literal before `end`, read in `base`
/// and skipping underscores.
pub open spec fn radix_value(text: Seq<u8>, base: nat, end: int) -> nat
    decreases end,
{
    if end <= 2 {
        0
    } else if text[end - 1] == 95 {
        radix_value(text, base, end - 1)
    } else {
        radix_value(text, base, end - 1) * base + digit_value(text[end - 1])
    }
}

/// Whether the digits of a radix literal before `end` are all below `base`.
pub open spec fn radix_digits_below(text: Seq<u8>, base: nat, end: int) -> bool {
    forall|index: int| 2 <= index < end && #[trigger] text[index] != 95 ==> digit_value(text[index]) < base
}

/// Whether a radix literal holds a digit before `end`.
pub open spec fn radix_has_digit(text: Seq<u8>, end: int) -> bool {
    exists|index: int| 2 <= index < end && #[trigger] text[index] != 95
}

/// The value of a hexadecimal, octal or binary literal.
pub open spec fn radix_literal_value(text: Seq<u8>) -> nat {
    radix_value(text, radix_base(text), radix_end(text, radix_base(text), 2))
}

/// Whether `text` is a hexadecimal, octal or binary integer literal: a
/// prefix, at least one digit, every digit below the base, and a value that
/// fits in `u128`; any letters after its digits form a suffix.
pub open spec fn radix_literal(text: Seq<u8>) -> bool {
    &&& radix_prefixed(text)
    &&& radix_digits_below(text, radix_base(text), radix_end(text, radix_base(text), 2))
    &&& radix_has_digit(text, radix_end(text, radix_base(text), 2))
    &&& radix_literal_value(text) <= u128::MAX
}

/// Whether `text` is an integer literal that a template default accepts.
pub open spec fn integer_literal(text: Seq<u8>) -> bool {
    decimal_literal(text) || radix_literal(text)
}

/// A possibly negated integer literal at `at`, and the position
/// after it.
pub open spec fn integer_at(tokens: Seq<Lexeme>, at: int) -> Option<(bool, Seq<u8>, int)> {
    if punct_at(tokens, at, 45) && 0 <= at + 1 < tokens.len() {
        match tokens[at + 1] {
            Lexeme::Number(text) => if integer_literal(text) {
                Some((true, text, at + 2))
            } else {
                None
            },
            _ => None,
        }
    } else if 0 <= at < tokens.len() {
        match tokens[at] {
            Lexeme::Number(text) => if integer_literal(text) {
                Some((false, text, at + 1))
            } else {
                None
            },
            _ => None,
        }
    } else {
        None
    }
}

/// A segment of a restricted-visibility path at `at`.
pub open spec fn segment_at(tokens: Seq<Lexeme>, at: int) -> Option<Seq<u8>> {
    if word_at(tokens, at, word_crate()) {
        Some(word_crate())
    } else if word_at(tokens, at, word_self()) {
        Some(word_self())
    } else if word_at(tokens, at, word_super()) {
        Some(word_super())
    } else {
        name_at(tokens, at)
    }
}

/// The further `::`-separated segments of a path from `at`, appended to
/// `segments`.
pub open spec fn path_rest(tokens: Seq<Lexeme>, at: int, segments: Seq<Seq<u8>>) -> (Seq<Seq<u8>>, int)
    decreases tokens.len() - at,
{
    if 0 <= at && punct_at(tokens, at, 58) && punct_at(tokens, at + 1, 58) && segment_at(tokens, at + 2) is Some {
        path_rest(tokens, at + 3, segments.push(segment_at(tokens, at + 2).unwrap()))
    } else {
        (segments, at)
    }
}

/// The visibility at `at` and the position after it.
pub open spec fn visibility_at(tokens: Seq<Lexeme>, at: int) -> (VisibilityModel, int) {
    if word_at(tokens, at, word_pub()) {
        if punct_at(tokens, at + 1, 40) {
            if word_at(tokens, at + 2, word_crate()) && punct_at(tokens, at + 3, 41) {
                (VisibilityModel::Crate, at + 4)
            } else if word_at(tokens, at + 2, word_self()) && punct_at(tokens, at + 3, 41) {
                (VisibilityModel::SelfScope, at + 4)
            } else if word_at(tokens, at + 2, word_super()) && punct_at(tokens, at + 3, 41) {
                (VisibilityModel::Super, at + 4)
            } else if word_at(tokens, at + 2, word_in()) && segment_at(tokens, at + 3) is Some {
                let (segments, end) = path_rest(tokens, at + 4, seq![segment_at(tokens, at + 3).unwrap()]);
                if punct_at(tokens, end, 41) {
                    (VisibilityModel::Restricted(segments), end + 1)
                } else {
                    (VisibilityModel::Public, at + 1)
                }
            } else {
                (VisibilityModel::Public, at + 1)
            }
        } else {
            (VisibilityModel::Public, at + 1)
        }
    } else {
        (VisibilityModel::Inherited, at)
    }
}

/// A template parameter declaration at `at`: `name: kind = default`.
pub open spec fn template_at(tokens: Seq<Lexeme>, at: int) -> Option<(TemplateModel, int)> {
    match name_at(tokens, at) {
        None => None,
        Some(name) => if !punct_at(tokens, at + 1, 58) || !punct_at(tokens, at + 3, 61) {
            None
        } else {
            match name_at(tokens, at + 2) {
                None => None,
                Some(kind) => if kind == word_dtype() {
                    match name_at(tokens, at + 4) {
                        Some(element) => Some(
                            (
                                TemplateModel { name, default: TemplateDefaultModel::DType(element) },
                                at + 5,
                            ),
                        ),
                        None => None,
                    }
                } else if kind == word_int() {
                    match integer_at(tokens, at + 4) {
                        Some((negative, literal, end)) => Some(
                            (
                                TemplateModel {
                                    name,
                                    default: TemplateDefaultModel::Int(negative, literal),
                                },
                                end,
                            ),
                        ),
                        None => None,
                    }
                } else if kind == word_bool() {
                    match bool_at(tokens, at + 4) {
                        Some(value) => Some(
                            (TemplateModel { name, default: TemplateDefaultModel::Bool(value) }, at + 5),
                        ),
                        None => None,
                    }
                } else {
                    None
                },
            }
        },
    }
}

/// A buffer declaration at `at`: `name: element` or `name: scalar<element>`.
pub open spec fn buffer_at(tokens: Seq<Lexeme>, at: int) -> Option<(BufferModel, int)> {
    match name_at(tokens, at) {
        None => None,
        Some(name) => if !punct_at(tokens, at + 1, 58) {
            None
        } else {
            match name_at(tokens, at + 2) {
                None => None,
                Some(marker) => if marker == word_scalar() {
                    if punct_at(tokens, at + 3, 60) && punct_at(tokens, at + 5, 62) && name_at(
                        tokens,
                        at + 4,
                    ) is Some {
                        Some(
                            (
                                BufferModel {
                                    name,
                                    scalar: true,
                                    element: name_at(tokens, at + 4).unwrap(),
                                },
                                at + 6,
                            ),
                        )
                    } else {
                        None
                    }
                } else {
                    Some((BufferModel { name, scalar: false, element: marker }, at + 3))
                },
            }
        },
    }
}

/// The remaining template declarations of a bracketed list from `at`,
/// appended to `items`, and the position after the closing bracket. A
/// comma separates items and may follow the last one.
pub open spec fn templates_rest(tokens: Seq<Lexeme>, at: int, items: Seq<TemplateModel>) -> Option<
    (Seq<TemplateModel>, int),
>
    decreases tokens.len() - at,
{
    if !(0 <= at < tokens.len()) {
        None
    } else if punct_at(tokens, at, 93) {
        Some((items, at + 1))
    } else {
        match template_at(tokens, at) {
            None => None,
            Some((item, next)) => if next <= at {
                None
            } else if punct_at(tokens, next, 93) {
                Some((items.push(item), next + 1))
            } else if punct_at(tokens, next, 44) {
                templates_rest(tokens, next + 1, items.push(item))
            } else {
                None
            },
        }
    }
}

/// A bracketed list of template declarations at `at`.
pub open spec fn templates_at(tokens: Seq<Lexeme>, at: int) -> Option<(Seq<TemplateModel>, int)> {
    if punct_at(tokens, at, 91) {
        templates_rest(tokens, at + 1, Seq::empty())
    } else {
        None
    }
}

/// The remaining buffer declarations of a bracketed list from `at`.
pub open spec fn buffers_rest(tokens: Seq<Lexeme>, at: int, items: Seq<BufferModel>) -> Option<
    (Seq<BufferModel>, int),
>
    decreases tokens.len() - at,
{
    if !(0 <= at < tokens.len()) {
        None
    } else if punct_at(tokens, at, 93) {
        Some((items, at + 1))
    } else {
        match buffer_at(tokens, at) {
            None => None,
            Some((item, next)) => if next <= at {
                None
            } else if punct_at(tokens, next, 93) {
                Some((items.push(item), next + 1))
            } else if punct_at(tokens, next, 44) {
                buffers_rest(tokens, next + 1, items.push(item))
            } else {
                None
            },
        }
    }
}

/// A bracketed list of buffer declarations at `at`.
pub open spec fn buffers_at(tokens: Seq<Lexeme>, at: int) -> Option<(Seq<BufferModel>, int)> {
    if punct_at(tokens, at, 91) {
        buffers_rest(tokens, at + 1, Seq::empty())
    } else {
        None
    }
}

/// A source declaration at `at`: `inline "..."` or `file "..."`.
pub open spec fn source_at(tokens: Seq<Lexeme>, at: int) -> Option<(SourceModel, int)> {
    match (name_at(tokens, at), literal_at(tokens, at + 1)) {
        (Some(mode), Some(value)) => if mode == word_inline() {
            Some((SourceModel::Inline(value), at + 2))
        } else if mode == word_file() {
            Some((SourceModel::File(value), at + 2))
        } else {
            None
        },
        _ => None,
    }
}

/// Whether the field label `field:` stands at `at`.
pub open spec fn field_at(tokens: Seq<Lexeme>, at: int, field: Seq<u8>) -> bool {
    word_at(tokens, at, field) && punct_at(tokens, at + 1, 58)
}

/// Whether the declaration ends at `at`: an optional comma, the closing
/// brace, and nothing after it.
pub open spec fn closes_at(tokens: Seq<Lexeme>, at: int) -> bool {
    if punct_at(tokens, at, 44) {
        punct_at(tokens, at + 1, 125) && at + 2 == tokens.len()
    } else {
        punct_at(tokens, at, 125) && at + 1 == tokens.len()
    }
}

/// The head of a declaration: visibility, `fn`, the factory name and the
/// opening brace; returns the position of the first field.
pub open spec fn head_at(tokens: Seq<Lexeme>) -> Option<(VisibilityModel, Seq<u8>, int)> {
    let (visibility, at) = visibility_at(tokens, 0);
    if word_at(tokens, at, word_fn()) && name_at(tokens, at + 1) is Some && punct_at(tokens, at + 2, 123) {
        Some((visibility, name_at(tokens, at + 1).unwrap(), at + 3))
    } else {
        None
    }
}

/// The fields of a kernel declaration after its buffers: source, header and
/// the two flags, starting at `at`.
pub open spec fn kernel_tail(tokens: Seq<Lexeme>, at: int) -> Option<(SourceModel, SourceModel, bool, bool)> {
    if !field_at(tokens, at, word_source()) {
        None
    } else {
        match source_at(tokens, at + 2) {
            None => None,
            Some((source, a)) => if !punct_at(tokens, a, 44) || !field_at(tokens, a + 1, word_header()) {
                None
            } else {
                match source_at(tokens, a + 3) {
                    None => None,
                    Some((header, b)) => if !punct_at(tokens, b, 44) || !field_at(
                        tokens,
                        b + 1,
                        word_row_contiguous(),
                    ) {
                        None
                    } else {
                        match bool_at(tokens, b + 3) {
                            None => None,
                            Some(row_contiguous) => if !punct_at(tokens, b + 4, 44) || !field_at(
                                tokens,
                                b + 5,
                                word_atomic_outputs(),
                            ) {
                                None
                            } else {
                                match bool_at(tokens, b + 7) {
                                    None => None,
                                    Some(atomic_outputs) => if closes_at(tokens, b + 8) {
                                        Some((source, header, row_contiguous, atomic_outputs))
                                    } else {
                                        None
                                    },
                                }
                            },
                        }
                    },
                }
            },
        }
    }
}

/// The buffer and later fields of a kernel declaration, starting at the
/// `inputs` label.
pub open spec fn kernel_buffers(tokens: Seq<Lexeme>, at: int) -> Option<
    (Seq<BufferModel>, Seq<BufferModel>, SourceModel, SourceModel, bool, bool),
> {
    if !field_at(tokens, at, word_inputs()) {
        None
    } else {
        match buffers_at(tokens, at + 2) {
            None => None,
            Some((inputs, a)) => if !punct_at(tokens, a, 44) || !field_at(tokens, a + 1, word_outputs()) {
                None
            } else {
                match buffers_at(tokens, a + 3) {
                    None => None,
                    Some((outputs, b)) => if !punct_at(tokens, b, 44) {
                        None
                    } else {
                        match kernel_tail(tokens, b + 1) {
                            None => None,
                            Some((source, header, row_contiguous, atomic_outputs)) => Some(
                                (inputs, outputs, source, header, row_contiguous, atomic_outputs),
                            ),
                        }
                    },
                }
            },
        }
    }
}

/// The kernel declaration that `tokens` spell, if they spell one.
pub open spec fn kernel_declaration(tokens: Seq<Lexeme>) -> Option<KernelModel> {
    match head_at(tokens) {
        None => None,
        Some((visibility, function, at)) => if !field_at(tokens, at, word_name()) || literal_at(
            tokens,
            at + 2,
        ) is None || !punct_at(tokens, at + 3, 44) || !field_at(tokens, at + 4, word_templates()) {
            None
        } else {
            match templates_at(tokens, at + 6) {
                None => None,
                Some((templates, a)) => if !punct_at(tokens, a, 44) {
                    None
                } else {
                    match kernel_buffers(tokens, a + 1) {
                        None => None,
                        Some((inputs, outputs, source, header, row_contiguous, atomic_outputs)) => Some(
                            KernelModel {
                                visibility,
                                function,
                                name: literal_at(tokens, at + 2).unwrap(),
                                templates,
                                inputs,
                                outputs,
                                source,
                                header,
                                row_contiguous,
                                atomic_outputs,
                            },
                        ),
                    }
                },
            }
        },
    }
}

/// The library declaration that `tokens` spell, if they spell one.
pub open spec fn library_declaration(tokens: Seq<Lexeme>) -> Option<LibraryModel> {
    match head_at(tokens) {
        None => None,
        Some((visibility, function, at)) => if !field_at(tokens, at, word_name()) || literal_at(
            tokens,
            at + 2,
        ) is None || !punct_at(tokens, at + 3, 44) || !field_at(tokens, at + 4, word_source()) {
            None
        } else {
            match source_at(tokens, at + 6) {
                None => None,
                Some((source, end)) => if closes_at(tokens, end) {
                    Some(
                        LibraryModel {
                            visibility,
                            function,
                            name: literal_at(tokens, at + 2).unwrap(),
                            source,
                        },
                    )
                } else {
                    None
                },
            }
        },
    }
}

/// A declaration that begins `pub ( scope )` reads with the visibility the
/// scope word names: `crate` gives `Crate`, `self` gives `SelfScope` and
/// `super` gives `Super`, and a declaration that begins `pub ( in ...)` and
/// parses reads with a restricted visibility whose path starts at the word
/// after `in`.
pub proof fn lemma_visibility_follows_scope(tokens: Seq<Lexeme>)
    requires
        tokens.len() >= 4,
        // `pub` `(` scope `)`
        tokens[0] == Lexeme::Ident(seq![112u8, 117u8, 98u8]),
        tokens[1] == Lexeme::Punct(40u8),
    ensures
        tokens[3] == Lexeme::Punct(41u8) && tokens[2] == Lexeme::Ident(seq![99u8, 114u8, 97u8, 116u8, 101u8])
            ==> visibility_at(tokens, 0) == (VisibilityModel::Crate, 4int),
        tokens[3] == Lexeme::Punct(41u8) && tokens[2] == Lexeme::Ident(seq![115u8, 101u8, 108u8, 102u8])
            ==> visibility_at(tokens, 0) == (VisibilityModel::SelfScope, 4int),
        tokens[3] == Lexeme::Punct(41u8) && tokens[2] == Lexeme::Ident(seq![115u8, 117u8, 112u8, 101u8, 114u8])
            ==> visibility_at(tokens, 0) == (VisibilityModel::Super, 4int),
        tokens[2] == Lexeme::Ident(seq![105u8, 110u8]) && kernel_declaration(tokens) is Some ==> (
        kernel_declaration(tokens).unwrap().visibility matches VisibilityModel::Restricted(path) && (
        path.len() >= 1 && tokens[3] == Lexeme::Ident(path[0]))),
        tokens[3] == Lexeme::Punct(41u8) && tokens[2] == Lexeme::Ident(seq![115u8, 117u8, 112u8, 101u8, 114u8])
            ==> (kernel_declaration(tokens) matches Some(kernel) ==> kernel.visibility == VisibilityModel::Super),
        tokens[3] == Lexeme::Punct(41u8) && tokens[2] == Lexeme::Ident(seq![99u8, 114u8, 97u8, 116u8, 101u8])
            ==> (kernel_declaration(tokens) matches Some(kernel) ==> kernel.visibility == VisibilityModel::Crate),
        tokens[3] == Lexeme::Punct(41u8) && tokens[2] == Lexeme::Ident(seq![115u8, 101u8, 108u8, 102u8])
            ==> (kernel_declaration(tokens) matches Some(kernel) ==> kernel.visibility == VisibilityModel::SelfScope),
{
    assert(word_pub() =~= seq![112u8, 117u8, 98u8]);
    let crate_word = seq![99u8, 114u8, 97u8, 116u8, 101u8];
    let self_word = seq![115u8, 101u8, 108u8, 102u8];
    let super_word = seq![115u8, 117u8, 112u8, 101u8, 114u8];
    let in_word = seq![105u8, 110u8];
    assert(word_crate() =~= crate_word);
    assert(word_self() =~= self_word);
    assert(word_super() =~= super_word);
    assert(word_in() =~= in_word);
    assert(crate_word != self_word && crate_word != super_word && crate_word != in_word) by {
        assert(crate_word[0] != self_word[0] && crate_word[0] != super_word[0]);
        assert(crate_word[0] != in_word[0]);
    }
    assert(self_word != super_word && self_word != in_word) by {
        assert(self_word[1] != super_word[1] && self_word[0] != in_word[0]);
    }
    assert(super_word != in_word) by {
        assert(super_word[0] != in_word[0]);
    }
    if tokens[2] == Lexeme::Ident(in_word) && segment_at(tokens, 3) is Some {
        let first = segment_at(tokens, 3).unwrap();
        lemma_path_keeps_first(tokens, 4, seq![first]);
    }
}

proof fn lemma_path_keeps_first(tokens: Seq<Lexeme>, at: int, segments: Seq<Seq<u8>>)
    requires
        segments.len() >= 1,
    ensures
        path_rest(tokens, at, segments).0.len() >= 1,
        path_rest(tokens, at, segments).0[0] == segments[0],
    decreases tokens.len() - at,
{
    if 0 <= at && punct_at(tokens, at, 58) && punct_at(tokens, at + 1, 58) && segment_at(tokens, at + 2) is Some {
        let next = segments.push(segment_at(tokens, at + 2).unwrap());
        lemma_path_keeps_first(tokens, at + 3, next);
    }
}

/// A declaration that does not begin with `pub` reads with inherited
/// visibility, and one that begins with `pub` not followed by `(` reads as
/// public.
pub proof fn lemma_visibility_without_scope(tokens: Seq<Lexeme>)
    requires
        tokens.len() >= 2,
    ensures
        tokens[0] != Lexeme::Ident(seq![112u8, 117u8, 98u8]) ==> visibility_at(tokens, 0) == (VisibilityModel::Inherited, 0int),
        tokens[0] == Lexeme::Ident(seq![112u8, 117u8, 98u8]) && tokens[1] != Lexeme::Punct(40u8)
            ==> visibility_at(tokens, 0) == (VisibilityModel::Public, 1int),
{
    assert(word_pub() =~= seq![112u8, 117u8, 98u8]);
}

/// The tokens of a path: its segments separated by `::`.
pub open spec fn path_tokens(segments: Seq<Seq<u8>>) -> Seq<Lexeme>
    decreases segments.len(),
{
    if segments.len() <= 1 {
        segments.map_values(|segment: Seq<u8>| Lexeme::Ident(segment))
    } else {
        path_tokens(segments.drop_last()) + seq![
            Lexeme::Punct(58u8),
            Lexeme::Punct(58u8),
            Lexeme::Ident(segments.last()),
        ]
    }
}

/// Whether the separator `::` follows the segment at `index` of a path
/// whose tokens start at `start`.
pub open spec fn separator_after(tokens: Seq<Lexeme>, start: int, index: int) -> bool {
    tokens[start + 3 * index + 1] == Lexeme::Punct(58u8) && tokens[start + 3 * index + 2] == Lexeme::Punct(58u8)
}

proof fn lemma_path_tokens_layout(segments: Seq<Seq<u8>>)
    requires
        segments.len() >= 1,
    ensures
        path_tokens(segments).len() == 3 * segments.len() - 2,
        forall|index: int| 0 <= index < segments.len() ==> path_tokens(segments)[3 * index] == Lexeme::Ident(
            #[trigger] segments[index],
        ),
        forall|index: int| 0 <= index < segments.len() - 1 ==> #[trigger] separator_after(path_tokens(segments), 0, index),
    decreases segments.len(),
{
    if segments.len() > 1 {
        let rest = segments.drop_last();
        let prefix = path_tokens(rest);
        lemma_path_tokens_layout(rest);
        assert(path_tokens(segments) == prefix + seq![
            Lexeme::Punct(58u8),
            Lexeme::Punct(58u8),
            Lexeme::Ident(segments.last()),
        ]);
        assert forall|index: int| 0 <= index < segments.len() implies path_tokens(segments)[3 * index]
            == Lexeme::Ident(#[trigger] segments[index]) by {
            if index < rest.len() {
                assert(rest[index] == segments[index]);
                assert(prefix[3 * index] == Lexeme::Ident(rest[index]));
            }
        }
        assert forall|index: int| 0 <= index < segments.len() - 1 implies #[trigger] separator_after(
            path_tokens(segments),
            0,
            index,
        ) by {
            if index < rest.len() - 1 {
                assert(separator_after(prefix, 0, index));
            }
        }
    } else {
        assert(path_tokens(segments)[0] == Lexeme::Ident(segments[0]));
    }
}

proof fn lemma_path_read(tokens: Seq<Lexeme>, segments: Seq<Seq<u8>>, count: int)
    requires
        1 <= count <= segments.len(),
        forall|index: int| 0 <= index < segments.len() ==> !is_keyword(#[trigger] segments[index]),
        tokens.len() >= 3 * segments.len() + 2,
        forall|index: int| 0 <= index < segments.len() ==> tokens[3 + 3 * index] == Lexeme::Ident(
            #[trigger] segments[index],
        ),
        forall|index: int| 0 <= index < segments.len() - 1 ==> #[trigger] separator_after(tokens, 3, index),
        tokens[3 * segments.len() as int + 1] == Lexeme::Punct(41u8),
    ensures
        path_rest(tokens, 3 * count + 1, segments.take(count)) == (segments, 3 * segments.len() as int + 1),
    decreases segments.len() - count,
{
    if count < segments.len() {
        assert(separator_after(tokens, 3, count - 1));
        assert(tokens[3 + 3 * count] == Lexeme::Ident(segments[count]));
        assert(!is_keyword(segments[count]));
        assert(segments.take(count).push(segments[count]) =~= segments.take(count + 1));
        lemma_path_read(tokens, segments, count + 1);
    } else {
        assert(segments.take(count) =~= segments);
    }
}

/// A declaration that begins `pub ( in s0 :: s1 :: ... )` reads with the
/// restricted visibility whose path is exactly the segments written, in
/// order.
pub proof fn lemma_restricted_visibility(segments: Seq<Seq<u8>>, rest: Seq<Lexeme>)
    requires
        segments.len() >= 1,
        forall|index: int| 0 <= index < segments.len() ==> !is_keyword(#[trigger] segments[index]),
    ensures
        visibility_at(
            seq![
                Lexeme::Ident(seq![112u8, 117u8, 98u8]),
                Lexeme::Punct(40u8),
                Lexeme::Ident(seq![105u8, 110u8]),
            ] + path_tokens(segments) + seq![Lexeme::Punct(41u8)] + rest,
            0,
        ) == (VisibilityModel::Restricted(segments), 3 * segments.len() as int + 2),
{
    let head = seq![
        Lexeme::Ident(seq![112u8, 117u8, 98u8]),
        Lexeme::Punct(40u8),
        Lexeme::Ident(seq![105u8, 110u8]),
    ];
    let path = path_tokens(segments);
    let tokens = head + path + seq![Lexeme::Punct(41u8)] + rest;
    lemma_path_tokens_layout(segments);
    assert forall|index: int| 0 <= index < segments.len() implies tokens[3 + 3 * index] == Lexeme::Ident(
        #[trigger] segments[index],
    ) by {
        assert(path[3 * index] == Lexeme::Ident(segments[index]));
    }
    assert forall|index: int| 0 <= index < segments.len() - 1 implies #[trigger] separator_after(tokens, 3, index) by {
        assert(separator_after(path, 0, index));
    }
    assert(tokens[3 * segments.len() as int + 1] == Lexeme::Punct(41u8));
    assert(word_pub() =~= seq![112u8, 117u8, 98u8]);
    assert(word_in() =~= seq![105u8, 110u8]);
    assert(word_crate() != seq![105u8, 110u8]) by {
        assert(word_crate()[0] != seq![105u8, 110u8][0]);
    }
    assert(word_self() != seq![105u8, 110u8]) by {
        assert(word_self()[0] != seq![105u8, 110u8][0]);
    }
    assert(word_super() != seq![105u8, 110u8]) by {
        assert(word_super()[0] != seq![105u8, 110u8][0]);
    }
    assert(tokens[3] == Lexeme::Ident(segments[0]));
    assert(segments.take(1) =~= seq![segments[0]]);
    lemma_path_read(tokens, segments, 1);
    let first = segments[0];
    if !(first == word_crate() || first == word_self() || first == word_super()) {
        assert(name_at(tokens, 3) == Some(first));
    }
}

} // verus!
