//! The `compiled` attribute: its option and the fixed arities it reads from
//! the signature of a graph function.

use vstd::prelude::*;

use super::lexer::{Lexeme, Token, copy_bytes, lex, lexemes, tokenize};
use super::text::{append, append_text, append_word, ascii_chars, lemma_keyword_bytes, utf8};
use super::words::{is_keyword, is_keyword_text, is_word_shapeless, word_shapeless};

verus! {

/// What the option of a `compiled` attribute asks for: `Ok(true)` for a
/// graph that accepts any input shapes. The option must be one identifier
/// that is not a keyword; anything after it is an unexpected token.
pub open spec fn compile_option(tokens: Seq<Lexeme>) -> Result<bool, Seq<char>> {
    if tokens.len() == 0 {
        Ok(false)
    } else {
        match tokens[0] {
            Lexeme::Ident(word) => if is_keyword(word) {
                Err("expected identifier, found keyword `"@ + ascii_chars(word) + "`"@)
            } else if tokens.len() > 1 {
                Err("unexpected token"@)
            } else if word == word_shapeless() {
                Ok(true)
            } else {
                Err("expected `shapeless` or no option"@)
            },
            _ => Err("expected identifier"@),
        }
    }
}

/// Reads the option of a `compiled` attribute from its text: nothing for
/// shape-specialised graphs, or the single identifier `shapeless`.
pub fn compile_options(attribute: &[u8]) -> (shapeless: Result<bool, String>)
    ensures
        match lex(attribute@) {
            None => shapeless matches Err(message) && message@ == "expected identifier"@,
            Some(tokens) => match compile_option(tokens) {
                Ok(value) => shapeless == Ok::<bool, String>(value),
                Err(text) => shapeless matches Err(message) && message@ == text,
            },
        },
{
    let tokens = match tokenize(attribute) {
        Some(tokens) => tokens,
        None => {
            return Err(String::from_str("expected identifier"));
        },
    };
    if tokens.len() == 0 {
        return Ok(false);
    }
    match &tokens[0] {
        Token::Ident(word) => {
            if is_keyword_text(word.as_slice()) {
                proof {
                    lemma_keyword_bytes(word@);
                }
                let mut message = String::from_str("expected identifier, found keyword `");
                append_word(&mut message, word.as_slice());
                message.append("`");
                return Err(message);
            }
            if tokens.len() > 1 {
                return Err(String::from_str("unexpected token"));
            }
            if is_word_shapeless(word.as_slice()) {
                return Ok(true);
            }
            Err(String::from_str("expected `shapeless` or no option"))
        },
        _ => Err(String::from_str("expected identifier")),
    }
}

/// The type of a graph function parameter or of its output array, as far
/// as the arity check reads it.
#[derive(Debug, Clone, PartialEq, Eq)]
pub enum ArrayType {
    /// A fixed-size array type, holding the text of its length expression.
    Array(Vec<u8>),
    /// Any other type.
    Other,
}

/// A parameter of a graph function.
#[derive(Debug, Clone, PartialEq, Eq)]
pub enum Parameter {
    /// A `self` receiver.
    Receiver,
    /// A typed parameter.
    Typed(ArrayType),
}

/// A generic argument of the output type's last path segment.
#[derive(Debug, Clone, PartialEq, Eq)]
pub enum GenericArgument {
    /// A type argument.
    Type(ArrayType),
    /// A lifetime, constant or other argument.
    Other,
}

/// A segment of the output type's path.
#[derive(Debug, Clone, PartialEq, Eq)]
pub struct PathSegment {
    /// Whether the segment carries angle-bracketed arguments.
    pub angle_bracketed: bool,
    /// Its generic arguments in order.
    pub arguments: Vec<GenericArgument>,
}

/// The declared output of a graph function.
#[derive(Debug, Clone, PartialEq, Eq)]
pub enum Output {
    /// No declared output.
    Unit,
    /// A path type, holding its segments.
    Path(Vec<PathSegment>),
    /// Any other type.
    Other,
}

/// The signature of a function under the `compiled` attribute.
#[derive(Debug, Clone, PartialEq, Eq)]
pub struct GraphSignature {
    /// Name of the function.
    pub name: Vec<u8>,
    /// Its parameters in order.
    pub parameters: Vec<Parameter>,
    /// Its declared output.
    pub output: Output,
}

/// The text of an array type's length, or the error for another type.
pub open spec fn array_length_of(value: ArrayType) -> Result<Seq<u8>, Seq<char>> {
    match value {
        ArrayType::Array(length) => Ok(length@),
        ArrayType::Other => Err("expected [Array; N]"@),
    }
}

/// The input arity of a graph function: the length of its second
/// parameter's array type.
pub open spec fn input_arity(signature: GraphSignature) -> Result<Seq<u8>, Seq<char>> {
    if signature.parameters@.len() != 2 {
        Err("compiled graph requires Graph and [Array; N] arguments"@)
    } else {
        match signature.parameters@[1] {
            Parameter::Receiver => Err("self is not supported"@),
            Parameter::Typed(value) => array_length_of(value),
        }
    }
}

/// The output arity of a graph function: the length of the array type that
/// is the first argument of its output path's last segment.
pub open spec fn output_arity(signature: GraphSignature) -> Result<Seq<u8>, Seq<char>> {
    match signature.output {
        Output::Unit => Err("missing Result output"@),
        Output::Other => Err("expected Result<[Array; N]>"@),
        Output::Path(segments) => if segments@.len() == 0 {
            Err("empty Result path"@)
        } else if !segments@.last().angle_bracketed {
            Err("expected Result<[Array; N]>"@)
        } else if segments@.last().arguments@.len() == 0 {
            Err("Result has no output"@)
        } else {
            match segments@.last().arguments@[0] {
                GenericArgument::Other => Err("expected array output"@),
                GenericArgument::Type(value) => array_length_of(value),
            }
        },
    }
}

/// The value of an arity result.
pub open spec fn arity_view(result: Result<Vec<u8>, String>) -> Result<Seq<u8>, Seq<char>> {
    match result {
        Ok(length) => Ok(length@),
        Err(message) => Err(message@),
    }
}

/// Returns the text of an array type's length.
pub fn array_length(value: &ArrayType) -> (length: Result<Vec<u8>, String>)
    ensures
        arity_view(length) == array_length_of(*value),
{
    match value {
        ArrayType::Array(length) => Ok(copy_bytes(length.as_slice())),
        ArrayType::Other => Err(String::from_str("expected [Array; N]")),
    }
}

/// Returns the input arity of a graph function.
pub fn input_count(signature: &GraphSignature) -> (count: Result<Vec<u8>, String>)
    ensures
        arity_view(count) == input_arity(*signature),
{
    if signature.parameters.len() != 2 {
        return Err(String::from_str("compiled graph requires Graph and [Array; N] arguments"));
    }
    match &signature.parameters[1] {
        Parameter::Receiver => Err(String::from_str("self is not supported")),
        Parameter::Typed(value) => array_length(value),
    }
}

/// Returns the output arity of a graph function.
pub fn output_count(signature: &GraphSignature) -> (count: Result<Vec<u8>, String>)
    ensures
        arity_view(count) == output_arity(*signature),
{
    match &signature.output {
        Output::Unit => Err(String::from_str("missing Result output")),
        Output::Other => Err(String::from_str("expected Result<[Array; N]>")),
        Output::Path(segments) => {
            if segments.len() == 0 {
                return Err(String::from_str("empty Result path"));
            }
            let segment = &segments[segments.len() - 1];
            if !segment.angle_bracketed {
                return Err(String::from_str("expected Result<[Array; N]>"));
            }
            if segment.arguments.len() == 0 {
                return Err(String::from_str("Result has no output"));
            }
            match &segment.arguments[0] {
                GenericArgument::Other => Err(String::from_str("expected array output")),
                GenericArgument::Type(value) => array_length(value),
            }
        },
    }
}

/// What the `compiled` attribute generates beside a graph function: the
/// factory's name, whether the graph is shapeless, and the arities.
pub struct CompiledPlan {
    /// Name of the generated factory, `compile_` and the function's name.
    pub factory: Vec<u8>,
    /// Whether the compiled graph accepts any input shapes.
    pub shapeless: bool,
    /// Text of the input arity.
    pub inputs: Vec<u8>,
    /// Text of the output arity.
    pub outputs: Vec<u8>,
}

/// Reads the attribute's option and the function's arities, in that order,
/// and names the factory.
pub fn plan_compiled(attribute: &[u8], signature: &GraphSignature) -> (plan: Result<CompiledPlan, String>)
    ensures
        match lex(attribute@) {
            None => plan matches Err(message) && message@ == "expected identifier"@,
            Some(tokens) => match (compile_option(tokens), input_arity(*signature), output_arity(*signature)) {
                (Err(text), _, _) => plan matches Err(message) && message@ == text,
                (Ok(_), Err(text), _) => plan matches Err(message) && message@ == text,
                (Ok(_), Ok(_), Err(text)) => plan matches Err(message) && message@ == text,
                (Ok(shapeless), Ok(inputs), Ok(outputs)) => plan matches Ok(found) && {
                    &&& found.factory@ == utf8("compile_") + signature.name@
                    &&& found.shapeless == shapeless
                    &&& found.inputs@ == inputs
                    &&& found.outputs@ == outputs
                },
            },
        },
{
    let shapeless = match compile_options(attribute) {
        Ok(value) => value,
        Err(message) => {
            return Err(message);
        },
    };
    let inputs = match input_count(signature) {
        Ok(length) => length,
        Err(message) => {
            return Err(message);
        },
    };
    let outputs = match output_count(signature) {
        Ok(length) => length,
        Err(message) => {
            return Err(message);
        },
    };
    let mut factory: Vec<u8> = Vec::new();
    append_text(&mut factory, "compile_");
    append(&mut factory, signature.name.as_slice());
    Ok(CompiledPlan { factory, shapeless, inputs, outputs })
}

} // verus!
