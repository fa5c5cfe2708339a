//! What a `metal_kernel!` declaration expands to: its checked buffer
//! contract, the kernel contract it constructs, and the Metal translation
//! unit that the build checks it with.

use vstd::prelude::*;

use super::model::{
    BufferDecl, BufferModel, KernelDecl, KernelModel, LibraryDecl, LibraryModel, TemplateDecl, TemplateDefault,
    TemplateDefaultModel, TemplateModel, buffer_models, template_models,
};
use super::lexer::{copy_bytes, lex, tokenize};
use super::grammar::{kernel_declaration, library_declaration};
use super::parser::{parse_kernel, parse_library};
use super::diagnose::{kernel_fault, kernel_fault_text, library_fault, library_fault_text};
use super::text::{append, append_decimal, append_text, append_wide_decimal, decimal_bytes, utf8};
use super::grammar::{radix_literal_value, radix_prefixed};
use super::parser::radix_scan;
use super::model::byte_strings;
use super::words::{
    same_bytes,
    is_word_bf16, is_word_bool, is_word_f16, is_word_f32, is_word_float, is_word_i32, is_word_u32,
    word_bf16, word_bool, word_f16, word_f32, word_float, word_i32, word_u32,
};
use crate::metal::TemplateKind;
use crate::DType;

verus! {

/// Whether `element` names one of the primitive buffer element types.
pub open spec fn is_primitive(element: Seq<u8>) -> bool {
    element == word_bool() || element == word_u32() || element == word_i32() || element == word_f16()
        || element == word_bf16() || element == word_f32() || element == word_float()
}

/// The default element type of the first dtype template named `name`.
pub open spec fn dtype_template(templates: Seq<TemplateModel>, name: Seq<u8>) -> Option<Seq<u8>>
    decreases templates.len(),
{
    if templates.len() == 0 {
        None
    } else {
        match dtype_template(templates.drop_last(), name) {
            Some(element) => Some(element),
            None => match templates.last().default {
                TemplateDefaultModel::DType(element) => if templates.last().name == name {
                    Some(element)
                } else {
                    None
                },
                _ => None,
            },
        }
    }
}

/// Whether a buffer's element is a primitive type or a declared dtype
/// template.
pub open spec fn buffer_ok(templates: Seq<TemplateModel>, buffer: BufferModel) -> bool {
    is_primitive(buffer.element) || dtype_template(templates, buffer.element) is Some
}

/// What is wrong with a kernel's buffer contract.
pub open spec fn contract_fault(kernel: KernelModel) -> Option<Seq<char>> {
    if kernel.inputs.len() == 0 || kernel.outputs.len() == 0 {
        Some("kernel requires inputs and outputs"@)
    } else if exists|index: int| 0 <= index < kernel.inputs.len() && !buffer_ok(kernel.templates, #[trigger] kernel.inputs[index])
    {
        Some("buffer type must be a primitive dtype or declared dtype template"@)
    } else if exists|index: int| 0 <= index < kernel.outputs.len() && !buffer_ok(kernel.templates, #[trigger] kernel.outputs[index])
    {
        Some("buffer type must be a primitive dtype or declared dtype template"@)
    } else {
        None
    }
}

fn is_primitive_text(element: &[u8]) -> (found: bool)
    ensures
        found == is_primitive(element@),
{
    is_word_bool(element) || is_word_u32(element) || is_word_i32(element) || is_word_f16(element)
        || is_word_bf16(element) || is_word_f32(element) || is_word_float(element)
}

/// Returns the default element type of the first dtype template named `name`.
pub fn find_dtype_template(templates: &Vec<TemplateDecl>, name: &[u8]) -> (found: Option<Vec<u8>>)
    ensures
        match dtype_template(template_models(templates@), name@) {
            Some(element) => found matches Some(copy) && copy@ == element,
            None => found is None,
        },
{
    let ghost all = template_models(templates@);
    let mut index: usize = 0;
    while index < templates.len()
        invariant
            index <= templates@.len(),
            all == template_models(templates@),
            dtype_template(all.take(index as int), name@) is None,
        decreases templates@.len() - index,
    {
        proof {
            assert(all.take(index + 1).drop_last() =~= all.take(index as int));
        }
        let template = &templates[index];
        if let TemplateDefault::DType(element) = &template.default {
            if same_bytes(template.name.as_slice(), name) {
                proof {
                    lemma_dtype_template_prefix(all, name@, index + 1);
                }
                return Some(copy_bytes(element.as_slice()));
            }
        }
        index = index + 1;
    }
    proof {
        assert(all.take(all.len() as int) =~= all);
    }
    None
}

proof fn lemma_dtype_template_prefix(templates: Seq<TemplateModel>, name: Seq<u8>, count: int)
    requires
        0 <= count <= templates.len(),
        dtype_template(templates.take(count), name) is Some,
    ensures
        dtype_template(templates, name) == dtype_template(templates.take(count), name),
    decreases templates.len() - count,
{
    if count < templates.len() {
        assert(templates.take(count + 1).drop_last() =~= templates.take(count));
        lemma_dtype_template_prefix(templates, name, count + 1);
    } else {
        assert(templates.take(count) =~= templates);
    }
}

fn buffers_ok(templates: &Vec<TemplateDecl>, buffers: &Vec<BufferDecl>) -> (ok: bool)
    ensures
        ok == forall|index: int| 0 <= index < buffers@.len() ==> buffer_ok(
            template_models(templates@),
            #[trigger] buffer_models(buffers@)[index],
        ),
{
    let mut index: usize = 0;
    while index < buffers.len()
        invariant
            index <= buffers@.len(),
            forall|k: int| 0 <= k < index ==> buffer_ok(
                template_models(templates@),
                #[trigger] buffer_models(buffers@)[k],
            ),
        decreases buffers@.len() - index,
    {
        let element = buffers[index].element.as_slice();
        if !is_primitive_text(element) && find_dtype_template(templates, element).is_none() {
            proof {
                assert(!buffer_ok(template_models(templates@), buffer_models(buffers@)[index as int]));
            }
            return false;
        }
        index = index + 1;
    }
    true
}

/// Checks that a kernel declares inputs and outputs and that every buffer's
/// element is a primitive type or a declared dtype template.
pub fn validate_contract(kernel: &KernelDecl) -> (result: Result<(), String>)
    ensures
        match contract_fault(kernel@) {
            None => result is Ok,
            Some(message) => result matches Err(text) && text@ == message,
        },
{
    if kernel.inputs.len() == 0 || kernel.outputs.len() == 0 {
        return Err(String::from_str("kernel requires inputs and outputs"));
    }
    if !buffers_ok(&kernel.templates, &kernel.inputs) || !buffers_ok(&kernel.templates, &kernel.outputs) {
        return Err(String::from_str("buffer type must be a primitive dtype or declared dtype template"));
    }
    Ok(())
}

/// The Metal spelling of a buffer element type.
pub open spec fn metal_type(element: Seq<u8>) -> Option<Seq<u8>> {
    if element == word_bool() {
        Some(utf8("bool"))
    } else if element == word_u32() {
        Some(utf8("uint"))
    } else if element == word_i32() {
        Some(utf8("int"))
    } else if element == word_f16() {
        Some(utf8("half"))
    } else if element == word_bf16() {
        Some(utf8("bfloat"))
    } else if element == word_f32() || element == word_float() {
        Some(utf8("float"))
    } else {
        None
    }
}

/// Appends the Metal spelling of `element` to `out`, or returns `false` when
/// the element has none.
pub fn append_metal_type(out: &mut Vec<u8>, element: &[u8]) -> (done: bool)
    ensures
        match metal_type(element@) {
            Some(text) => done && final(out)@ == old(out)@ + text,
            None => !done && final(out)@ == old(out)@,
        },
{
    if is_word_bool(element) {
        append_text(out, "bool");
    } else if is_word_u32(element) {
        append_text(out, "uint");
    } else if is_word_i32(element) {
        append_text(out, "int");
    } else if is_word_f16(element) {
        append_text(out, "half");
    } else if is_word_bf16(element) {
        append_text(out, "bfloat");
    } else if is_word_f32(element) || is_word_float(element) {
        append_text(out, "float");
    } else {
        return false;
    }
    true
}

/// The Metal type of a buffer: the default of its dtype template, else its
/// own element type.
pub open spec fn buffer_type(templates: Seq<TemplateModel>, buffer: BufferModel) -> Option<Seq<u8>> {
    match dtype_template(templates, buffer.element) {
        Some(element) => metal_type(element),
        None => metal_type(buffer.element),
    }
}

/// The kernel parameter that binds a buffer at `index`.
pub open spec fn buffer_argument(
    templates: Seq<TemplateModel>,
    buffer: BufferModel,
    index: nat,
    output: bool,
) -> Option<Seq<u8>> {
    match buffer_type(templates, buffer) {
        None => None,
        Some(element) => {
            let binding = utf8(" [[buffer(") + decimal_bytes(index) + utf8(")]]");
            if output {
                Some(utf8("device ") + element + utf8("* ") + buffer.name + binding)
            } else if buffer.scalar {
                Some(utf8("constant ") + element + utf8("& ") + buffer.name + binding)
            } else {
                Some(utf8("const device ") + element + utf8("* ") + buffer.name + binding)
            }
        },
    }
}

/// The parameters binding the first `count` of `buffers`, numbered from
/// `offset`.
pub open spec fn buffer_arguments(
    templates: Seq<TemplateModel>,
    buffers: Seq<BufferModel>,
    offset: nat,
    output: bool,
    count: nat,
) -> Option<Seq<Seq<u8>>>
    decreases count,
{
    if count == 0 {
        Some(Seq::empty())
    } else {
        match buffer_arguments(templates, buffers, offset, output, (count - 1) as nat) {
            None => None,
            Some(arguments) => match buffer_argument(
                templates,
                buffers[count - 1],
                (offset + count - 1) as nat,
                output,
            ) {
                None => None,
                Some(argument) => Some(arguments.push(argument)),
            },
        }
    }
}

/// The thread-position parameters that every checked kernel receives.
pub open spec fn position_arguments() -> Seq<Seq<u8>> {
    seq![
        utf8("uint3 thread_position_in_grid [[thread_position_in_grid]]"),
        utf8("uint3 thread_position_in_threadgroup [[thread_position_in_threadgroup]]"),
        utf8("uint3 threadgroup_position_in_grid [[threadgroup_position_in_grid]]"),
        utf8("uint3 threads_per_threadgroup [[threads_per_threadgroup]]"),
        utf8("uint thread_index_in_threadgroup [[thread_index_in_threadgroup]]"),
        utf8("uint thread_index_in_simdgroup [[thread_index_in_simdgroup]]"),
        utf8("uint simdgroup_index_in_threadgroup [[simdgroup_index_in_threadgroup]]"),
    ]
}

/// All parameters of the checked kernel: inputs, outputs numbered after
/// the inputs, and the thread-position parameters.
pub open spec fn kernel_arguments(kernel: KernelModel) -> Option<Seq<Seq<u8>>> {
    match (
        buffer_arguments(kernel.templates, kernel.inputs, 0, false, kernel.inputs.len()),
        buffer_arguments(
            kernel.templates,
            kernel.outputs,
            kernel.inputs.len(),
            true,
            kernel.outputs.len(),
        ),
    ) {
        (Some(inputs), Some(outputs)) => Some(inputs + outputs + position_arguments()),
        _ => None,
    }
}

/// `lines` joined with `separator` between consecutive lines.
pub open spec fn joined(lines: Seq<Seq<u8>>, separator: Seq<u8>) -> Seq<u8>
    decreases lines.len(),
{
    if lines.len() == 0 {
        Seq::empty()
    } else if lines.len() == 1 {
        lines[0]
    } else {
        joined(lines.drop_last(), separator) + separator + lines.last()
    }
}

/// The preprocessor value that stands for a template's default.
pub open spec fn template_value(default: TemplateDefaultModel) -> Option<Seq<u8>> {
    match default {
        TemplateDefaultModel::DType(element) => metal_type(element),
        TemplateDefaultModel::Int(negative, literal) => match integer_text(literal) {
            Some(digits) => Some(
                (if negative {
                    utf8("-")
                } else {
                    Seq::empty()
                }) + digits,
            ),
            None => None,
        },
        TemplateDefaultModel::Bool(value) => Some(
            if value {
                utf8("true")
            } else {
                utf8("false")
            },
        ),
    }
}

/// The digits of a decimal literal's digit part, without underscores.
pub open spec fn literal_digits(literal: Seq<u8>, end: int) -> Seq<u8>
    decreases end,
{
    if end <= 0 {
        Seq::empty()
    } else if literal[end - 1] == 95 {
        literal_digits(literal, end - 1)
    } else {
        literal_digits(literal, end - 1).push(literal[end - 1])
    }
}

/// `digits` without its leading zeros, keeping one zero for a zero value.
pub open spec fn without_leading_zeros(digits: Seq<u8>) -> Seq<u8>
    decreases digits.len(),
{
    if digits.len() > 1 && digits[0] == 48 {
        without_leading_zeros(digits.drop_first())
    } else {
        digits
    }
}

/// The base-ten value of a decimal integer literal as written digits.
pub open spec fn integer_digits(literal: Seq<u8>) -> Seq<u8> {
    without_leading_zeros(literal_digits(literal, super::grammar::digits_end(literal, 0)))
}

/// The base-ten digits of an integer literal's value: a decimal literal's
/// digits without underscores and leading zeros, or the rendering of a
/// hexadecimal, octal or binary literal's value. A radix literal whose value
/// exceeds `u128`, which the grammar never accepts, has none.
pub open spec fn integer_text(literal: Seq<u8>) -> Option<Seq<u8>> {
    if radix_prefixed(literal) {
        if radix_literal_value(literal) <= u128::MAX {
            Some(decimal_bytes(radix_literal_value(literal)))
        } else {
            None
        }
    } else {
        Some(integer_digits(literal))
    }
}

/// The `#define` lines that give every template its default value.
pub open spec fn template_defines(templates: Seq<TemplateModel>) -> Option<Seq<u8>>
    decreases templates.len(),
{
    if templates.len() == 0 {
        Some(Seq::empty())
    } else {
        match (template_defines(templates.drop_last()), template_value(templates.last().default)) {
            (Some(prefix), Some(value)) => Some(
                prefix + utf8("#define ") + templates.last().name + utf8(" ") + value + utf8("\n"),
            ),
            _ => None,
        }
    }
}

/// The Metal translation unit that checks a kernel body: template defines,
/// the header, and the body wrapped in a kernel function with every buffer
/// and thread-position parameter.
pub open spec fn validation_unit(kernel: KernelModel, source: Seq<u8>, header: Seq<u8>) -> Option<Seq<u8>> {
    match (kernel_arguments(kernel), template_defines(kernel.templates)) {
        (Some(arguments), Some(defines)) => Some(
            utf8("#include <metal_stdlib>\nusing namespace metal;\n") + defines + utf8("\n") + header
                + utf8("\nkernel void __mirtal_validate(\n") + joined(arguments, utf8(",\n"))
                + utf8("\n) {\n") + source + utf8("\n}\n"),
        ),
        _ => None,
    }
}

/// Appends the Metal type of `buffer` to `out`, or returns `false` when it
/// has none.
fn append_buffer_type(out: &mut Vec<u8>, templates: &Vec<TemplateDecl>, buffer: &BufferDecl) -> (done: bool)
    ensures
        match buffer_type(template_models(templates@), buffer@) {
            Some(text) => done && final(out)@ == old(out)@ + text,
            None => !done && final(out)@ == old(out)@,
        },
{
    match find_dtype_template(templates, buffer.element.as_slice()) {
        Some(element) => append_metal_type(out, element.as_slice()),
        None => append_metal_type(out, buffer.element.as_slice()),
    }
}

/// Returns the kernel parameter that binds `buffer` at `index`.
fn buffer_argument_text(templates: &Vec<TemplateDecl>, buffer: &BufferDecl, index: usize, output: bool) -> (argument: Option<Vec<u8>>)
    ensures
        match buffer_argument(template_models(templates@), buffer@, index as nat, output) {
            Some(text) => argument matches Some(bytes) && bytes@ == text,
            None => argument is None,
        },
{
    let mut element: Vec<u8> = Vec::new();
    if !append_buffer_type(&mut element, templates, buffer) {
        return None;
    }
    assert(element@ == Seq::<u8>::empty() + element@);
    let mut argument: Vec<u8> = Vec::new();
    if output {
        append_text(&mut argument, "device ");
        append(&mut argument, element.as_slice());
        append_text(&mut argument, "* ");
    } else if buffer.scalar {
        append_text(&mut argument, "constant ");
        append(&mut argument, element.as_slice());
        append_text(&mut argument, "& ");
    } else {
        append_text(&mut argument, "const device ");
        append(&mut argument, element.as_slice());
        append_text(&mut argument, "* ");
    }
    append(&mut argument, buffer.name.as_slice());
    append_text(&mut argument, " [[buffer(");
    append_decimal(&mut argument, index);
    append_text(&mut argument, ")]]");
    proof {
        let ghost element_text = buffer_type(template_models(templates@), buffer@)->Some_0;
        assert(element@ == element_text);
    }
    Some(argument)
}

/// Returns the parameters binding every buffer of `buffers`, numbered from
/// `offset`.
fn buffer_argument_list(templates: &Vec<TemplateDecl>, buffers: &Vec<BufferDecl>, offset: usize, output: bool) -> (arguments: Option<Vec<Vec<u8>>>)
    requires
        offset + buffers@.len() <= usize::MAX,
    ensures
        match buffer_arguments(template_models(templates@), buffer_models(buffers@), offset as nat, output, buffers@.len()) {
            Some(texts) => arguments matches Some(list) && byte_strings(list@) == texts,
            None => arguments is None,
        },
{
    let ghost models = buffer_models(buffers@);
    let mut list: Vec<Vec<u8>> = Vec::new();
    let mut index: usize = 0;
    while index < buffers.len()
        invariant
            index <= buffers@.len(),
            offset + buffers@.len() <= usize::MAX,
            models == buffer_models(buffers@),
            buffer_arguments(template_models(templates@), models, offset as nat, output, index as nat) == Some(byte_strings(list@)),
        decreases buffers@.len() - index,
    {
        match buffer_argument_text(templates, &buffers[index], offset + index, output) {
            None => {
                proof {
                    lemma_arguments_fail(template_models(templates@), models, offset as nat, output, (index + 1) as nat, buffers@.len());
                }
                return None;
            },
            Some(argument) => {
                let ghost before = list@;
                list.push(argument);
                proof {
                    assert(byte_strings(list@) =~= byte_strings(before).push(argument@));
                }
            },
        }
        index = index + 1;
    }
    Some(list)
}

proof fn lemma_arguments_fail(
    templates: Seq<TemplateModel>,
    buffers: Seq<BufferModel>,
    offset: nat,
    output: bool,
    count: nat,
    total: nat,
)
    requires
        count <= total,
        buffer_arguments(templates, buffers, offset, output, count) is None,
    ensures
        buffer_arguments(templates, buffers, offset, output, total) is None,
    decreases total - count,
{
    if count < total {
        lemma_arguments_fail(templates, buffers, offset, output, count + 1, total);
    }
}

/// Appends `lines` joined with `separator` to `out`.
fn append_joined(out: &mut Vec<u8>, lines: &Vec<Vec<u8>>, separator: &str)
    ensures
        final(out)@ == old(out)@ + joined(byte_strings(lines@), utf8(separator)),
{
    let ghost start = out@;
    let mut index: usize = 0;
    while index < lines.len()
        invariant
            index <= lines@.len(),
            out@ == start + joined(byte_strings(lines@).take(index as int), utf8(separator)),
        decreases lines@.len() - index,
    {
        let ghost all = byte_strings(lines@);
        proof {
            assert(all.take(index + 1).drop_last() =~= all.take(index as int));
            assert(all.take(index + 1).last() == lines@[index as int]@);
        }
        if index > 0 {
            append_text(out, separator);
        } else {
            assert(all.take(1) =~= seq![all[0]]);
        }
        append(out, lines[index].as_slice());
        index = index + 1;
    }
    assert(byte_strings(lines@).take(lines@.len() as int) =~= byte_strings(lines@));
}

/// Appends the digits of a decimal literal's value to `out`: the digit part
/// without underscores and leading zeros.
fn append_integer_digits(out: &mut Vec<u8>, literal: &[u8])
    ensures
        final(out)@ == old(out)@ + integer_digits(literal@),
{
    let end = super::parser::digit_part_end(literal, 0);
    let mut digits: Vec<u8> = Vec::new();
    let mut index: usize = 0;
    while index < end
        invariant
            index <= end <= literal@.len(),
            digits@ == literal_digits(literal@, index as int),
        decreases end - index,
    {
        if literal[index] != 95 {
            digits.push(literal[index]);
        }
        index = index + 1;
    }
    let mut first: usize = 0;
    assert(digits@.skip(0) =~= digits@);
    while first < digits.len() && digits.len() - first > 1 && digits[first] == 48
        invariant
            first <= digits@.len(),
            digits@ == literal_digits(literal@, end as int),
            without_leading_zeros(digits@.skip(first as int)) == without_leading_zeros(digits@),
        decreases digits@.len() - first,
    {
        proof {
            assert(digits@.skip(first as int).drop_first() =~= digits@.skip(first + 1));
        }
        first = first + 1;
    }
    proof {
        assert(digits@.skip(first as int) == without_leading_zeros(digits@.skip(first as int)));
    }
    let mut index: usize = first;
    let ghost start = out@;
    while index < digits.len()
        invariant
            first <= index <= digits@.len(),
            out@ == start + digits@.subrange(first as int, index as int),
        decreases digits@.len() - index,
    {
        out.push(digits[index]);
        proof {
            assert(digits@.subrange(first as int, index + 1) =~= digits@.subrange(first as int, index as int).push(digits@[index as int]));
        }
        index = index + 1;
    }
    proof {
        assert(digits@.subrange(first as int, digits@.len() as int) =~= digits@.skip(first as int));
    }
}

/// Appends the base-ten digits of an integer literal's value to `out`, or
/// returns `false` when a radix literal's value exceeds `u128`.
fn append_integer_text(out: &mut Vec<u8>, literal: &[u8]) -> (done: bool)
    ensures
        match integer_text(literal@) {
            Some(text) => done && final(out)@ == old(out)@ + text,
            None => !done && final(out)@ == old(out)@,
        },
{
    if literal.len() > 1 && literal[0] == 48 && (literal[1] == 120 || literal[1] == 111 || literal[1] == 98) {
        match radix_scan(literal) {
            Some((_, _, _, value)) => {
                append_wide_decimal(out, value);
                true
            },
            None => false,
        }
    } else {
        append_integer_digits(out, literal);
        true
    }
}

/// Appends the preprocessor value of a template's default to `out`, or
/// returns `false` when a dtype default has no Metal spelling.
fn append_template_value(out: &mut Vec<u8>, default: &TemplateDefault) -> (done: bool)
    ensures
        match template_value(default@) {
            Some(text) => done && final(out)@ == old(out)@ + text,
            None => !done && final(out)@ == old(out)@,
        },
{
    match default {
        TemplateDefault::DType(element) => append_metal_type(out, element.as_slice()),
        TemplateDefault::Int { negative, literal } => {
            let mut digits: Vec<u8> = Vec::new();
            if !append_integer_text(&mut digits, literal.as_slice()) {
                return false;
            }
            let ghost start = out@;
            if *negative {
                append_text(out, "-");
            } else {
                assert(out@ == start + Seq::<u8>::empty());
            }
            let ghost sign = out@;
            append(out, digits.as_slice());
            assert(out@ == start + (sign.skip(start.len() as int) + digits@));
            true
        },
        TemplateDefault::Bool(value) => {
            if *value {
                append_text(out, "true");
            } else {
                append_text(out, "false");
            }
            true
        },
    }
}

/// Appends a `#define` line for every template to `out`, or returns `false`
/// when a dtype default has no Metal spelling.
fn append_template_defines(out: &mut Vec<u8>, templates: &Vec<TemplateDecl>) -> (done: bool)
    ensures
        match template_defines(template_models(templates@)) {
            Some(text) => done && final(out)@ == old(out)@ + text,
            None => !done,
        },
{
    let ghost start = out@;
    let ghost all = template_models(templates@);
    let mut index: usize = 0;
    while index < templates.len()
        invariant
            index <= templates@.len(),
            all == template_models(templates@),
            template_defines(all.take(index as int)) matches Some(text) && out@ == start + text,
        decreases templates@.len() - index,
    {
        proof {
            assert(all.take(index + 1).drop_last() =~= all.take(index as int));
        }
        let template = &templates[index];
        append_text(out, "#define ");
        append(out, template.name.as_slice());
        append_text(out, " ");
        if !append_template_value(out, &template.default) {
            proof {
                lemma_defines_fail(all, (index + 1) as int);
            }
            return false;
        }
        append_text(out, "\n");
        index = index + 1;
    }
    proof {
        assert(all.take(all.len() as int) =~= all);
    }
    true
}

proof fn lemma_defines_fail(templates: Seq<TemplateModel>, count: int)
    requires
        0 <= count <= templates.len(),
        template_defines(templates.take(count)) is None,
    ensures
        template_defines(templates) is None,
    decreases templates.len() - count,
{
    if count < templates.len() {
        assert(templates.take(count + 1).drop_last() =~= templates.take(count));
        lemma_defines_fail(templates, count + 1);
    } else {
        assert(templates.take(count) =~= templates);
    }
}

proof fn lemma_byte_strings_push(items: Seq<Vec<u8>>, item: Vec<u8>)
    ensures
        byte_strings(items.push(item)) =~= byte_strings(items).push(item@),
{
}

/// Appends the bytes of `text` to `lines` as a line of its own.
fn push_line(lines: &mut Vec<Vec<u8>>, text: &str)
    ensures
        byte_strings(final(lines)@) == byte_strings(old(lines)@).push(utf8(text)),
{
    let mut line: Vec<u8> = Vec::new();
    append_text(&mut line, text);
    let ghost before = lines@;
    lines.push(line);
    proof {
        lemma_byte_strings_push(before, line);
    }
}

/// Appends copies of `extra` to `lines`.
fn extend_lines(lines: &mut Vec<Vec<u8>>, extra: &Vec<Vec<u8>>)
    ensures
        byte_strings(final(lines)@) == byte_strings(old(lines)@) + byte_strings(extra@),
{
    let ghost start = byte_strings(lines@);
    let mut index: usize = 0;
    while index < extra.len()
        invariant
            index <= extra@.len(),
            byte_strings(lines@) == start + byte_strings(extra@).take(index as int),
        decreases extra@.len() - index,
    {
        let ghost before = lines@;
        let line = copy_bytes(extra[index].as_slice());
        lines.push(line);
        proof {
            lemma_byte_strings_push(before, line);
            assert(byte_strings(extra@).take(index + 1) =~= byte_strings(extra@).take(index as int).push(extra@[index as int]@));
            assert(byte_strings(lines@) =~= start + byte_strings(extra@).take(index + 1));
        }
        index = index + 1;
    }
    assert(byte_strings(extra@).take(extra@.len() as int) =~= byte_strings(extra@));
}

/// Returns every parameter of the checked kernel, or `None` when a buffer
/// has no Metal type.
fn kernel_argument_lines(kernel: &KernelDecl) -> (arguments: Option<Vec<Vec<u8>>>)
    requires
        kernel.inputs@.len() + kernel.outputs@.len() <= usize::MAX,
    ensures
        match kernel_arguments(kernel@) {
            Some(texts) => arguments matches Some(list) && byte_strings(list@) == texts,
            None => arguments is None,
        },
{
    let inputs = buffer_argument_list(&kernel.templates, &kernel.inputs, 0, false);
    let outputs = buffer_argument_list(&kernel.templates, &kernel.outputs, kernel.inputs.len(), true);
    let (inputs, outputs) = match (inputs, outputs) {
        (Some(inputs), Some(outputs)) => (inputs, outputs),
        _ => {
            return None;
        },
    };
    let mut arguments: Vec<Vec<u8>> = Vec::new();
    extend_lines(&mut arguments, &inputs);
    extend_lines(&mut arguments, &outputs);
    let ghost buffers = byte_strings(arguments@);
    push_line(&mut arguments, "uint3 thread_position_in_grid [[thread_position_in_grid]]");
    push_line(&mut arguments, "uint3 thread_position_in_threadgroup [[thread_position_in_threadgroup]]");
    push_line(&mut arguments, "uint3 threadgroup_position_in_grid [[threadgroup_position_in_grid]]");
    push_line(&mut arguments, "uint3 threads_per_threadgroup [[threads_per_threadgroup]]");
    push_line(&mut arguments, "uint thread_index_in_threadgroup [[thread_index_in_threadgroup]]");
    push_line(&mut arguments, "uint thread_index_in_simdgroup [[thread_index_in_simdgroup]]");
    push_line(&mut arguments, "uint simdgroup_index_in_threadgroup [[simdgroup_index_in_threadgroup]]");
    assert(byte_strings(arguments@) =~= buffers + position_arguments());
    Some(arguments)
}

/// Builds the Metal translation unit that checks a kernel's body and header
/// against its declared buffers and templates.
///
/// Fails with `unsupported Metal type` when a buffer or a dtype template
/// default has no Metal spelling, or an integer default has no value that
/// fits in `u128`.
pub fn validation_source(kernel: &KernelDecl, source: &[u8], header: &[u8]) -> (unit: Result<Vec<u8>, String>)
    requires
        kernel.inputs@.len() + kernel.outputs@.len() <= usize::MAX,
    ensures
        match validation_unit(kernel@, source@, header@) {
            Some(text) => unit matches Ok(bytes) && bytes@ == text,
            None => unit matches Err(message) && message@ == "unsupported Metal type"@,
        },
{
    let arguments = kernel_argument_lines(kernel);
    let mut defines: Vec<u8> = Vec::new();
    let defined = append_template_defines(&mut defines, &kernel.templates);
    let arguments = match arguments {
        Some(arguments) => arguments,
        None => {
            return Err(String::from_str("unsupported Metal type"));
        },
    };
    if !defined {
        return Err(String::from_str("unsupported Metal type"));
    }
    let mut unit: Vec<u8> = Vec::new();
    append_text(&mut unit, "#include <metal_stdlib>\nusing namespace metal;\n");
    append(&mut unit, defines.as_slice());
    append_text(&mut unit, "\n");
    append(&mut unit, header);
    append_text(&mut unit, "\nkernel void __mirtal_validate(\n");
    append_joined(&mut unit, &arguments, ",\n");
    append_text(&mut unit, "\n) {\n");
    append(&mut unit, source);
    append_text(&mut unit, "\n}\n");
    Ok(unit)
}

/// The dtype requirement that a checked kernel places on one buffer.
#[derive(Debug, Clone, PartialEq, Eq)]
pub enum BufferDType {
    /// One exact dtype.
    Exact(DType),
    /// Any floating-point dtype.
    Float,
    /// The dtype given to the named template.
    Template(Vec<u8>),
}

/// The value of a [`BufferDType`].
pub enum BufferDTypeModel {
    /// One exact dtype.
    Exact(DType),
    /// Any floating-point dtype.
    Float,
    /// The dtype given to the named template.
    Template(Seq<u8>),
}

impl View for BufferDType {
    type V = BufferDTypeModel;

    open spec fn view(&self) -> BufferDTypeModel {
        match self {
            BufferDType::Exact(dtype) => BufferDTypeModel::Exact(*dtype),
            BufferDType::Float => BufferDTypeModel::Float,
            BufferDType::Template(name) => BufferDTypeModel::Template(name@),
        }
    }
}

/// The dtype requirement of a buffer whose element passed contract
/// checking: its dtype template, else the primitive it names.
pub open spec fn buffer_dtype(templates: Seq<TemplateModel>, buffer: BufferModel) -> BufferDTypeModel {
    if dtype_template(templates, buffer.element) is Some {
        BufferDTypeModel::Template(buffer.element)
    } else if buffer.element == word_bool() {
        BufferDTypeModel::Exact(DType::Bool)
    } else if buffer.element == word_u32() {
        BufferDTypeModel::Exact(DType::Uint32)
    } else if buffer.element == word_i32() {
        BufferDTypeModel::Exact(DType::Int32)
    } else if buffer.element == word_f16() {
        BufferDTypeModel::Exact(DType::Float16)
    } else if buffer.element == word_bf16() {
        BufferDTypeModel::Exact(DType::Bfloat16)
    } else if buffer.element == word_f32() {
        BufferDTypeModel::Exact(DType::Float32)
    } else {
        BufferDTypeModel::Float
    }
}

/// The kind of value a template's default fixes.
pub open spec fn default_kind(default: TemplateDefaultModel) -> TemplateKind {
    match default {
        TemplateDefaultModel::DType(_) => TemplateKind::DType,
        TemplateDefaultModel::Int(_, _) => TemplateKind::Int,
        TemplateDefaultModel::Bool(_) => TemplateKind::Bool,
    }
}

/// The values of a list of buffer dtype requirements.
pub open spec fn buffer_dtype_models(items: Seq<BufferDType>) -> Seq<BufferDTypeModel> {
    items.map_values(|item: BufferDType| item@)
}

/// The checked contract a kernel declaration constructs: the dtype
/// requirement of every buffer and the kind of every template.
pub struct KernelPlan {
    /// Requirements of the input buffers in binding order.
    pub input_dtypes: Vec<BufferDType>,
    /// Requirements of the output buffers in binding order.
    pub output_dtypes: Vec<BufferDType>,
    /// Kinds of the templates in declaration order.
    pub template_kinds: Vec<TemplateKind>,
}

fn buffer_dtype_of(templates: &Vec<TemplateDecl>, buffer: &BufferDecl) -> (dtype: BufferDType)
    requires
        buffer_ok(template_models(templates@), buffer@),
    ensures
        dtype@ == buffer_dtype(template_models(templates@), buffer@),
{
    let element = buffer.element.as_slice();
    if find_dtype_template(templates, element).is_some() {
        BufferDType::Template(copy_bytes(element))
    } else if is_word_bool(element) {
        BufferDType::Exact(DType::Bool)
    } else if is_word_u32(element) {
        BufferDType::Exact(DType::Uint32)
    } else if is_word_i32(element) {
        BufferDType::Exact(DType::Int32)
    } else if is_word_f16(element) {
        BufferDType::Exact(DType::Float16)
    } else if is_word_bf16(element) {
        BufferDType::Exact(DType::Bfloat16)
    } else if is_word_f32(element) {
        BufferDType::Exact(DType::Float32)
    } else {
        BufferDType::Float
    }
}

fn buffer_dtype_list(templates: &Vec<TemplateDecl>, buffers: &Vec<BufferDecl>) -> (dtypes: Vec<BufferDType>)
    requires
        forall|index: int| 0 <= index < buffers@.len() ==> buffer_ok(
            template_models(templates@),
            #[trigger] buffer_models(buffers@)[index],
        ),
    ensures
        buffer_dtype_models(dtypes@) == buffer_models(buffers@).map_values(
            |buffer: BufferModel| buffer_dtype(template_models(templates@), buffer),
        ),
{
    let ghost wanted = buffer_models(buffers@).map_values(
        |buffer: BufferModel| buffer_dtype(template_models(templates@), buffer),
    );
    let mut dtypes: Vec<BufferDType> = Vec::new();
    let mut index: usize = 0;
    while index < buffers.len()
        invariant
            index <= buffers@.len(),
            wanted == buffer_models(buffers@).map_values(
                |buffer: BufferModel| buffer_dtype(template_models(templates@), buffer),
            ),
            forall|k: int| 0 <= k < buffers@.len() ==> buffer_ok(
                template_models(templates@),
                #[trigger] buffer_models(buffers@)[k],
            ),
            buffer_dtype_models(dtypes@) == wanted.take(index as int),
        decreases buffers@.len() - index,
    {
        proof {
            assert(buffer_ok(template_models(templates@), buffer_models(buffers@)[index as int]));
        }
        let dtype = buffer_dtype_of(templates, &buffers[index]);
        let ghost before = dtypes@;
        dtypes.push(dtype);
        proof {
            assert(dtypes@ == before.push(dtype));
            assert(wanted[index as int] == dtype@);
            assert(buffer_dtype_models(dtypes@) =~= buffer_dtype_models(before).push(dtype@));
            assert(buffer_dtype_models(dtypes@) =~= wanted.take(index + 1));
        }
        index = index + 1;
    }
    proof {
        assert(wanted.take(buffers@.len() as int) =~= wanted);
    }
    dtypes
}

/// Checks a kernel's buffer contract and returns the dtype requirement of
/// every buffer and the kind of every template.
pub fn plan_kernel(kernel: &KernelDecl) -> (plan: Result<KernelPlan, String>)
    ensures
        match contract_fault(kernel@) {
            Some(message) => plan matches Err(text) && text@ == message,
            None => plan matches Ok(found) && {
                &&& buffer_dtype_models(found.input_dtypes@) == kernel@.inputs.map_values(
                    |buffer: BufferModel| buffer_dtype(kernel@.templates, buffer),
                )
                &&& buffer_dtype_models(found.output_dtypes@) == kernel@.outputs.map_values(
                    |buffer: BufferModel| buffer_dtype(kernel@.templates, buffer),
                )
                &&& found.template_kinds@ == kernel@.templates.map_values(
                    |template: TemplateModel| default_kind(template.default),
                )
            },
        },
{
    match validate_contract(kernel) {
        Err(message) => {
            return Err(message);
        },
        Ok(()) => {},
    }
    proof {
        assert(contract_fault(kernel@) is None);
        assert forall|index: int| 0 <= index < kernel.inputs@.len() implies buffer_ok(
            template_models(kernel.templates@),
            #[trigger] buffer_models(kernel.inputs@)[index],
        ) by {
            assert(0 <= index < kernel@.inputs.len());
        }
        assert forall|index: int| 0 <= index < kernel.outputs@.len() implies buffer_ok(
            template_models(kernel.templates@),
            #[trigger] buffer_models(kernel.outputs@)[index],
        ) by {
            assert(0 <= index < kernel@.outputs.len());
        }
    }
    let input_dtypes = buffer_dtype_list(&kernel.templates, &kernel.inputs);
    let output_dtypes = buffer_dtype_list(&kernel.templates, &kernel.outputs);
    let ghost wanted = kernel@.templates.map_values(|template: TemplateModel| default_kind(template.default));
    let mut template_kinds: Vec<TemplateKind> = Vec::new();
    let mut index: usize = 0;
    while index < kernel.templates.len()
        invariant
            index <= kernel.templates@.len(),
            wanted == kernel@.templates.map_values(|template: TemplateModel| default_kind(template.default)),
            template_kinds@ == wanted.take(index as int),
        decreases kernel.templates@.len() - index,
    {
        let kind = match &kernel.templates[index].default {
            TemplateDefault::DType(_) => TemplateKind::DType,
            TemplateDefault::Int { .. } => TemplateKind::Int,
            TemplateDefault::Bool(_) => TemplateKind::Bool,
        };
        template_kinds.push(kind);
        proof {
            assert(template_kinds@ =~= wanted.take(index + 1));
        }
        index = index + 1;
    }
    proof {
        assert(wanted.take(kernel.templates@.len() as int) =~= wanted);
    }
    Ok(KernelPlan { input_dtypes, output_dtypes, template_kinds })
}

/// Reads a `metal_kernel!` declaration from the text of its invocation,
/// or reports the first place where it does not follow the grammar.
pub fn read_kernel(text: &[u8]) -> (kernel: Result<KernelDecl, String>)
    ensures
        match lex(text@) {
            None => kernel matches Err(message) && message@ == "unexpected token"@,
            Some(tokens) => match kernel_declaration(tokens) {
                Some(model) => kernel matches Ok(decl) && decl@ == model,
                None => kernel matches Err(message) && message@ == kernel_fault(tokens),
            },
        },
{
    let tokens = match tokenize(text) {
        Some(tokens) => tokens,
        None => {
            return Err(String::from_str("unexpected token"));
        },
    };
    match parse_kernel(tokens.as_slice()) {
        Some(kernel) => Ok(kernel),
        None => Err(kernel_fault_text(tokens.as_slice())),
    }
}

/// Reads a `metal_library!` declaration from the text of its invocation,
/// or reports the first place where it does not follow the grammar.
pub fn read_library(text: &[u8]) -> (library: Result<LibraryDecl, String>)
    ensures
        match lex(text@) {
            None => library matches Err(message) && message@ == "unexpected token"@,
            Some(tokens) => match library_declaration(tokens) {
                Some(model) => library matches Ok(decl) && decl@ == model,
                None => library matches Err(message) && message@ == library_fault(tokens),
            },
        },
{
    let tokens = match tokenize(text) {
        Some(tokens) => tokens,
        None => {
            return Err(String::from_str("unexpected token"));
        },
    };
    match parse_library(tokens.as_slice()) {
        Some(library) => Ok(library),
        None => Err(library_fault_text(tokens.as_slice())),
    }
}

/// Every primitive element word has its Metal spelling: `bool` is `bool`,
/// `u32` is `uint`, `i32` is `int`, `f16` is `half`, `bf16` is `bfloat`,
/// and `f32` and `float` are `float`; any other word has none.
pub proof fn lemma_metal_spellings(element: Seq<u8>)
    ensures
        element == seq![98u8, 111u8, 111u8, 108u8] ==> metal_type(element) == Some(utf8("bool")),
        element == seq![117u8, 51u8, 50u8] ==> metal_type(element) == Some(utf8("uint")),
        element == seq![105u8, 51u8, 50u8] ==> metal_type(element) == Some(utf8("int")),
        element == seq![102u8, 49u8, 54u8] ==> metal_type(element) == Some(utf8("half")),
        element == seq![98u8, 102u8, 49u8, 54u8] ==> metal_type(element) == Some(utf8("bfloat")),
        element == seq![102u8, 51u8, 50u8] ==> metal_type(element) == Some(utf8("float")),
        element == seq![102u8, 108u8, 111u8, 97u8, 116u8] ==> metal_type(element) == Some(utf8("float")),
        !(element == seq![98u8, 111u8, 111u8, 108u8] || element == seq![117u8, 51u8, 50u8] || element == seq![105u8, 51u8, 50u8] || element == seq![102u8, 49u8, 54u8] || element == seq![98u8, 102u8, 49u8, 54u8] || element == seq![102u8, 51u8, 50u8] || element == seq![102u8, 108u8, 111u8, 97u8, 116u8]) ==> metal_type(element) is None,
{
    assert(word_bool() =~= seq![98u8, 111u8, 111u8, 108u8]);
    assert(word_u32() =~= seq![117u8, 51u8, 50u8]);
    assert(word_i32() =~= seq![105u8, 51u8, 50u8]);
    assert(word_f16() =~= seq![102u8, 49u8, 54u8]);
    assert(word_bf16() =~= seq![98u8, 102u8, 49u8, 54u8]);
    assert(word_f32() =~= seq![102u8, 51u8, 50u8]);
    assert(word_float() =~= seq![102u8, 108u8, 111u8, 97u8, 116u8]);
}

/// A buffer whose element is not a dtype template is bound with the Metal
/// spelling of its element word, as listed in [`lemma_metal_spellings`].
pub proof fn lemma_buffer_spellings(templates: Seq<TemplateModel>, buffer: BufferModel)
    requires
        dtype_template(templates, buffer.element) is None,
    ensures
        buffer.element == seq![98u8, 111u8, 111u8, 108u8] ==> buffer_type(templates, buffer) == Some(utf8("bool")),
        buffer.element == seq![117u8, 51u8, 50u8] ==> buffer_type(templates, buffer) == Some(utf8("uint")),
        buffer.element == seq![105u8, 51u8, 50u8] ==> buffer_type(templates, buffer) == Some(utf8("int")),
        buffer.element == seq![102u8, 49u8, 54u8] ==> buffer_type(templates, buffer) == Some(utf8("half")),
        buffer.element == seq![98u8, 102u8, 49u8, 54u8] ==> buffer_type(templates, buffer) == Some(utf8("bfloat")),
        buffer.element == seq![102u8, 51u8, 50u8] ==> buffer_type(templates, buffer) == Some(utf8("float")),
        buffer.element == seq![102u8, 108u8, 111u8, 97u8, 116u8] ==> buffer_type(templates, buffer) == Some(utf8("float")),
{
    lemma_metal_spellings(buffer.element);
}

/// A buffer whose element is not a dtype template requires the dtype that
/// its element word names: `bool` is `Bool`, `u32` is `Uint32`, `i32` is
/// `Int32`, `f16` is `Float16`, `bf16` is `Bfloat16`, `f32` is `Float32`,
/// and `float` accepts any floating-point dtype; a buffer typed by a dtype
/// template requires that template by name.
pub proof fn lemma_buffer_dtypes(templates: Seq<TemplateModel>, buffer: BufferModel)
    ensures
        dtype_template(templates, buffer.element) is None ==> {
            &&& buffer.element == seq![98u8, 111u8, 111u8, 108u8] ==> buffer_dtype(templates, buffer) == BufferDTypeModel::Exact(DType::Bool)
            &&& buffer.element == seq![117u8, 51u8, 50u8] ==> buffer_dtype(templates, buffer) == BufferDTypeModel::Exact(DType::Uint32)
            &&& buffer.element == seq![105u8, 51u8, 50u8] ==> buffer_dtype(templates, buffer) == BufferDTypeModel::Exact(DType::Int32)
            &&& buffer.element == seq![102u8, 49u8, 54u8] ==> buffer_dtype(templates, buffer) == BufferDTypeModel::Exact(DType::Float16)
            &&& buffer.element == seq![98u8, 102u8, 49u8, 54u8] ==> buffer_dtype(templates, buffer) == BufferDTypeModel::Exact(DType::Bfloat16)
            &&& buffer.element == seq![102u8, 51u8, 50u8] ==> buffer_dtype(templates, buffer) == BufferDTypeModel::Exact(DType::Float32)
            &&& buffer.element == seq![102u8, 108u8, 111u8, 97u8, 116u8] ==> buffer_dtype(templates, buffer) == BufferDTypeModel::Float
        },
        dtype_template(templates, buffer.element) is Some ==> buffer_dtype(templates, buffer)
            == BufferDTypeModel::Template(buffer.element),
{
    assert(word_bool() =~= seq![98u8, 111u8, 111u8, 108u8]);
    assert(word_u32() =~= seq![117u8, 51u8, 50u8]);
    assert(word_i32() =~= seq![105u8, 51u8, 50u8]);
    assert(word_f16() =~= seq![102u8, 49u8, 54u8]);
    assert(word_bf16() =~= seq![98u8, 102u8, 49u8, 54u8]);
    assert(word_f32() =~= seq![102u8, 51u8, 50u8]);
    assert(word_float() =~= seq![102u8, 108u8, 111u8, 97u8, 116u8]);
}

/// Buffers whose elements are distinct primitive words get distinct dtype
/// requirements.
pub proof fn lemma_buffer_dtypes_distinct(templates: Seq<TemplateModel>, left: BufferModel, right: BufferModel)
    requires
        dtype_template(templates, left.element) is None,
        dtype_template(templates, right.element) is None,
        is_primitive(left.element),
        is_primitive(right.element),
        left.element != right.element,
    ensures
        buffer_dtype(templates, left) != buffer_dtype(templates, right),
{
    assert(word_bool() =~= seq![98u8, 111u8, 111u8, 108u8]);
    assert(word_u32() =~= seq![117u8, 51u8, 50u8]);
    assert(word_i32() =~= seq![105u8, 51u8, 50u8]);
    assert(word_f16() =~= seq![102u8, 49u8, 54u8]);
    assert(word_bf16() =~= seq![98u8, 102u8, 49u8, 54u8]);
    assert(word_f32() =~= seq![102u8, 51u8, 50u8]);
    assert(word_float() =~= seq![102u8, 108u8, 111u8, 97u8, 116u8]);
}

/// A template's kind is the kind of its default: a dtype default makes a
/// `DType` template, an integer default an `Int` template and a Boolean
/// default a `Bool` template.
pub proof fn lemma_default_kinds(default: TemplateDefaultModel)
    ensures
        default is DType ==> default_kind(default) == TemplateKind::DType,
        default is Int ==> default_kind(default) == TemplateKind::Int,
        default is Bool ==> default_kind(default) == TemplateKind::Bool,
{
}

/// A buffer passes the contract check exactly when its element is one of
/// `bool`, `u32`, `i32`, `f16`, `bf16`, `f32` and `float`, or names a
/// declared dtype template.
pub proof fn lemma_buffer_contract(templates: Seq<TemplateModel>, buffer: BufferModel)
    ensures
        buffer_ok(templates, buffer) <==> (buffer.element == seq![98u8, 111u8, 111u8, 108u8] || buffer.element == seq![117u8, 51u8, 50u8] || buffer.element == seq![105u8, 51u8, 50u8] || buffer.element == seq![102u8, 49u8, 54u8] || buffer.element == seq![98u8, 102u8, 49u8, 54u8] || buffer.element == seq![102u8, 51u8, 50u8] || buffer.element == seq![102u8, 108u8, 111u8, 97u8, 116u8]
            || dtype_template(templates, buffer.element) is Some),
{
    assert(word_bool() =~= seq![98u8, 111u8, 111u8, 108u8]);
    assert(word_u32() =~= seq![117u8, 51u8, 50u8]);
    assert(word_i32() =~= seq![105u8, 51u8, 50u8]);
    assert(word_f16() =~= seq![102u8, 49u8, 54u8]);
    assert(word_bf16() =~= seq![98u8, 102u8, 49u8, 54u8]);
    assert(word_f32() =~= seq![102u8, 51u8, 50u8]);
    assert(word_float() =~= seq![102u8, 108u8, 111u8, 97u8, 116u8]);
}

/// A kernel's buffer contract is accepted exactly when it declares at least
/// one input and one output and every buffer's element is one of `bool`,
/// `u32`, `i32`, `f16`, `bf16`, `f32` and `float` or a declared dtype
/// template.
pub proof fn lemma_contract_accepted(kernel: KernelModel)
    ensures
        contract_fault(kernel) is None <==> {
            &&& kernel.inputs.len() >= 1
            &&& kernel.outputs.len() >= 1
            &&& forall|index: int| 0 <= index < kernel.inputs.len() ==> #[trigger] buffer_ok(kernel.templates, kernel.inputs[index])
            &&& forall|index: int| 0 <= index < kernel.outputs.len() ==> #[trigger] buffer_ok(kernel.templates, kernel.outputs[index])
        },
        kernel.inputs.len() == 0 || kernel.outputs.len() == 0 ==> contract_fault(kernel) == Some(
            "kernel requires inputs and outputs"@,
        ),
{
}

/// A Boolean template default is defined as `true` or `false`, and an
/// integer default is defined with a leading `-` exactly when it is
/// negated.
pub proof fn lemma_template_values(value: bool, negative: bool, literal: Seq<u8>)
    ensures
        template_value(TemplateDefaultModel::Bool(value)) == Some(
            if value {
                utf8("true")
            } else {
                utf8("false")
            },
        ),
        integer_text(literal) matches Some(digits) ==> template_value(
            TemplateDefaultModel::Int(negative, literal),
        ) == Some(
            if negative {
                utf8("-") + digits
            } else {
                digits
            },
        ),
{
    if let Some(digits) = integer_text(literal) {
        assert(Seq::<u8>::empty() + digits =~= digits);
    }
}

} // verus!
