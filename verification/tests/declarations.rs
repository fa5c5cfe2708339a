use mirtal::dsl::compiled::{
    ArrayType, GenericArgument, GraphSignature, Output, Parameter, PathSegment, compile_options,
    input_count, output_count, plan_compiled,
};
use mirtal::dsl::expand::{
    BufferDType, find_dtype_template, plan_kernel, read_kernel, read_library, validate_contract,
    validation_source,
};
use mirtal::dsl::lexer::{Token, tokenize};
use mirtal::dsl::model::{SourceDecl, TemplateDefault, Visibility};
use mirtal::{DType, TemplateKind};

const DOUBLE: &str = r#"fn double {
    name: "double_f32",
    templates: [],
    inputs: [input: f32],
    outputs: [output: f32],
    source: inline r"
        uint index = thread_position_in_grid.x;
        output[index] = input[index] * 2.0f;
    ",
    header: inline "",
    row_contiguous: true,
    atomic_outputs: false,
}"#;

const SUM_THREE: &str = r##"pub(crate) fn sum_three {
    name: "mirtal_bench_sum_three",
    templates: [T: dtype = f32, WIDTH: int = 0_02],
    inputs: [first: T, second: f32, third: scalar<u32>],
    outputs: [output: T],
    source: file "kernels/sum.metal",
    header: inline "#define SCALE 2\n",
    row_contiguous: true,
    atomic_outputs: false,
}"##;

fn text(bytes: &[u8]) -> String {
    String::from_utf8(bytes.to_vec()).unwrap()
}

#[test]
fn tokenizes_identifiers_punctuation_literals_and_numbers() {
    let tokens = tokenize(br#"name: "a\tb", 0x1F"#).unwrap();
    assert_eq!(
        tokens,
        vec![
            Token::Ident(b"name".to_vec()),
            Token::Punct(b':'),
            Token::Literal(b"a\tb".to_vec()),
            Token::Punct(b','),
            Token::Number(b"0x1F".to_vec()),
        ]
    );
    assert_eq!(tokenize(b"r#\"raw \" text\"#").unwrap(), vec![Token::Literal(b"raw \" text".to_vec())]);
    assert!(tokenize(b"\"unterminated").is_none());
}

#[test]
fn reads_a_kernel_declaration() {
    let kernel = read_kernel(DOUBLE.as_bytes()).unwrap();
    assert_eq!(kernel.visibility, Visibility::Inherited);
    assert_eq!(text(&kernel.function), "double");
    assert_eq!(text(&kernel.name), "double_f32");
    assert!(kernel.templates.is_empty());
    assert_eq!(kernel.inputs.len(), 1);
    assert_eq!(text(&kernel.inputs[0].name), "input");
    assert_eq!(text(&kernel.inputs[0].element), "f32");
    assert!(!kernel.inputs[0].scalar);
    assert_eq!(text(&kernel.outputs[0].name), "output");
    match &kernel.source {
        SourceDecl::Inline(code) => assert!(text(code).contains("output[index] = input[index] * 2.0f;")),
        SourceDecl::File(_) => panic!("inline source read as a file"),
    }
    assert_eq!(kernel.header, SourceDecl::Inline(Vec::new()));
    assert!(kernel.row_contiguous);
    assert!(!kernel.atomic_outputs);
}

#[test]
fn reads_templates_scalars_files_and_visibility() {
    let kernel = read_kernel(SUM_THREE.as_bytes()).unwrap();
    assert_eq!(kernel.visibility, Visibility::Crate);
    assert_eq!(kernel.templates.len(), 2);
    assert_eq!(text(&kernel.templates[0].name), "T");
    assert_eq!(kernel.templates[0].default, TemplateDefault::DType(b"f32".to_vec()));
    assert_eq!(
        kernel.templates[1].default,
        TemplateDefault::Int { negative: false, literal: b"0_02".to_vec() }
    );
    assert!(kernel.inputs[2].scalar);
    assert_eq!(text(&kernel.inputs[2].element), "u32");
    assert_eq!(kernel.source, SourceDecl::File(b"kernels/sum.metal".to_vec()));
    assert_eq!(kernel.header, SourceDecl::Inline(b"#define SCALE 2\n".to_vec()));
    assert_eq!(find_dtype_template(&kernel.templates, b"T"), Some(b"f32".to_vec()));
    assert_eq!(find_dtype_template(&kernel.templates, b"WIDTH"), None);
}

#[test]
fn rejects_malformed_kernel_declarations() {
    let message = |text: &str| read_kernel(text.as_bytes()).err();
    assert_eq!(message("fn broken { name: \"x\" }"), Some(String::from("expected `,`")));
    let reordered = DOUBLE.replace("templates: [],\n    inputs", "inputs");
    assert_eq!(message(&reordered), Some(String::from("expected `templates`")));
    let bad_kind = SUM_THREE.replace("WIDTH: int", "WIDTH: long");
    assert_eq!(message(&bad_kind), Some(String::from("expected `dtype`, `int`, or `bool`")));
    let bad_source = DOUBLE.replace("source: inline", "source: embedded");
    assert_eq!(message(&bad_source), Some(String::from("expected `inline` or `file`")));
    let no_literal = DOUBLE.replace("header: inline \"\"", "header: inline 3");
    assert_eq!(message(&no_literal), Some(String::from("expected string literal")));
    let keyword = DOUBLE.replace("input: f32]", "input: f32, type: f32]");
    assert_eq!(message(&keyword), Some(String::from("expected identifier, found keyword `type`")));
    let colon = DOUBLE.replace("name:", "name =");
    assert_eq!(message(&colon), Some(String::from("expected `:`")));
    let unbracketed = DOUBLE.replace("inputs: [input: f32]", "inputs: input");
    assert_eq!(message(&unbracketed), Some(String::from("expected square brackets")));
    let scalar = DOUBLE.replace("input: f32", "input: scalar f32");
    assert_eq!(message(&scalar), Some(String::from("expected `<`")));
    let flag = DOUBLE.replace("row_contiguous: true", "row_contiguous: yes");
    assert_eq!(message(&flag), Some(String::from("expected boolean literal")));
    let trailing = DOUBLE.replace("atomic_outputs: false,", "atomic_outputs: false, extra");
    assert_eq!(message(&trailing), Some(String::from("unexpected token")));
    assert_eq!(message("struct double {}"), Some(String::from("expected `fn`")));
    let integer = SUM_THREE.replace("WIDTH: int = 0_02", "WIDTH: int = true");
    assert_eq!(message(&integer), Some(String::from("expected integer literal")));
}

#[test]
fn reads_a_library_declaration() {
    let library = read_library(
        br#"pub fn copy_library { name: "mirtal_test_copy", source: file "tests/kernels/copy.metal", }"#,
    )
    .unwrap();
    assert_eq!(library.visibility, Visibility::Public);
    assert_eq!(text(&library.function), "copy_library");
    assert_eq!(text(&library.name), "mirtal_test_copy");
    assert_eq!(library.source, SourceDecl::File(b"tests/kernels/copy.metal".to_vec()));
    assert_eq!(
        read_library(br#"fn copy { name: "c", source: inline "x", extra: 1 }"#).err(),
        Some(String::from("unexpected token"))
    );
    assert_eq!(
        read_library(br#"fn copy { name: "c", code: inline "x" }"#).err(),
        Some(String::from("expected `source`"))
    );
}

#[test]
fn plans_the_checked_kernel_contract() {
    let kernel = read_kernel(SUM_THREE.as_bytes()).unwrap();
    let plan = plan_kernel(&kernel).unwrap();
    assert_eq!(
        plan.input_dtypes,
        vec![
            BufferDType::Template(b"T".to_vec()),
            BufferDType::Exact(DType::Float32),
            BufferDType::Exact(DType::Uint32),
        ]
    );
    assert_eq!(plan.output_dtypes, vec![BufferDType::Template(b"T".to_vec())]);
    assert_eq!(plan.template_kinds, vec![TemplateKind::DType, TemplateKind::Int]);
    let generic = read_kernel(DOUBLE.replace("input: f32", "input: float").as_bytes()).unwrap();
    assert_eq!(plan_kernel(&generic).unwrap().input_dtypes, vec![BufferDType::Float]);
}

#[test]
fn rejects_kernels_without_buffers_or_with_unknown_types() {
    let no_outputs = read_kernel(DOUBLE.replace("outputs: [output: f32]", "outputs: []").as_bytes()).unwrap();
    assert_eq!(validate_contract(&no_outputs), Err(String::from("kernel requires inputs and outputs")));
    let unknown = read_kernel(DOUBLE.replace("input: f32", "input: u8").as_bytes()).unwrap();
    assert_eq!(
        plan_kernel(&unknown).err(),
        Some(String::from("buffer type must be a primitive dtype or declared dtype template"))
    );
    assert_eq!(validate_contract(&read_kernel(DOUBLE.as_bytes()).unwrap()), Ok(()));
}

#[test]
fn builds_the_validation_translation_unit() {
    let kernel = read_kernel(SUM_THREE.as_bytes()).unwrap();
    let unit = validation_source(&kernel, b"output[0] = first[0];", b"#define SCALE 2\n").unwrap();
    let expected = "#include <metal_stdlib>\nusing namespace metal;\n\
#define T float\n#define WIDTH 2\n\n#define SCALE 2\n\n\
kernel void __mirtal_validate(\n\
const device float* first [[buffer(0)]],\n\
const device float* second [[buffer(1)]],\n\
constant uint& third [[buffer(2)]],\n\
device float* output [[buffer(3)]],\n\
uint3 thread_position_in_grid [[thread_position_in_grid]],\n\
uint3 thread_position_in_threadgroup [[thread_position_in_threadgroup]],\n\
uint3 threadgroup_position_in_grid [[threadgroup_position_in_grid]],\n\
uint3 threads_per_threadgroup [[threads_per_threadgroup]],\n\
uint thread_index_in_threadgroup [[thread_index_in_threadgroup]],\n\
uint thread_index_in_simdgroup [[thread_index_in_simdgroup]],\n\
uint simdgroup_index_in_threadgroup [[simdgroup_index_in_threadgroup]]\n\
) {\noutput[0] = first[0];\n}\n";
    assert_eq!(text(&unit), expected);
}

#[test]
fn validation_unit_spells_negative_and_boolean_defaults() {
    let declaration = SUM_THREE
        .replace("WIDTH: int = 0_02", "WIDTH: int = -10, FAST: bool = true")
        .replace("T: dtype = f32", "T: dtype = bf16");
    let kernel = read_kernel(declaration.as_bytes()).unwrap();
    let unit = text(&validation_source(&kernel, b"", b"").unwrap());
    assert!(unit.contains("#define T bfloat\n#define WIDTH -10\n#define FAST true\n"));
    assert!(unit.contains("const device bfloat* first [[buffer(0)]]"));
}

#[test]
fn rejects_a_dtype_template_without_a_metal_type() {
    let kernel = read_kernel(SUM_THREE.replace("T: dtype = f32", "T: dtype = u8").as_bytes()).unwrap();
    assert!(plan_kernel(&kernel).is_ok());
    assert_eq!(validation_source(&kernel, b"", b""), Err(String::from("unsupported Metal type")));
}

#[test]
fn compiled_attribute_accepts_only_shapeless() {
    assert_eq!(compile_options(b""), Ok(false));
    assert_eq!(compile_options(b"shapeless"), Ok(true));
    assert_eq!(compile_options(b"  shapeless "), Ok(true));
    assert_eq!(compile_options(b"fast"), Err(String::from("expected `shapeless` or no option")));
    assert_eq!(compile_options(b"shapeless, fast"), Err(String::from("unexpected token")));
    assert_eq!(compile_options(b"fn"), Err(String::from("expected identifier, found keyword `fn`")));
    assert_eq!(compile_options(b"Self x"), Err(String::from("expected identifier, found keyword `Self`")));
    assert_eq!(compile_options(b"\"text\""), Err(String::from("expected identifier")));
    for attribute in ["shapeless, fast", "fn", "Self x", "\"text\"", "_", "fast"] {
        if let Err(error) = syn::parse_str::<syn::Ident>(attribute) {
            assert_eq!(compile_options(attribute.as_bytes()), Err(error.to_string()), "attribute {attribute}");
        }
    }
}

fn graph_signature(parameters: Vec<Parameter>, output: Output) -> GraphSignature {
    GraphSignature { name: b"zero_gate".to_vec(), parameters, output }
}

fn result_of(argument: GenericArgument) -> Output {
    Output::Path(vec![PathSegment { angle_bracketed: true, arguments: vec![argument] }])
}

#[test]
fn compiled_attribute_generates_a_typed_factory() {
    let signature = graph_signature(
        vec![Parameter::Typed(ArrayType::Other), Parameter::Typed(ArrayType::Array(b"2".to_vec()))],
        result_of(GenericArgument::Type(ArrayType::Array(b"1".to_vec()))),
    );
    let plan = plan_compiled(b"shapeless", &signature).unwrap();
    assert_eq!(text(&plan.factory), "compile_zero_gate");
    assert!(plan.shapeless);
    assert_eq!(text(&plan.inputs), "2");
    assert_eq!(text(&plan.outputs), "1");
}

#[test]
fn compiled_signature_errors_name_the_faulty_part() {
    let array = |n: &[u8]| Parameter::Typed(ArrayType::Array(n.to_vec()));
    let good_output = result_of(GenericArgument::Type(ArrayType::Array(b"1".to_vec())));
    assert_eq!(
        input_count(&graph_signature(vec![array(b"2")], good_output.clone())),
        Err(String::from("compiled graph requires Graph and [Array; N] arguments"))
    );
    assert_eq!(
        input_count(&graph_signature(vec![Parameter::Receiver, Parameter::Receiver], good_output.clone())),
        Err(String::from("self is not supported"))
    );
    assert_eq!(
        input_count(&graph_signature(vec![array(b"N"), Parameter::Typed(ArrayType::Other)], good_output.clone())),
        Err(String::from("expected [Array; N]"))
    );
    let inputs = vec![Parameter::Typed(ArrayType::Other), array(b"N")];
    assert_eq!(input_count(&graph_signature(inputs.clone(), good_output)), Ok(b"N".to_vec()));
    let cases = [
        (Output::Unit, "missing Result output"),
        (Output::Other, "expected Result<[Array; N]>"),
        (Output::Path(Vec::new()), "empty Result path"),
        (
            Output::Path(vec![PathSegment { angle_bracketed: false, arguments: Vec::new() }]),
            "expected Result<[Array; N]>",
        ),
        (
            Output::Path(vec![PathSegment { angle_bracketed: true, arguments: Vec::new() }]),
            "Result has no output",
        ),
        (result_of(GenericArgument::Other), "expected array output"),
        (result_of(GenericArgument::Type(ArrayType::Other)), "expected [Array; N]"),
    ];
    for (output, message) in cases {
        assert_eq!(output_count(&graph_signature(inputs.clone(), output)), Err(String::from(message)));
    }
    let signature = graph_signature(inputs, Output::Unit);
    assert_eq!(plan_compiled(b"x y", &signature).err(), Some(String::from("unexpected token")));
    assert_eq!(plan_compiled(b"fast", &signature).err(), Some(String::from("expected `shapeless` or no option")));
    assert_eq!(plan_compiled(b"", &signature).err(), Some(String::from("missing Result output")));
}

#[test]
fn reads_the_rendering_of_the_macro_input_tokens() {
    for declaration in [DOUBLE, SUM_THREE] {
        let tokens: proc_macro2::TokenStream = declaration.parse().unwrap();
        let rendered = tokens.to_string();
        assert_eq!(read_kernel(rendered.as_bytes()), read_kernel(declaration.as_bytes()));
        assert!(read_kernel(rendered.as_bytes()).is_ok());
    }
}

#[test]
fn string_literals_decode_as_rust_does() {
    for literal in [
        r#""plain""#,
        r#""tab\tnew\nline\\ quote\" nul\0""#,
        r#""hex \x41\x7e unicode \u{1F600} \u{e9}""#,
        "\"continued \\\n      line\"",
        r###"r#"raw "quoted" \n text"#"###,
        r#"r"raw""#,
    ] {
        let expected = syn::parse_str::<syn::LitStr>(literal).unwrap().value();
        let tokens = tokenize(literal.as_bytes()).unwrap();
        assert_eq!(tokens, vec![Token::Literal(expected.into_bytes())], "literal {literal}");
    }
}

#[test]
fn integer_defaults_are_spelled_in_base_ten_as_syn_spells_them() {
    for literal in [
        "2", "0_02", "1_000", "000", "42u32", "-7", "0x1F", "0xff_FFu32", "0o17", "0b1010",
        "-0x10", "0b1a", "0X1F", "0xffffffffffffffffffffffffffffffff",
    ] {
        let expected = syn::parse_str::<syn::LitInt>(literal)
            .map(|value| value.base10_digits().to_string())
            .unwrap_or_else(|_| {
                let inner = syn::parse_str::<syn::LitInt>(&literal[1..]).unwrap();
                format!("-{}", inner.base10_digits())
            });
        let declaration = SUM_THREE.replace("WIDTH: int = 0_02", &format!("WIDTH: int = {literal}"));
        let kernel = read_kernel(declaration.as_bytes()).unwrap();
        let unit = text(&validation_source(&kernel, b"", b"").unwrap());
        assert!(unit.contains(&format!("#define WIDTH {expected}\n")), "literal {literal}: {unit}");
    }
}

#[test]
fn rejects_integer_defaults_that_are_not_integer_literals() {
    for literal in ["0b102", "0o8", "0x", "0b_", "1e3", "0xg"] {
        assert!(syn::parse_str::<syn::LitInt>(literal).is_err(), "syn accepts {literal}");
        let declaration = SUM_THREE.replace("WIDTH: int = 0_02", &format!("WIDTH: int = {literal}"));
        assert!(read_kernel(declaration.as_bytes()).is_err(), "literal {literal}");
    }
}
