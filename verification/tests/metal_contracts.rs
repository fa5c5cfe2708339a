use mirtal::metal::{
    TensorLabel, native_dimensions, native_grid, template_dtype, template_kind, validate,
    validate_templates,
};
use mirtal::{
    AliasingDispatch, DType, DTypeConstraint, Dispatch, Error, KernelDescriptor, MetalKernel,
    MetalLibrary, MetalLibraryDescriptor, MetalSource, OutputSpec, PreparedAliasing, Shape,
    StrideBinding, TemplateArg, TemplateKind, TemplateParameter, TemplateValue,
};

fn dispatch_message<T: std::fmt::Debug>(result: mirtal::Result<T>) -> String {
    match result {
        Err(Error::InvalidDispatch(message)) => message,
        other => panic!("expected an invalid dispatch, got {other:?}"),
    }
}

fn kernel_message<T: std::fmt::Debug>(result: mirtal::Result<T>) -> String {
    match result {
        Err(Error::InvalidKernel(message)) => message,
        other => panic!("expected an invalid kernel, got {other:?}"),
    }
}

const SUM_TEMPLATES: &[TemplateParameter] = &[
    TemplateParameter { name: "T", kind: TemplateKind::DType },
    TemplateParameter { name: "WIDTH", kind: TemplateKind::Int },
];

fn sum_three() -> MetalKernel<3, 1> {
    MetalKernel::new(KernelDescriptor {
        name: "mirtal_bench_sum_three",
        input_names: ["first", "second", "third"],
        input_dtypes: [
            DTypeConstraint::Template("T"),
            DTypeConstraint::Exact(DType::Float32),
            DTypeConstraint::Exact(DType::Float32),
        ],
        output_names: ["output"],
        output_dtypes: [DTypeConstraint::Template("T")],
        templates: SUM_TEMPLATES,
        source: MetalSource::new("output[0] = first[0];", "<inline metal macro>"),
        header: MetalSource::empty(),
        row_contiguous: true,
        atomic_outputs: false,
    })
    .unwrap()
}

fn inline_double() -> MetalKernel<1, 1> {
    MetalKernel::new(KernelDescriptor {
        name: "inline_double",
        input_names: ["input"],
        input_dtypes: [DTypeConstraint::Exact(DType::Float32)],
        output_names: ["output"],
        output_dtypes: [DTypeConstraint::Exact(DType::Float32)],
        templates: &[],
        source: MetalSource::new(
            "uint index = thread_position_in_grid.x;\noutput[index] = input[index] * 2.0f;",
            "<inline metal macro>",
        ),
        header: MetalSource::empty(),
        row_contiguous: true,
        atomic_outputs: false,
    })
    .unwrap()
}

fn copy_library() -> MetalLibrary {
    MetalLibrary::new(MetalLibraryDescriptor {
        name: "mirtal_test_copy",
        source: MetalSource::new("kernel void copy_f32() {}", "tests/kernels/copy.metal"),
    })
    .unwrap()
}

#[test]
fn rejects_metal_dispatch_with_an_undeclared_dtype() {
    let outputs = [OutputSpec::new(Shape::new(vec![1]).unwrap(), DType::Float32)];
    let dispatch = Dispatch::new([1, 1, 1], [1, 1, 1]);
    let message = dispatch_message(inline_double().validate_dispatch([DType::Uint32], &outputs, &dispatch));
    assert!(message.contains("declared Float32"));
    assert_eq!(message, "inline_double input 0 dtype Uint32 does not match declared Float32");
}

#[test]
fn prepared_kernel_checks_inputs_against_its_templates() {
    let kernel = sum_three();
    let outputs = [OutputSpec::new(Shape::new(vec![2]).unwrap(), DType::Float32)];
    let dispatch = Dispatch::new([2, 1, 1], [2, 1, 1])
        .templates(vec![TemplateArg::dtype("T", DType::Float32), TemplateArg::integer("WIDTH", 2)]);
    let prepared = kernel.prepare(&outputs, &dispatch).unwrap();
    assert!(prepared.check_inputs([DType::Float32; 3]).is_ok());
    let plan = prepared.launch();
    assert_eq!(plan.grid, [2, 1, 1]);
    assert_eq!(plan.threadgroup, [2, 1, 1]);
    assert_eq!(plan.outputs.len(), 1);
    assert_eq!(plan.outputs[0].shape, vec![2]);
    assert_eq!(plan.outputs[0].dtype, DType::Float32.code());
    assert_eq!(plan.templates.len(), 2);
    assert_eq!(plan.init_value, None);
    assert!(!plan.verbose);
    assert_eq!(
        dispatch_message(prepared.check_inputs([DType::Float16, DType::Float32, DType::Float32])),
        "mirtal_bench_sum_three input 0 dtype Float16 does not match declared Float32"
    );
}

#[test]
fn template_arguments_must_match_the_declared_parameters() {
    let kernel = sum_three();
    let outputs = [OutputSpec::new(Shape::new(vec![2]).unwrap(), DType::Float32)];
    let missing = Dispatch::new([2, 1, 1], [2, 1, 1]).templates(vec![TemplateArg::dtype("T", DType::Float32)]);
    assert_eq!(
        dispatch_message(kernel.validate_plan(&outputs, &missing)),
        "mirtal_bench_sum_three expects 2 template arguments, received 1"
    );
    let twice = Dispatch::new([2, 1, 1], [2, 1, 1])
        .templates(vec![TemplateArg::dtype("T", DType::Float32), TemplateArg::dtype("T", DType::Float16)]);
    assert_eq!(
        dispatch_message(kernel.validate_plan(&outputs, &twice)),
        "mirtal_bench_sum_three requires exactly one `T` template argument"
    );
    let wrong_kind = Dispatch::new([2, 1, 1], [2, 1, 1])
        .templates(vec![TemplateArg::dtype("T", DType::Float32), TemplateArg::bool("WIDTH", true)]);
    assert_eq!(
        dispatch_message(kernel.validate_plan(&outputs, &wrong_kind)),
        "mirtal_bench_sum_three template `WIDTH` has the wrong kind"
    );
}

#[test]
fn validate_templates_reports_the_first_faulty_parameter() {
    assert!(validate_templates("k", &[], &[]).is_ok());
    let arguments = [TemplateArg::integer("N", 1), TemplateArg::integer("M", 2)];
    let parameters = [
        TemplateParameter { name: "M", kind: TemplateKind::Int },
        TemplateParameter { name: "N", kind: TemplateKind::Int },
    ];
    assert!(validate_templates("k", &parameters, &arguments).is_ok());
    let parameters = [
        TemplateParameter { name: "X", kind: TemplateKind::Int },
        TemplateParameter { name: "N", kind: TemplateKind::Bool },
    ];
    assert_eq!(
        dispatch_message(validate_templates("k", &parameters, &arguments)),
        "k requires exactly one `X` template argument"
    );
}

#[test]
fn output_dtype_must_follow_its_template() {
    let kernel = sum_three();
    let outputs = [OutputSpec::new(Shape::new(vec![2]).unwrap(), DType::Float16)];
    let dispatch = Dispatch::new([2, 1, 1], [2, 1, 1])
        .templates(vec![TemplateArg::dtype("T", DType::Float32), TemplateArg::integer("WIDTH", 2)]);
    assert_eq!(
        dispatch_message(kernel.validate_plan(&outputs, &dispatch)),
        "mirtal_bench_sum_three output 0 dtype Float16 does not match declared Float32"
    );
}

#[test]
fn float_constraint_and_missing_dtype_template() {
    assert!(template_dtype("T", &[TemplateArg::integer("T", 1)]).is_err());
    assert_eq!(
        dispatch_message(template_dtype("T", &[TemplateArg::integer("T", 1)])),
        "missing dtype template `T`"
    );
    assert_eq!(
        template_dtype("T", &[TemplateArg::integer("T", 1), TemplateArg::dtype("T", DType::Bfloat16)]).unwrap(),
        DType::Bfloat16
    );
    assert_eq!(
        dispatch_message(mirtal::metal::validate_dtype(
            "k",
            TensorLabel::Output(1),
            DType::Int32,
            DTypeConstraint::Float,
            &[]
        )),
        "k output 1 dtype Int32 is not floating point"
    );
    assert!(mirtal::metal::validate_dtype("k", TensorLabel::Input(0), DType::Float16, DTypeConstraint::Float, &[]).is_ok());
    assert_eq!(template_kind(TemplateValue::Bool(false)), TemplateKind::Bool);
    assert_eq!(template_kind(TemplateValue::Int(3)), TemplateKind::Int);
}

#[test]
fn kernel_descriptor_fields_must_be_present() {
    let result = MetalKernel::<1, 1>::new(KernelDescriptor {
        name: "broken",
        input_names: ["in\u{1f}put"],
        input_dtypes: [DTypeConstraint::Float],
        output_names: ["output"],
        output_dtypes: [DTypeConstraint::Float],
        templates: &[],
        source: MetalSource::new("output[0] = 1;", "<inline metal macro>"),
        header: MetalSource::empty(),
        row_contiguous: false,
        atomic_outputs: false,
    });
    assert_eq!(kernel_message(result), "broken from <inline metal macro> contains an empty or reserved field");
    let result = MetalKernel::<1, 1>::new(KernelDescriptor {
        name: "empty_source",
        input_names: ["input"],
        input_dtypes: [DTypeConstraint::Float],
        output_names: ["output"],
        output_dtypes: [DTypeConstraint::Float],
        templates: &[],
        source: MetalSource::new("", "kernels/empty.metal"),
        header: MetalSource::empty(),
        row_contiguous: false,
        atomic_outputs: false,
    });
    assert_eq!(kernel_message(result), "empty_source from kernels/empty.metal contains an empty or reserved field");
}

#[test]
fn launch_geometry_must_be_positive_and_native() {
    assert_eq!(native_dimensions([2, 3, 4]).unwrap(), [2, 3, 4]);
    assert_eq!(
        dispatch_message(native_dimensions([2, 0, 4])),
        "grid and threadgroup dimensions must be positive"
    );
    assert!(matches!(native_dimensions([1usize << 31, 1, 1]), Err(Error::Integer(_))));
    let kernel = inline_double();
    let outputs = [OutputSpec::new(Shape::new(vec![2]).unwrap(), DType::Float32)];
    let dispatch = Dispatch::new([2, 1, 1], [0, 1, 1]);
    assert_eq!(
        dispatch_message(kernel.plan_dispatch([DType::Float32], &outputs, &dispatch)),
        "grid and threadgroup dimensions must be positive"
    );
    let plan = kernel
        .plan_dispatch([DType::Float32], &outputs, &Dispatch::new([2, 1, 1], [2, 1, 1]).init_value(0).verbose(true))
        .unwrap();
    assert_eq!(plan.init_value, Some(0));
    assert!(plan.verbose);
}

#[test]
fn source_accessors_return_what_was_given() {
    let source = MetalSource::new("code", "origin");
    assert_eq!(source.code(), "code");
    assert_eq!(source.origin(), "origin");
    assert_eq!(MetalSource::empty().code(), "");
    assert_eq!(MetalSource::empty().origin(), "<empty>");
}

#[test]
fn library_requires_a_name_and_source() {
    let result = MetalLibrary::new(MetalLibraryDescriptor {
        name: "",
        source: MetalSource::new("kernel void f() {}", "<inline Metal library>"),
    });
    assert_eq!(kernel_message(result), "Metal library from <inline Metal library> has an empty name or source");
    let library = copy_library();
    assert_eq!(kernel_message(library.export(String::new())), "Metal export name is empty");
    let function = library.export(String::from("copy")).unwrap();
    assert_eq!(function.name(), "copy");
    let suffixed = function.with_dtype_suffix(DType::Bfloat16).unwrap();
    assert_eq!(suffixed.name(), "copy_bf16");
    let function = library.export(String::from("copy")).unwrap();
    assert_eq!(kernel_message(function.with_dtype_suffix(DType::Int32)), "no Metal suffix for Int32");
}

#[test]
fn aliasing_dispatch_builders_accumulate() {
    let dispatch = AliasingDispatch::new(vec![1])
        .constants(vec![4])
        .constants(vec![5, 6])
        .strides(vec![StrideBinding { input: 0, axis: 1 }])
        .grid([2, 1, 1])
        .threadgroup([2, 1, 1]);
    assert_eq!(dispatch.output_aliases, vec![1]);
    assert_eq!(dispatch.constants, vec![4, 5, 6]);
    assert_eq!(dispatch.stride_inputs, vec![0]);
    assert_eq!(dispatch.stride_axes, vec![1]);
    assert_eq!(dispatch.grid, [2, 1, 1]);
    assert!(validate(2, &dispatch).is_ok());
    assert_eq!(dispatch_message(validate(1, &dispatch)), "invalid aliasing Metal dispatch");
    assert_eq!(dispatch_message(validate(2, &AliasingDispatch::new(Vec::new()))), "invalid aliasing Metal dispatch");
    assert_eq!(
        dispatch_message(validate(2, &AliasingDispatch::new(vec![0]).grid([0, 1, 1]))),
        "invalid aliasing Metal dispatch"
    );
    assert_eq!(native_grid([3, 2, 1]).unwrap(), [3, 2, 1]);
    assert!(matches!(native_grid([1usize << 32, 1, 1]), Err(Error::Integer(_))));
}

#[test]
fn rebinds_an_aliasing_dispatch_without_rebuilding_its_storage() {
    let library = copy_library();
    let function = library.export(String::from("copy_f32")).unwrap();
    let mut dispatch = AliasingDispatch::new(vec![1]).grid([2, 1, 1]).threadgroup([2, 1, 1]);
    let (grid, group) = function.check_aliasing(2, &dispatch).unwrap();
    assert_eq!(grid, [2, 1, 1]);
    assert_eq!(group, [2, 1, 1]);

    dispatch.rebind(&[], [1, 1, 1], [1, 1, 1]).unwrap();
    assert_eq!(dispatch.grid, [1, 1, 1]);
    assert!(function.check_aliasing(2, &dispatch).is_ok());
    assert!(matches!(
        dispatch.rebind(&[1], [1, 1, 1], [1, 1, 1]),
        Err(Error::InvalidDispatch(_))
    ));
    assert_eq!(dispatch.grid, [1, 1, 1]);
}

#[test]
fn prepares_static_aliasing_state_and_reuses_native_inputs() {
    let library = copy_library();
    let dispatch = AliasingDispatch::new(vec![1]).grid([2, 1, 1]).threadgroup([2, 1, 1]);
    let mut prepared: PreparedAliasing<2, 1> =
        library.export(String::from("copy_f32")).unwrap().prepare_aliasing(dispatch).unwrap();
    assert_eq!(prepared.geometry().unwrap(), ([2, 1, 1], [2, 1, 1]));
    prepared.rebind(&[], [2, 1, 1], [2, 1, 1]).unwrap();
    assert_eq!(prepared.geometry().unwrap(), ([2, 1, 1], [2, 1, 1]));
    assert_eq!(
        dispatch_message(prepared.rebind(&[7], [4, 1, 1], [4, 1, 1])),
        "rebound Metal constants changed arity"
    );
    assert_eq!(prepared.geometry().unwrap(), ([2, 1, 1], [2, 1, 1]));
}

#[test]
fn prepared_aliasing_checks_its_output_arity() {
    let library = copy_library();
    let function = library.export(String::from("copy_f32")).unwrap();
    let result: mirtal::Result<PreparedAliasing<2, 2>> =
        function.prepare_aliasing(AliasingDispatch::new(vec![1]));
    assert!(matches!(
        result,
        Err(Error::Arity { operation: "prepared aliasing outputs", expected: 2, actual: 1 })
    ));
    let result: mirtal::Result<PreparedAliasing<1, 1>> =
        function.prepare_aliasing(AliasingDispatch::new(vec![1]));
    assert_eq!(dispatch_message(result), "invalid aliasing Metal dispatch");
}
