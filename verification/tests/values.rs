use mirtal::ops::{check_conv1d, check_repeat, dimensions, require_inputs, slice_bounds, slice_update_bounds};
use mirtal::rope::{FrequencyRopeOptions, dimensions as rope_dimensions};
use mirtal::{
    CompileOptions, DType, Device, DeviceKind, Error, GatherQmmOptions, Quantization, Shape,
    check_arity, check_stream, native_options,
};

#[test]
fn shape_elements_are_the_product_of_its_dimensions() {
    let shape = Shape::new(vec![2, 3, 4]).unwrap();
    assert_eq!(shape.elements().unwrap(), 24);
    assert_eq!(shape.dimensions(), &[2, 3, 4]);
    assert_eq!(shape.native().unwrap(), vec![2, 3, 4]);
}

#[test]
fn empty_shape_is_a_scalar_with_one_element() {
    let shape = Shape::new(Vec::new()).unwrap();
    assert_eq!(shape.elements().unwrap(), 1);
    assert!(shape.dimensions().is_empty());
}

#[test]
fn shape_with_a_zero_dimension_has_no_elements() {
    let shape = Shape::new(vec![5, 0, 7]).unwrap();
    assert_eq!(shape.elements().unwrap(), 0);
}

#[test]
fn shape_whose_element_count_overflows_is_rejected() {
    assert!(matches!(Shape::new(vec![usize::MAX, 2]), Err(Error::ShapeOverflow)));
    assert!(matches!(Shape::new(vec![2, usize::MAX / 2 + 1]), Err(Error::ShapeOverflow)));
}

#[test]
fn shape_with_an_overflowing_prefix_but_no_elements_is_accepted() {
    let shape = Shape::new(vec![usize::MAX, 2, 0]).unwrap();
    assert_eq!(shape.elements().unwrap(), 0);
    assert_eq!(shape.dimensions(), &[usize::MAX, 2, 0]);
    assert_eq!(Shape::new(vec![usize::MAX, 1]).unwrap().elements().unwrap(), usize::MAX);
}

#[test]
fn host_data_must_fill_the_shape() {
    let shape = Shape::new(vec![2, 3]).unwrap();
    assert_eq!(shape.check_data(6).unwrap(), 6);
    match shape.check_data(5) {
        Err(Error::Shape { shape, elements, data }) => {
            assert_eq!(shape, vec![2, 3]);
            assert_eq!(elements, 6);
            assert_eq!(data, 5);
        },
        other => panic!("unexpected {other:?}"),
    }
}

#[test]
fn shape_with_a_dimension_beyond_i32_fails_native_conversion() {
    let shape = Shape::new(vec![1usize << 31]).unwrap();
    assert!(matches!(shape.native(), Err(Error::Integer(_))));
}

#[test]
fn dtype_codes_round_trip() {
    let all = [
        DType::Bool,
        DType::Uint32,
        DType::Int32,
        DType::Float16,
        DType::Bfloat16,
        DType::Float32,
        DType::Uint8,
    ];
    for (index, dtype) in all.into_iter().enumerate() {
        assert_eq!(usize::from(dtype.code()), index);
        assert_eq!(DType::try_from(dtype.code()).unwrap(), dtype);
    }
}

#[test]
fn unknown_dtype_code_is_reported() {
    assert!(matches!(DType::try_from(7), Err(Error::UnsupportedDtype(7))));
    assert!(matches!(DType::try_from(255), Err(Error::UnsupportedDtype(255))));
}

#[test]
fn dtype_names_and_float_classes() {
    assert_eq!(DType::Float32.name(), "Float32");
    assert_eq!(DType::Bfloat16.name(), "Bfloat16");
    assert_eq!(DType::Uint8.name(), "Uint8");
    assert!(DType::Float16.is_float());
    assert!(DType::Bfloat16.is_float());
    assert!(DType::Float32.is_float());
    assert!(!DType::Int32.is_float());
    assert!(!DType::Bool.is_float());
}

#[test]
fn devices_carry_kind_and_index() {
    let cpu = Device::cpu(0);
    let gpu = Device::gpu(3);
    assert_eq!(cpu.native_kind(), 0);
    assert_eq!(gpu.native_kind(), 1);
    assert_eq!(gpu.native_index().unwrap(), 3);
    assert_ne!(cpu, Device::gpu(0));
    let _kind = DeviceKind::Gpu;
}

#[test]
fn devices_are_equal_exactly_when_kind_and_index_agree() {
    assert_eq!(Device::cpu(1), Device::cpu(1));
    assert_ne!(Device::cpu(1), Device::cpu(2));
    assert_ne!(Device::cpu(1), Device::gpu(1));
    assert_eq!(Device::gpu(7), Device::gpu(7));
}

#[test]
fn device_index_beyond_i32_is_rejected() {
    assert!(matches!(Device::gpu(u32::MAX).native_index(), Err(Error::Integer(_))));
}

#[test]
fn compile_options_default_to_shape_specialised() {
    assert!(!CompileOptions::default().shapeless);
    assert!(CompileOptions::shapeless().shapeless);
}

#[test]
fn stream_and_arity_checks() {
    assert!(check_stream(4, 4).is_ok());
    assert!(matches!(
        check_stream(4, 5),
        Err(Error::StreamMismatch { expected: 4, actual: 5 })
    ));
    assert!(check_arity("compiled graph outputs", 2, 2).is_ok());
    assert!(matches!(
        check_arity("compiled graph outputs", 2, 1),
        Err(Error::Arity { operation: "compiled graph outputs", expected: 2, actual: 1 })
    ));
}

#[test]
fn quantization_accepts_supported_bit_widths() {
    for bits in [2, 3, 4, 5, 6, 8] {
        assert!(Quantization::new(64, bits).is_ok());
    }
    let options = native_options(Quantization::new(32, 4).unwrap(), true, false);
    assert_eq!(options.group_size, 32);
    assert_eq!(options.bits, 4);
    assert!(options.transpose);
    assert!(!options.sorted_indices);
}

#[test]
fn quantization_rejects_bad_configurations() {
    match Quantization::new(0, 4) {
        Err(Error::InvalidQuantization(message)) => assert_eq!(message, "group size must be positive"),
        other => panic!("unexpected {other:?}"),
    }
    match Quantization::new(64, 7) {
        Err(Error::InvalidQuantization(message)) => assert_eq!(message, "unsupported affine bit width"),
        other => panic!("unexpected {other:?}"),
    }
    match Quantization::new(-1, 9) {
        Err(Error::InvalidQuantization(message)) => assert_eq!(message, "group size must be positive"),
        other => panic!("unexpected {other:?}"),
    }
}

#[test]
fn gather_options_default_to_plain() {
    let options = GatherQmmOptions::default();
    assert!(!options.transpose);
    assert!(!options.sorted_indices);
}

#[test]
fn rope_dimensions_must_be_positive_and_even() {
    assert_eq!(rope_dimensions(64).unwrap(), 64);
    for bad in [0, 3, 65] {
        match rope_dimensions(bad) {
            Err(Error::InvalidRope(message)) => assert_eq!(message, "dimensions must be positive and even"),
            other => panic!("unexpected {other:?}"),
        }
    }
    assert!(matches!(rope_dimensions(1usize << 32), Err(Error::Integer(_))));
}

#[test]
fn frequency_rope_options_convert_to_native() {
    let native = FrequencyRopeOptions { dimensions: 8, traditional: true, offset: 5 }.native().unwrap();
    assert_eq!(native.dimensions, 8);
    assert!(native.traditional);
    assert_eq!(native.offset, 5);
    assert!(matches!(
        FrequencyRopeOptions { dimensions: 8, traditional: false, offset: 1usize << 31 }.native(),
        Err(Error::Integer(_))
    ));
    assert!(matches!(
        FrequencyRopeOptions { dimensions: 7, traditional: false, offset: 0 }.native(),
        Err(Error::InvalidRope(_))
    ));
}

#[test]
fn repeat_and_convolution_parameters_are_checked() {
    assert!(check_repeat(1).is_ok());
    match check_repeat(0) {
        Err(Error::InvalidOperation(message)) => assert_eq!(message, "repeat count must be positive"),
        other => panic!("unexpected {other:?}"),
    }
    assert!(check_conv1d(1, 0, 1, 1).is_ok());
    for (stride, padding, dilation, groups) in [(0, 0, 1, 1), (1, -1, 1, 1), (1, 0, 0, 1), (1, 0, 1, 0)] {
        match check_conv1d(stride, padding, dilation, groups) {
            Err(Error::InvalidOperation(message)) => assert_eq!(message, "conv1d parameters are invalid"),
            other => panic!("unexpected {other:?}"),
        }
    }
}

#[test]
fn selection_bounds_convert_to_native_indices() {
    assert_eq!(dimensions(&[0, 4, 9]).unwrap(), vec![0, 4, 9]);
    let (start, stop) = slice_bounds(&[0, 1], &[2, 3]).unwrap();
    assert_eq!(start, vec![0, 1]);
    assert_eq!(stop, vec![2, 3]);
    match slice_bounds(&[0], &[1, 2]) {
        Err(Error::InvalidOperation(message)) => {
            assert_eq!(message, "slice bounds must have the same non-zero rank")
        },
        other => panic!("unexpected {other:?}"),
    }
    match slice_update_bounds(&[], &[]) {
        Err(Error::InvalidOperation(message)) => {
            assert_eq!(message, "slice-update bounds must have the same non-zero rank")
        },
        other => panic!("unexpected {other:?}"),
    }
    assert!(matches!(slice_bounds(&[0], &[1usize << 31]), Err(Error::Integer(_))));
}

#[test]
fn concatenation_requires_inputs() {
    assert!(require_inputs(2, "concatenate").is_ok());
    match require_inputs(0, "stack") {
        Err(Error::InvalidOperation(message)) => assert_eq!(message, "stack requires at least one input"),
        other => panic!("unexpected {other:?}"),
    }
}
