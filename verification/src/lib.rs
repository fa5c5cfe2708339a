//! Checked contracts, launch planning and build-time kernel grammar for a
//! model-agnostic MLX and Metal execution layer.

mod compile;
pub mod dsl;
pub mod device;
pub mod dtype;
mod error;
pub mod memory;
pub mod ops;
pub mod quantized;
pub mod rope;
pub mod shape;
pub mod text;

pub use compile::{CompileOptions, check_arity, check_stream};
pub use device::{Device, DeviceKind};
pub use dtype::DType;
pub use error::{Error, Result};
pub use quantized::{GatherQmmOptions, Quantization, QuantizationOptions, native_options};
pub use rope::FrequencyRopeOptions;
pub use shape::Shape;
pub mod metal;
pub use metal::{
    AliasingDispatch, DTypeConstraint, Dispatch, KernelDescriptor, MetalFunction, MetalKernel,
    MetalLibrary, MetalLibraryDescriptor, MetalSource, OutputSpec, PreparedAliasing,
    PreparedMetalKernel, StrideBinding, TemplateArg, TemplateKind, TemplateParameter,
    TemplateValue,
};
