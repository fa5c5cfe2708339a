pub mod aliasing;
pub mod contract;
pub mod kernel;
pub mod launch;
pub mod library;
pub mod source;

pub use aliasing::{AliasingDispatch, PreparedAliasing, StrideBinding, native_grid, validate};
pub use contract::{
    DTypeConstraint, KernelDescriptor, TemplateKind, TemplateParameter, TensorLabel,
    template_dtype, template_kind, validate_buffers, validate_descriptor, validate_dtype,
    validate_outputs, validate_templates,
};
pub use kernel::{
    LaunchPlan, MetalKernel, NativeOutput, PreparedMetalKernel, native_dimensions, native_launch,
    validate_inputs,
};
pub use launch::{Dispatch, OutputSpec, TemplateArg, TemplateValue};
pub use library::{MetalFunction, MetalLibrary, MetalLibraryDescriptor};
pub use source::MetalSource;
