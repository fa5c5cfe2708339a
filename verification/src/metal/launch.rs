use vstd::prelude::*;

use crate::{DType, Shape};

verus! {

/// Shape and dtype requested for one Metal kernel output.
#[derive(Debug, Clone, PartialEq, Eq)]
pub struct OutputSpec {
    /// Output array shape.
    pub shape: Shape,
    /// Output array dtype.
    pub dtype: DType,
}

impl OutputSpec {
    /// Creates an output specification.
    pub fn new(shape: Shape, dtype: DType) -> (spec: Self)
        ensures
            spec.shape == shape,
            spec.dtype == dtype,
    {
        Self { shape, dtype }
    }
}

/// A named Metal function-template argument.
#[derive(Debug, Clone, Copy, PartialEq, Eq)]
pub struct TemplateArg {
    /// Template parameter name.
    pub name: &'static str,
    /// Value supplied for the parameter.
    pub value: TemplateValue,
}

impl TemplateArg {
    /// Creates a signed-integer template argument.
    pub fn integer(name: &'static str, value: i32) -> (argument: Self)
        ensures
            argument.name == name,
            argument.value == TemplateValue::Int(value),
    {
        Self { name, value: TemplateValue::Int(value) }
    }

    /// Creates a Boolean template argument.
    pub fn bool(name: &'static str, value: bool) -> (argument: Self)
        ensures
            argument.name == name,
            argument.value == TemplateValue::Bool(value),
    {
        Self { name, value: TemplateValue::Bool(value) }
    }

    /// Creates a dtype template argument.
    pub fn dtype(name: &'static str, value: DType) -> (argument: Self)
        ensures
            argument.name == name,
            argument.value == TemplateValue::DType(value),
    {
        Self { name, value: TemplateValue::DType(value) }
    }
}

/// A value accepted by a Metal function-template parameter.
#[derive(Debug, Clone, Copy, PartialEq, Eq, Structural)]
pub enum TemplateValue {
    /// Signed integer template value.
    Int(i32),
    /// Boolean template value.
    Bool(bool),
    /// Dtype template value.
    DType(DType),
}

/// Geometry and template values for one Metal kernel launch.
#[derive(Debug, Clone)]
pub struct Dispatch {
    /// Number of threads in the three-dimensional launch grid.
    pub grid: [usize; 3],
    /// Threads per threadgroup in each dimension.
    pub threadgroup: [usize; 3],
    /// Named function-template arguments.
    pub templates: Vec<TemplateArg>,
    /// Optional initial value used to allocate output buffers, held as the bit
    /// pattern of an IEEE 754 single-precision value.
    pub init_value: Option<u32>,
    /// Enables verbose MLX Metal diagnostics.
    pub verbose: bool,
}

impl Dispatch {
    /// Creates a launch with no template arguments or output initializer.
    pub fn new(grid: [usize; 3], threadgroup: [usize; 3]) -> (dispatch: Self)
        ensures
            dispatch.grid == grid,
            dispatch.threadgroup == threadgroup,
            dispatch.templates@.len() == 0,
            dispatch.init_value is None,
            !dispatch.verbose,
    {
        Self { grid, threadgroup, templates: Vec::new(), init_value: None, verbose: false }
    }

    /// Appends function-template arguments to the launch.
    pub fn templates(self, templates: Vec<TemplateArg>) -> (dispatch: Self)
        ensures
            dispatch.templates@ == self.templates@ + templates@,
            dispatch.grid == self.grid,
            dispatch.threadgroup == self.threadgroup,
            dispatch.init_value == self.init_value,
            dispatch.verbose == self.verbose,
    {
        let mut dispatch = self;
        let mut extra = templates;
        dispatch.templates.append(&mut extra);
        dispatch
    }

    /// Sets the bit pattern of the value used to initialize output buffers.
    pub fn init_value(self, bits: u32) -> (dispatch: Self)
        ensures
            dispatch.init_value == Some(bits),
            dispatch.templates@ == self.templates@,
            dispatch.grid == self.grid,
            dispatch.threadgroup == self.threadgroup,
            dispatch.verbose == self.verbose,
    {
        let mut dispatch = self;
        dispatch.init_value = Some(bits);
        dispatch
    }

    /// Enables or disables verbose MLX Metal diagnostics.
    pub fn verbose(self, verbose: bool) -> (dispatch: Self)
        ensures
            dispatch.verbose == verbose,
            dispatch.templates@ == self.templates@,
            dispatch.grid == self.grid,
            dispatch.threadgroup == self.threadgroup,
            dispatch.init_value == self.init_value,
    {
        let mut dispatch = self;
        dispatch.verbose = verbose;
        dispatch
    }
}

} // verus!
