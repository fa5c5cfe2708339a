use vstd::prelude::*;

use super::contract::{
    DTypeConstraint, KernelDescriptor, TemplateParameter, buffers_fault, descriptor_fault,
    output_dtypes, reports_dispatch, reports_kernel, templates_fault, validate_buffers,
    validate_descriptor, validate_outputs, validate_templates,
};
use super::{Dispatch, OutputSpec, TemplateArg};
use crate::dtype::dtype_code;
use crate::shape::fits_native;
use crate::{DType, Error, Result};

verus! {

/// Whether all three launch dimensions are non-zero.
pub open spec fn dims_nonzero(values: [usize; 3]) -> bool {
    values@[0] != 0 && values@[1] != 0 && values@[2] != 0
}

/// Whether all three launch dimensions fit in `i32`.
pub open spec fn dims_fit_i32(values: [usize; 3]) -> bool {
    values@[0] <= i32::MAX && values@[1] <= i32::MAX && values@[2] <= i32::MAX
}

/// The message of a launch with a zero dimension.
pub open spec fn geometry_message() -> Seq<char> {
    "grid and threadgroup dimensions must be positive"@
}

/// Checks that launch dimensions are positive and converts them to the
/// native `i32` type.
pub fn native_dimensions(values: [usize; 3]) -> (result: Result<[i32; 3]>)
    ensures
        !dims_nonzero(values) ==> (result matches Err(Error::InvalidDispatch(message))
            && message@ == geometry_message()),
        dims_nonzero(values) && !dims_fit_i32(values) ==> result matches Err(Error::Integer(_)),
        dims_nonzero(values) && dims_fit_i32(values) ==> (result matches Ok(native) && native@[0]
            == values@[0] && native@[1] == values@[1] && native@[2] == values@[2]),
{
    if values[0] == 0 || values[1] == 0 || values[2] == 0 {
        return Err(
            Error::InvalidDispatch(
                String::from_str("grid and threadgroup dimensions must be positive"),
            ),
        );
    }
    let x = match i32::try_from(values[0]) {
        Ok(value) => value,
        Err(error) => return Err(Error::Integer(error)),
    };
    let y = match i32::try_from(values[1]) {
        Ok(value) => value,
        Err(error) => return Err(Error::Integer(error)),
    };
    let z = match i32::try_from(values[2]) {
        Ok(value) => value,
        Err(error) => return Err(Error::Integer(error)),
    };
    Ok([x, y, z])
}

/// One output buffer of a native launch: its shape and dtype code.
#[derive(Debug, Clone, PartialEq, Eq)]
pub struct NativeOutput {
    /// Output dimensions in the native index type.
    pub shape: Vec<i32>,
    /// Native dtype code of the output.
    pub dtype: u8,
}

/// Everything a native kernel launch is configured with.
#[derive(Debug, Clone)]
pub struct LaunchPlan {
    /// Native grid dimensions.
    pub grid: [i32; 3],
    /// Native threadgroup dimensions.
    pub threadgroup: [i32; 3],
    /// Output buffers in binding order.
    pub outputs: Vec<NativeOutput>,
    /// Template arguments in the order they were supplied.
    pub templates: Vec<TemplateArg>,
    /// Bit pattern of the value used to initialize output buffers.
    pub init_value: Option<u32>,
    /// Whether MLX reports verbose Metal diagnostics.
    pub verbose: bool,
}

/// Whether every requested output shape fits the native index type.
pub open spec fn outputs_fit(outputs: Seq<OutputSpec>) -> bool {
    forall|index: int| 0 <= index < outputs.len() ==> fits_native(#[trigger] outputs[index].shape@)
}

/// Whether `plan` is the launch configuration of `outputs` and `dispatch`.
pub open spec fn plans(plan: LaunchPlan, outputs: Seq<OutputSpec>, dispatch: Dispatch) -> bool {
    &&& plan.grid@ == dispatch.grid@.map_values(|value: usize| value as i32)
    &&& plan.threadgroup@ == dispatch.threadgroup@.map_values(|value: usize| value as i32)
    &&& plan.outputs@.len() == outputs.len()
    &&& forall|index: int| 0 <= index < outputs.len() ==> {
        &&& #[trigger] plan.outputs@[index].dtype == dtype_code(outputs[index].dtype)
        &&& plan.outputs@[index].shape@ == outputs[index].shape@.map_values(|value: usize| value as i32)
    }
    &&& plan.templates@ == dispatch.templates@
    &&& plan.init_value == dispatch.init_value
    &&& plan.verbose == dispatch.verbose
}

/// Whether a launch can be planned: positive dimensions that fit `i32` and
/// output shapes that fit the native index type.
pub open spec fn launch_ok(outputs: Seq<OutputSpec>, dispatch: Dispatch) -> bool {
    dims_nonzero(dispatch.grid) && dims_fit_i32(dispatch.grid) && dims_nonzero(dispatch.threadgroup)
        && dims_fit_i32(dispatch.threadgroup) && outputs_fit(outputs)
}

/// How a launch that cannot be planned is reported: a zero grid or
/// threadgroup dimension (checked grid first) is an invalid dispatch, and an
/// unrepresentable dimension or output extent is an integer error.
pub open spec fn launch_rejected<T>(result: Result<T>, outputs: Seq<OutputSpec>, dispatch: Dispatch) -> bool {
    if !dims_nonzero(dispatch.grid) || (dims_fit_i32(dispatch.grid) && !dims_nonzero(dispatch.threadgroup)) {
        result matches Err(Error::InvalidDispatch(message)) && message@ == geometry_message()
    } else {
        result matches Err(Error::Integer(_))
    }
}

fn copy_templates(templates: &Vec<TemplateArg>) -> (copy: Vec<TemplateArg>)
    ensures
        copy@ == templates@,
{
    let mut copy: Vec<TemplateArg> = Vec::new();
    let mut index: usize = 0;
    while index < templates.len()
        invariant
            index <= templates@.len(),
            copy@ == templates@.take(index as int),
        decreases templates@.len() - index,
    {
        copy.push(templates[index]);
        proof {
            assert(copy@ =~= templates@.take(index + 1));
        }
        index = index + 1;
    }
    proof {
        assert(templates@.take(templates@.len() as int) =~= templates@);
    }
    copy
}

/// Plans the native launch of `outputs` under `dispatch`.
pub fn native_launch<const OUTPUTS: usize>(outputs: &[OutputSpec; OUTPUTS], dispatch: &Dispatch) -> (result:
    Result<LaunchPlan>)
    ensures
        launch_ok(outputs@, *dispatch) ==> (result matches Ok(plan) && plans(plan, outputs@, *dispatch)),
        !launch_ok(outputs@, *dispatch) ==> launch_rejected(result, outputs@, *dispatch),
{
    let grid = native_dimensions(dispatch.grid)?;
    let group = native_dimensions(dispatch.threadgroup)?;
    let mut native: Vec<NativeOutput> = Vec::new();
    let mut index: usize = 0;
    while index < OUTPUTS
        invariant
            index <= OUTPUTS,
            outputs@.len() == OUTPUTS,
            native@.len() == index,
            dims_nonzero(dispatch.grid) && dims_fit_i32(dispatch.grid),
            dims_nonzero(dispatch.threadgroup) && dims_fit_i32(dispatch.threadgroup),
            forall|k: int| 0 <= k < index ==> fits_native(#[trigger] outputs@[k].shape@),
            forall|k: int| 0 <= k < index ==> {
                &&& #[trigger] native@[k].dtype == dtype_code(outputs@[k].dtype)
                &&& native@[k].shape@ == outputs@[k].shape@.map_values(|value: usize| value as i32)
            },
        decreases OUTPUTS - index,
    {
        let output = &outputs[index];
        let shape = output.shape.native()?;
        proof {
            assert(shape@ =~= output.shape@.map_values(|value: usize| value as i32));
        }
        native.push(NativeOutput { shape, dtype: output.dtype.code() });
        index = index + 1;
    }
    let plan = LaunchPlan {
        grid,
        threadgroup: group,
        outputs: native,
        templates: copy_templates(&dispatch.templates),
        init_value: dispatch.init_value,
        verbose: dispatch.verbose,
    };
    proof {
        assert(plan.grid@ =~= dispatch.grid@.map_values(|value: usize| value as i32));
        assert(plan.threadgroup@ =~= dispatch.threadgroup@.map_values(|value: usize| value as i32));
    }
    Ok(plan)
}

/// A checked Metal kernel contract with statically known buffer arities.
#[derive(Debug)]
pub struct MetalKernel<const INPUTS: usize, const OUTPUTS: usize> {
    name: &'static str,
    input_dtypes: [DTypeConstraint; INPUTS],
    output_dtypes: [DTypeConstraint; OUTPUTS],
    templates: &'static [TemplateParameter],
}

/// What is wrong with the plan of a launch: its template arguments, else
/// its output dtypes.
pub open spec fn plan_fault(
    name: Seq<char>,
    parameters: Seq<TemplateParameter>,
    output_constraints: Seq<DTypeConstraint>,
    outputs: Seq<OutputSpec>,
    dispatch: Dispatch,
) -> Option<Seq<char>> {
    match templates_fault(name, parameters, dispatch.templates@) {
        Some(message) => Some(message),
        None => buffers_fault(
            name,
            true,
            output_dtypes(outputs),
            output_constraints,
            dispatch.templates@,
            outputs.len(),
        ),
    }
}

/// What is wrong with the dtypes of input buffers.
pub open spec fn inputs_fault(
    name: Seq<char>,
    constraints: Seq<DTypeConstraint>,
    arguments: Seq<TemplateArg>,
    inputs: Seq<DType>,
) -> Option<Seq<char>> {
    buffers_fault(name, false, inputs, constraints, arguments, inputs.len())
}

/// Checks the dtypes of input buffers against their declared constraints.
pub fn validate_inputs<const INPUTS: usize>(
    name: &str,
    constraints: [DTypeConstraint; INPUTS],
    templates: &[TemplateArg],
    inputs: [DType; INPUTS],
) -> (result: Result<()>)
    ensures
        reports_dispatch(result, inputs_fault(name@, constraints@, templates@, inputs@)),
{
    validate_buffers(name, false, inputs.as_slice(), constraints.as_slice(), templates)
}

impl<const INPUTS: usize, const OUTPUTS: usize> MetalKernel<INPUTS, OUTPUTS> {
    /// The Metal function name.
    pub closed spec fn name_of(&self) -> &'static str {
        self.name
    }

    /// The declared input dtype constraints.
    pub closed spec fn input_dtypes_of(&self) -> Seq<DTypeConstraint> {
        self.input_dtypes@
    }

    /// The declared output dtype constraints.
    pub closed spec fn output_dtypes_of(&self) -> Seq<DTypeConstraint> {
        self.output_dtypes@
    }

    /// The declared template parameters.
    pub closed spec fn templates_of(&self) -> Seq<TemplateParameter> {
        self.templates@
    }

    /// What is wrong with a launch plan for this kernel.
    pub open spec fn plan_fault_of(&self, outputs: Seq<OutputSpec>, dispatch: Dispatch) -> Option<Seq<char>> {
        plan_fault(self.name_of()@, self.templates_of(), self.output_dtypes_of(), outputs, dispatch)
    }

    /// What is wrong with a launch of this kernel on inputs of the given
    /// dtypes: its plan, else its inputs.
    pub open spec fn dispatch_fault(
        &self,
        inputs: Seq<DType>,
        outputs: Seq<OutputSpec>,
        dispatch: Dispatch,
    ) -> Option<Seq<char>> {
        match self.plan_fault_of(outputs, dispatch) {
            Some(message) => Some(message),
            None => inputs_fault(self.name_of()@, self.input_dtypes_of(), dispatch.templates@, inputs),
        }
    }

    /// Accepts a kernel whose descriptor has a name, a source and valid
    /// buffer names, keeping its buffer and template contract.
    pub fn new(descriptor: KernelDescriptor<INPUTS, OUTPUTS>) -> (result: Result<Self>)
        ensures
            reports_kernel(result, descriptor_fault(descriptor)),
            result matches Ok(kernel) ==> kernel.name_of() == descriptor.name
                && kernel.input_dtypes_of() == descriptor.input_dtypes@ && kernel.output_dtypes_of()
                == descriptor.output_dtypes@ && kernel.templates_of() == descriptor.templates@,
    {
        validate_descriptor(&descriptor)?;
        Ok(
            Self {
                name: descriptor.name,
                input_dtypes: descriptor.input_dtypes,
                output_dtypes: descriptor.output_dtypes,
                templates: descriptor.templates,
            },
        )
    }

    /// Checks template arguments, then output dtypes, of a launch.
    pub fn validate_plan(&self, outputs: &[OutputSpec; OUTPUTS], dispatch: &Dispatch) -> (result:
        Result<()>)
        ensures
            reports_dispatch(result, self.plan_fault_of(outputs@, *dispatch)),
    {
        validate_templates(self.name, self.templates, dispatch.templates.as_slice())?;
        validate_outputs(self.name, outputs, self.output_dtypes, dispatch.templates.as_slice())
    }

    /// Checks a launch plan and then the dtypes of the inputs.
    pub fn validate_dispatch(
        &self,
        inputs: [DType; INPUTS],
        outputs: &[OutputSpec; OUTPUTS],
        dispatch: &Dispatch,
    ) -> (result: Result<()>)
        ensures
            reports_dispatch(result, self.dispatch_fault(inputs@, outputs@, *dispatch)),
    {
        self.validate_plan(outputs, dispatch)?;
        validate_inputs(self.name, self.input_dtypes, dispatch.templates.as_slice(), inputs)
    }

    /// Checks a launch on inputs of the given dtypes and plans its native
    /// configuration.
    pub fn plan_dispatch(
        &self,
        inputs: [DType; INPUTS],
        outputs: &[OutputSpec; OUTPUTS],
        dispatch: &Dispatch,
    ) -> (result: Result<LaunchPlan>)
        ensures
            self.dispatch_fault(inputs@, outputs@, *dispatch) is Some ==> reports_dispatch(
                result,
                self.dispatch_fault(inputs@, outputs@, *dispatch),
            ),
            self.dispatch_fault(inputs@, outputs@, *dispatch) is None ==> (if launch_ok(
                outputs@,
                *dispatch,
            ) {
                result matches Ok(plan) && plans(plan, outputs@, *dispatch)
            } else {
                launch_rejected(result, outputs@, *dispatch)
            }),
    {
        self.validate_dispatch(inputs, outputs, dispatch)?;
        native_launch(outputs, dispatch)
    }

    /// Checks a launch plan once and caches it for repeated dispatches.
    pub fn prepare(&self, outputs: &[OutputSpec; OUTPUTS], dispatch: &Dispatch) -> (result: Result<
        PreparedMetalKernel<INPUTS, OUTPUTS>,
    >)
        ensures
            self.plan_fault_of(outputs@, *dispatch) is Some ==> reports_dispatch(
                result,
                self.plan_fault_of(outputs@, *dispatch),
            ),
            self.plan_fault_of(outputs@, *dispatch) is None ==> (if launch_ok(outputs@, *dispatch) {
                result matches Ok(prepared) && prepared.name_of() == self.name_of()
                    && prepared.input_dtypes_of() == self.input_dtypes_of() && prepared.templates_of()
                    == dispatch.templates@ && plans(prepared.launch_of(), outputs@, *dispatch)
            } else {
                launch_rejected(result, outputs@, *dispatch)
            }),
    {
        self.validate_plan(outputs, dispatch)?;
        let launch = native_launch(outputs, dispatch)?;
        Ok(
            PreparedMetalKernel {
                name: self.name,
                input_dtypes: self.input_dtypes,
                templates: copy_templates(&dispatch.templates),
                launch,
            },
        )
    }
}

/// A cached ordinary Metal launch with fixed output and dispatch specifications.
#[derive(Debug)]
pub struct PreparedMetalKernel<const INPUTS: usize, const OUTPUTS: usize> {
    name: &'static str,
    input_dtypes: [DTypeConstraint; INPUTS],
    templates: Vec<TemplateArg>,
    launch: LaunchPlan,
}

impl<const INPUTS: usize, const OUTPUTS: usize> PreparedMetalKernel<INPUTS, OUTPUTS> {
    /// The Metal function name.
    pub closed spec fn name_of(&self) -> &'static str {
        self.name
    }

    /// The declared input dtype constraints.
    pub closed spec fn input_dtypes_of(&self) -> Seq<DTypeConstraint> {
        self.input_dtypes@
    }

    /// The template arguments the launch was prepared with.
    pub closed spec fn templates_of(&self) -> Seq<TemplateArg> {
        self.templates@
    }

    /// The cached native launch configuration.
    pub closed spec fn launch_of(&self) -> LaunchPlan {
        self.launch
    }

    /// Returns the cached native launch configuration.
    pub fn launch(&self) -> (launch: &LaunchPlan)
        ensures
            *launch == self.launch_of(),
    {
        &self.launch
    }

    /// Checks the dtypes of new inputs against the cached contract.
    pub fn check_inputs(&self, inputs: [DType; INPUTS]) -> (result: Result<()>)
        ensures
            reports_dispatch(
                result,
                inputs_fault(self.name_of()@, self.input_dtypes_of(), self.templates_of(), inputs@),
            ),
    {
        validate_inputs(self.name, self.input_dtypes, self.templates.as_slice(), inputs)
    }
}

/// A launch dimension is accepted exactly when it lies between 1 and
/// 2147483647, the largest native `i32`.
pub proof fn lemma_launch_dimensions(values: [usize; 3])
    ensures
        dims_nonzero(values) && dims_fit_i32(values) <==> (forall|axis: int|
            0 <= axis < 3 ==> 1 <= #[trigger] values@[axis] <= 2147483647),
{
    if !(dims_nonzero(values) && dims_fit_i32(values)) {
        if values@[0] == 0 || values@[0] > 2147483647 {
            assert(!(1 <= values@[0] <= 2147483647));
        } else if values@[1] == 0 || values@[1] > 2147483647 {
            assert(!(1 <= values@[1] <= 2147483647));
        } else {
            assert(!(1 <= values@[2] <= 2147483647));
        }
    } else {
        assert forall|axis: int| 0 <= axis < 3 implies 1 <= #[trigger] values@[axis] <= 2147483647 by {
            if axis == 0 {
            } else if axis == 1 {
            } else {
            }
        }
    }
}

} // verus!
