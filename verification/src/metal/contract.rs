use vstd::prelude::*;

use super::{MetalSource, OutputSpec, TemplateArg, TemplateValue};
use crate::dtype::{dtype_name_spec, is_float};
use crate::text::{contains_unit_separator, decimal, decimal_string, has_unit_separator, same_text};
use crate::{DType, Error, Result};

verus! {

/// Names a kernel buffer in diagnostics.
#[derive(Debug, Clone, Copy, PartialEq, Eq, Structural)]
pub enum TensorLabel {
    /// The input buffer at this position.
    Input(usize),
    /// The output buffer at this position.
    Output(usize),
}

/// A dtype requirement declared for a Metal kernel buffer.
#[derive(Debug, Clone, Copy, PartialEq, Eq)]
pub enum DTypeConstraint {
    /// Requires one exact dtype.
    Exact(DType),
    /// Accepts any floating-point dtype supported by mirtal.
    Float,
    /// Uses the dtype supplied by the named template argument.
    Template(&'static str),
}

/// The value category accepted by a Metal template parameter.
#[derive(Debug, Clone, Copy, PartialEq, Eq, Structural)]
pub enum TemplateKind {
    /// A signed integer value.
    Int,
    /// A Boolean value.
    Bool,
    /// A mirtal dtype value.
    DType,
}

/// Declares one named template parameter accepted by a Metal kernel.
#[derive(Debug, Clone, Copy, PartialEq, Eq)]
pub struct TemplateParameter {
    /// Parameter name used by the Metal source.
    pub name: &'static str,
    /// Required value category.
    pub kind: TemplateKind,
}

/// Complete checked contract used to construct a typed Metal kernel.
#[derive(Debug, Clone, Copy)]
pub struct KernelDescriptor<const INPUTS: usize, const OUTPUTS: usize> {
    /// Metal function name.
    pub name: &'static str,
    /// Names of input buffer parameters in binding order.
    pub input_names: [&'static str; INPUTS],
    /// Dtype requirements for input buffers.
    pub input_dtypes: [DTypeConstraint; INPUTS],
    /// Names of output buffer parameters in binding order.
    pub output_names: [&'static str; OUTPUTS],
    /// Dtype requirements for output buffers.
    pub output_dtypes: [DTypeConstraint; OUTPUTS],
    /// Template parameters required at dispatch time.
    pub templates: &'static [TemplateParameter],
    /// Checked Metal kernel source.
    pub source: MetalSource,
    /// Optional checked source prepended as a header.
    pub header: MetalSource,
    /// Declares that all array buffers must be row-contiguous.
    pub row_contiguous: bool,
    /// Declares that output buffers are accessed atomically.
    pub atomic_outputs: bool,
}

/// How a rejected launch is reported: no fault means success, a fault
/// message means an `InvalidDispatch` error carrying exactly that message.
pub open spec fn reports_dispatch<T>(result: Result<T>, fault: Option<Seq<char>>) -> bool {
    match fault {
        None => result is Ok,
        Some(message) => result matches Err(Error::InvalidDispatch(text)) && text@ == message,
    }
}

/// How a rejected kernel or library declaration is reported.
pub open spec fn reports_kernel<T>(result: Result<T>, fault: Option<Seq<char>>) -> bool {
    match fault {
        None => result is Ok,
        Some(message) => result matches Err(Error::InvalidKernel(text)) && text@ == message,
    }
}

/// The diagnostic text of a buffer label.
pub open spec fn label_text(label: TensorLabel) -> Seq<char> {
    match label {
        TensorLabel::Input(index) => "input "@ + decimal(index as nat),
        TensorLabel::Output(index) => "output "@ + decimal(index as nat),
    }
}

/// The category of a template value.
pub open spec fn kind_of(value: TemplateValue) -> TemplateKind {
    match value {
        TemplateValue::Int(_) => TemplateKind::Int,
        TemplateValue::Bool(_) => TemplateKind::Bool,
        TemplateValue::DType(_) => TemplateKind::DType,
    }
}

/// The number of arguments named `name`.
pub open spec fn count_named(arguments: Seq<TemplateArg>, name: Seq<char>) -> nat
    decreases arguments.len(),
{
    if arguments.len() == 0 {
        0
    } else {
        count_named(arguments.drop_last(), name) + if arguments.last().name@ == name {
            1nat
        } else {
            0nat
        }
    }
}

/// The first argument named `name`, if any.
pub open spec fn first_named(arguments: Seq<TemplateArg>, name: Seq<char>) -> Option<TemplateArg>
    decreases arguments.len(),
{
    if arguments.len() == 0 {
        None
    } else {
        match first_named(arguments.drop_last(), name) {
            Some(found) => Some(found),
            None => if arguments.last().name@ == name {
                Some(arguments.last())
            } else {
                None
            },
        }
    }
}

/// The dtype of the first dtype-valued argument named `name`, if any.
pub open spec fn find_dtype(arguments: Seq<TemplateArg>, name: Seq<char>) -> Option<DType>
    decreases arguments.len(),
{
    if arguments.len() == 0 {
        None
    } else {
        match find_dtype(arguments.drop_last(), name) {
            Some(found) => Some(found),
            None => match arguments.last().value {
                TemplateValue::DType(dtype) => if arguments.last().name@ == name {
                    Some(dtype)
                } else {
                    None
                },
                _ => None,
            },
        }
    }
}

/// What is wrong with the arguments supplied for one template parameter.
pub open spec fn parameter_fault(
    kernel: Seq<char>,
    parameter: TemplateParameter,
    arguments: Seq<TemplateArg>,
) -> Option<Seq<char>> {
    if count_named(arguments, parameter.name@) != 1 {
        Some(kernel + " requires exactly one `"@ + parameter.name@ + "` template argument"@)
    } else if kind_of(first_named(arguments, parameter.name@).unwrap().value) != parameter.kind {
        Some(kernel + " template `"@ + parameter.name@ + "` has the wrong kind"@)
    } else {
        None
    }
}

/// The fault of the first parameter, in declaration order, whose arguments
/// are wrong.
pub open spec fn parameters_fault(
    kernel: Seq<char>,
    parameters: Seq<TemplateParameter>,
    arguments: Seq<TemplateArg>,
) -> Option<Seq<char>>
    decreases parameters.len(),
{
    if parameters.len() == 0 {
        None
    } else {
        match parameters_fault(kernel, parameters.drop_last(), arguments) {
            Some(message) => Some(message),
            None => parameter_fault(kernel, parameters.last(), arguments),
        }
    }
}

/// What is wrong with the template arguments of a launch: a count that
/// differs from the declared parameters, else the first faulty parameter.
pub open spec fn templates_fault(
    kernel: Seq<char>,
    parameters: Seq<TemplateParameter>,
    arguments: Seq<TemplateArg>,
) -> Option<Seq<char>> {
    if parameters.len() != arguments.len() {
        Some(kernel + " expects "@ + decimal(parameters.len()) + " template arguments, received "@
            + decimal(arguments.len()))
    } else {
        parameters_fault(kernel, parameters, arguments)
    }
}

/// The message of a dtype that differs from the declared one.
pub open spec fn mismatch_fault(kernel: Seq<char>, label: TensorLabel, actual: DType, expected: DType) -> Option<Seq<char>> {
    if actual == expected {
        None
    } else {
        Some(kernel + " "@ + label_text(label) + " dtype "@ + dtype_name_spec(actual)
            + " does not match declared "@ + dtype_name_spec(expected))
    }
}

/// What is wrong with a buffer of dtype `actual` under `constraint`.
pub open spec fn dtype_fault(
    kernel: Seq<char>,
    label: TensorLabel,
    actual: DType,
    constraint: DTypeConstraint,
    arguments: Seq<TemplateArg>,
) -> Option<Seq<char>> {
    match constraint {
        DTypeConstraint::Exact(expected) => mismatch_fault(kernel, label, actual, expected),
        DTypeConstraint::Float => if is_float(actual) {
            None
        } else {
            Some(kernel + " "@ + label_text(label) + " dtype "@ + dtype_name_spec(actual)
                + " is not floating point"@)
        },
        DTypeConstraint::Template(name) => match find_dtype(arguments, name@) {
            None => Some("missing dtype template `"@ + name@ + "`"@),
            Some(expected) => mismatch_fault(kernel, label, actual, expected),
        },
    }
}

/// The label of the buffer at `index` among inputs or outputs.
pub open spec fn buffer_label(outputs: bool, index: int) -> TensorLabel {
    if outputs {
        TensorLabel::Output(index as usize)
    } else {
        TensorLabel::Input(index as usize)
    }
}

/// The fault of the first of the first `count` buffers whose dtype breaks
/// its constraint.
pub open spec fn buffers_fault(
    kernel: Seq<char>,
    outputs: bool,
    dtypes: Seq<DType>,
    constraints: Seq<DTypeConstraint>,
    arguments: Seq<TemplateArg>,
    count: nat,
) -> Option<Seq<char>>
    decreases count,
{
    if count == 0 {
        None
    } else {
        match buffers_fault(kernel, outputs, dtypes, constraints, arguments, (count - 1) as nat) {
            Some(message) => Some(message),
            None => dtype_fault(
                kernel,
                buffer_label(outputs, count - 1),
                dtypes[count - 1],
                constraints[count - 1],
                arguments,
            ),
        }
    }
}

/// Whether a name is usable as a buffer binding: non-empty and free of the
/// unit separator that joins binding names at the native boundary.
pub open spec fn field_ok(name: &str) -> bool {
    name@.len() > 0 && !has_unit_separator(name)
}

/// What is wrong with a kernel descriptor.
pub open spec fn descriptor_fault<const INPUTS: usize, const OUTPUTS: usize>(
    descriptor: KernelDescriptor<INPUTS, OUTPUTS>,
) -> Option<Seq<char>> {
    if descriptor.name@.len() == 0 || descriptor.source.code_of()@.len() == 0 || (exists|index: int|
        0 <= index < INPUTS && !field_ok(#[trigger] descriptor.input_names@[index])) || (exists|
        index: int,
    | 0 <= index < OUTPUTS && !field_ok(#[trigger] descriptor.output_names@[index])) {
        Some(descriptor.name@ + " from "@ + descriptor.source.origin_of()@
            + " contains an empty or reserved field"@)
    } else {
        None
    }
}

/// Renders a buffer label.
pub fn label_string(label: TensorLabel) -> (text: String)
    ensures
        text@ == label_text(label),
{
    match label {
        TensorLabel::Input(index) => {
            let mut text = String::from_str("input ");
            text.append(decimal_string(index).as_str());
            text
        },
        TensorLabel::Output(index) => {
            let mut text = String::from_str("output ");
            text.append(decimal_string(index).as_str());
            text
        },
    }
}

/// Returns the category of a template value.
pub fn template_kind(value: TemplateValue) -> (kind: TemplateKind)
    ensures
        kind == kind_of(value),
{
    match value {
        TemplateValue::Int(_) => TemplateKind::Int,
        TemplateValue::Bool(_) => TemplateKind::Bool,
        TemplateValue::DType(_) => TemplateKind::DType,
    }
}

fn all_fields_ok(names: &[&'static str]) -> (ok: bool)
    ensures
        ok == forall|index: int| 0 <= index < names@.len() ==> field_ok(#[trigger] names@[index]),
{
    let mut index: usize = 0;
    while index < names.len()
        invariant
            index <= names@.len(),
            forall|k: int| 0 <= k < index ==> field_ok(#[trigger] names@[k]),
        decreases names@.len() - index,
    {
        let name = names[index];
        if name.is_empty() || contains_unit_separator(name) {
            proof {
                assert(!field_ok(names@[index as int]));
            }
            return false;
        }
        index = index + 1;
    }
    true
}

/// Rejects a descriptor with an empty name or source, or with an empty or
/// reserved buffer name.
pub fn validate_descriptor<const INPUTS: usize, const OUTPUTS: usize>(
    descriptor: &KernelDescriptor<INPUTS, OUTPUTS>,
) -> (result: Result<()>)
    ensures
        reports_kernel(result, descriptor_fault(*descriptor)),
{
    let inputs_ok = all_fields_ok(descriptor.input_names.as_slice());
    let outputs_ok = all_fields_ok(descriptor.output_names.as_slice());
    if descriptor.name.is_empty() || descriptor.source.code().is_empty() || !inputs_ok || !outputs_ok {
        let mut message = String::from_str(descriptor.name);
        message.append(" from ");
        message.append(descriptor.source.origin());
        message.append(" contains an empty or reserved field");
        return Err(Error::InvalidKernel(message));
    }
    Ok(())
}

fn count_arguments(arguments: &[TemplateArg], name: &str) -> (count: usize)
    ensures
        count == count_named(arguments@, name@),
{
    let mut count: usize = 0;
    let mut index: usize = 0;
    while index < arguments.len()
        invariant
            index <= arguments@.len(),
            count == count_named(arguments@.take(index as int), name@),
            count <= index,
        decreases arguments@.len() - index,
    {
        proof {
            assert(arguments@.take(index + 1).drop_last() =~= arguments@.take(index as int));
        }
        if same_text(arguments[index].name, name) {
            count = count + 1;
        }
        index = index + 1;
    }
    proof {
        assert(arguments@.take(arguments@.len() as int) =~= arguments@);
    }
    count
}

fn find_argument(arguments: &[TemplateArg], name: &str) -> (found: Option<TemplateArg>)
    ensures
        found == first_named(arguments@, name@),
{
    let mut index: usize = 0;
    while index < arguments.len()
        invariant
            index <= arguments@.len(),
            first_named(arguments@.take(index as int), name@) is None,
        decreases arguments@.len() - index,
    {
        proof {
            assert(arguments@.take(index + 1).drop_last() =~= arguments@.take(index as int));
        }
        if same_text(arguments[index].name, name) {
            proof {
                lemma_first_named_prefix(arguments@, name@, index + 1);
            }
            return Some(arguments[index]);
        }
        index = index + 1;
    }
    proof {
        assert(arguments@.take(arguments@.len() as int) =~= arguments@);
    }
    None
}

proof fn lemma_first_named_prefix(arguments: Seq<TemplateArg>, name: Seq<char>, count: int)
    requires
        0 <= count <= arguments.len(),
        first_named(arguments.take(count), name) is Some,
    ensures
        first_named(arguments, name) == first_named(arguments.take(count), name),
    decreases arguments.len() - count,
{
    if count < arguments.len() {
        assert(arguments.take(count + 1).drop_last() =~= arguments.take(count));
        lemma_first_named_prefix(arguments, name, count + 1);
    } else {
        assert(arguments.take(count) =~= arguments);
    }
}

proof fn lemma_find_dtype_prefix(arguments: Seq<TemplateArg>, name: Seq<char>, count: int)
    requires
        0 <= count <= arguments.len(),
        find_dtype(arguments.take(count), name) is Some,
    ensures
        find_dtype(arguments, name) == find_dtype(arguments.take(count), name),
    decreases arguments.len() - count,
{
    if count < arguments.len() {
        assert(arguments.take(count + 1).drop_last() =~= arguments.take(count));
        lemma_find_dtype_prefix(arguments, name, count + 1);
    } else {
        assert(arguments.take(count) =~= arguments);
    }
}

/// Checks that every declared template parameter receives exactly one
/// argument of its kind and that no extra arguments are supplied.
pub fn validate_templates(
    kernel: &str,
    parameters: &[TemplateParameter],
    arguments: &[TemplateArg],
) -> (result: Result<()>)
    ensures
        reports_dispatch(result, templates_fault(kernel@, parameters@, arguments@)),
{
    if parameters.len() != arguments.len() {
        let mut message = String::from_str(kernel);
        message.append(" expects ");
        message.append(decimal_string(parameters.len()).as_str());
        message.append(" template arguments, received ");
        message.append(decimal_string(arguments.len()).as_str());
        return Err(Error::InvalidDispatch(message));
    }
    let mut index: usize = 0;
    while index < parameters.len()
        invariant
            index <= parameters@.len(),
            parameters@.len() == arguments@.len(),
            parameters_fault(kernel@, parameters@.take(index as int), arguments@) is None,
        decreases parameters@.len() - index,
    {
        proof {
            assert(parameters@.take(index + 1).drop_last() =~= parameters@.take(index as int));
        }
        let parameter = parameters[index];
        let matches = count_arguments(arguments, parameter.name);
        if matches != 1 {
            let mut message = String::from_str(kernel);
            message.append(" requires exactly one `");
            message.append(parameter.name);
            message.append("` template argument");
            proof {
                assert(parameters@.take(index + 1).last() == parameter);
                assert(parameter_fault(kernel@, parameter, arguments@) == Some(message@));
                assert(parameters_fault(kernel@, parameters@.take(index + 1), arguments@) == Some(message@));
                lemma_parameters_fault_prefix(kernel@, parameters@, arguments@, index + 1);
            }
            return Err(Error::InvalidDispatch(message));
        }
        let argument = match find_argument(arguments, parameter.name) {
            Some(argument) => argument,
            None => {
                proof {
                    lemma_count_one_found(arguments@, parameter.name@);
                }
                return Err(Error::InvalidDispatch(String::from_str("validated template disappeared")));
            },
        };
        if template_kind(argument.value) != parameter.kind {
            let mut message = String::from_str(kernel);
            message.append(" template `");
            message.append(parameter.name);
            message.append("` has the wrong kind");
            proof {
                assert(parameters@.take(index + 1).last() == parameter);
                assert(parameter_fault(kernel@, parameter, arguments@) == Some(message@));
                assert(parameters_fault(kernel@, parameters@.take(index + 1), arguments@) == Some(message@));
                lemma_parameters_fault_prefix(kernel@, parameters@, arguments@, index + 1);
            }
            return Err(Error::InvalidDispatch(message));
        }
        index = index + 1;
    }
    proof {
        assert(parameters@.take(parameters@.len() as int) =~= parameters@);
    }
    Ok(())
}

proof fn lemma_count_one_found(arguments: Seq<TemplateArg>, name: Seq<char>)
    requires
        count_named(arguments, name) >= 1,
    ensures
        first_named(arguments, name) is Some,
    decreases arguments.len(),
{
    if arguments.len() > 0 && count_named(arguments.drop_last(), name) >= 1 {
        lemma_count_one_found(arguments.drop_last(), name);
    }
}

proof fn lemma_parameters_fault_prefix(
    kernel: Seq<char>,
    parameters: Seq<TemplateParameter>,
    arguments: Seq<TemplateArg>,
    count: int,
)
    requires
        0 <= count <= parameters.len(),
        parameters_fault(kernel, parameters.take(count), arguments) is Some,
    ensures
        parameters_fault(kernel, parameters, arguments) == parameters_fault(
            kernel,
            parameters.take(count),
            arguments,
        ),
    decreases parameters.len() - count,
{
    if count < parameters.len() {
        assert(parameters.take(count + 1).drop_last() =~= parameters.take(count));
        lemma_parameters_fault_prefix(kernel, parameters, arguments, count + 1);
    } else {
        assert(parameters.take(count) =~= parameters);
    }
}

/// Returns the dtype supplied by the first dtype-valued argument named `name`.
pub fn template_dtype(name: &str, templates: &[TemplateArg]) -> (result: Result<DType>)
    ensures
        find_dtype(templates@, name@) matches Some(dtype) ==> (result matches Ok(found) && found
            == dtype),
        find_dtype(templates@, name@) is None ==> (result matches Err(Error::InvalidDispatch(message))
            && message@ == "missing dtype template `"@ + name@ + "`"@),
{
    let mut index: usize = 0;
    while index < templates.len()
        invariant
            index <= templates@.len(),
            find_dtype(templates@.take(index as int), name@) is None,
        decreases templates@.len() - index,
    {
        proof {
            assert(templates@.take(index + 1).drop_last() =~= templates@.take(index as int));
        }
        let argument = templates[index];
        if let TemplateValue::DType(dtype) = argument.value {
            if same_text(argument.name, name) {
                proof {
                    lemma_find_dtype_prefix(templates@, name@, index + 1);
                }
                return Ok(dtype);
            }
        }
        index = index + 1;
    }
    proof {
        assert(templates@.take(templates@.len() as int) =~= templates@);
    }
    let mut message = String::from_str("missing dtype template `");
    message.append(name);
    message.append("`");
    Err(Error::InvalidDispatch(message))
}

fn mismatch(kernel: &str, label: TensorLabel, actual: DType, expected: DType) -> (result: Result<()>)
    ensures
        reports_dispatch(result, mismatch_fault(kernel@, label, actual, expected)),
{
    if actual != expected {
        let mut message = String::from_str(kernel);
        message.append(" ");
        message.append(label_string(label).as_str());
        message.append(" dtype ");
        message.append(actual.name());
        message.append(" does not match declared ");
        message.append(expected.name());
        return Err(Error::InvalidDispatch(message));
    }
    Ok(())
}

/// Checks one buffer dtype against its declared constraint.
pub fn validate_dtype(
    kernel: &str,
    label: TensorLabel,
    actual: DType,
    constraint: DTypeConstraint,
    templates: &[TemplateArg],
) -> (result: Result<()>)
    ensures
        reports_dispatch(result, dtype_fault(kernel@, label, actual, constraint, templates@)),
{
    match constraint {
        DTypeConstraint::Exact(expected) => mismatch(kernel, label, actual, expected),
        DTypeConstraint::Float => {
            if actual.is_float() {
                return Ok(());
            }
            let mut message = String::from_str(kernel);
            message.append(" ");
            message.append(label_string(label).as_str());
            message.append(" dtype ");
            message.append(actual.name());
            message.append(" is not floating point");
            Err(Error::InvalidDispatch(message))
        },
        DTypeConstraint::Template(name) => {
            let expected = template_dtype(name, templates)?;
            mismatch(kernel, label, actual, expected)
        },
    }
}

/// Checks buffer dtypes in binding order and reports the first violation.
pub fn validate_buffers(
    kernel: &str,
    outputs: bool,
    dtypes: &[DType],
    constraints: &[DTypeConstraint],
    templates: &[TemplateArg],
) -> (result: Result<()>)
    requires
        dtypes@.len() == constraints@.len(),
    ensures
        reports_dispatch(
            result,
            buffers_fault(kernel@, outputs, dtypes@, constraints@, templates@, dtypes@.len()),
        ),
{
    let mut index: usize = 0;
    while index < dtypes.len()
        invariant
            index <= dtypes@.len(),
            dtypes@.len() == constraints@.len(),
            buffers_fault(kernel@, outputs, dtypes@, constraints@, templates@, index as nat) is None,
        decreases dtypes@.len() - index,
    {
        let label = if outputs {
            TensorLabel::Output(index)
        } else {
            TensorLabel::Input(index)
        };
        let checked = validate_dtype(kernel, label, dtypes[index], constraints[index], templates);
        if checked.is_err() {
            proof {
                lemma_buffers_fault_prefix(
                    kernel@,
                    outputs,
                    dtypes@,
                    constraints@,
                    templates@,
                    (index + 1) as nat,
                    dtypes@.len(),
                );
            }
            return checked;
        }
        index = index + 1;
    }
    Ok(())
}

proof fn lemma_buffers_fault_prefix(
    kernel: Seq<char>,
    outputs: bool,
    dtypes: Seq<DType>,
    constraints: Seq<DTypeConstraint>,
    arguments: Seq<TemplateArg>,
    count: nat,
    total: nat,
)
    requires
        count <= total,
        buffers_fault(kernel, outputs, dtypes, constraints, arguments, count) is Some,
    ensures
        buffers_fault(kernel, outputs, dtypes, constraints, arguments, total) == buffers_fault(
            kernel,
            outputs,
            dtypes,
            constraints,
            arguments,
            count,
        ),
    decreases total - count,
{
    if count < total {
        lemma_buffers_fault_prefix(kernel, outputs, dtypes, constraints, arguments, count, (total - 1) as nat);
    }
}

/// The dtypes requested for a list of outputs.
pub open spec fn output_dtypes(outputs: Seq<OutputSpec>) -> Seq<DType> {
    outputs.map_values(|output: OutputSpec| output.dtype)
}

/// Checks requested output dtypes against the kernel's declared constraints.
pub fn validate_outputs<const OUTPUTS: usize>(
    kernel: &str,
    outputs: &[OutputSpec; OUTPUTS],
    constraints: [DTypeConstraint; OUTPUTS],
    templates: &[TemplateArg],
) -> (result: Result<()>)
    ensures
        reports_dispatch(
            result,
            buffers_fault(kernel@, true, output_dtypes(outputs@), constraints@, templates@, OUTPUTS as nat),
        ),
{
    let mut dtypes: Vec<DType> = Vec::new();
    let mut index: usize = 0;
    while index < OUTPUTS
        invariant
            index <= OUTPUTS,
            outputs@.len() == OUTPUTS,
            dtypes@.len() == index,
            forall|k: int| 0 <= k < index ==> #[trigger] dtypes@[k] == outputs@[k].dtype,
        decreases OUTPUTS - index,
    {
        dtypes.push(outputs[index].dtype);
        index = index + 1;
    }
    proof {
        assert(dtypes@ =~= output_dtypes(outputs@));
    }
    validate_buffers(kernel, true, dtypes.as_slice(), constraints.as_slice(), templates)
}

/// Whether every declared parameter is named by exactly one argument, and
/// that argument has the parameter's kind.
pub open spec fn each_parameter_supplied(parameters: Seq<TemplateParameter>, arguments: Seq<TemplateArg>) -> bool {
    forall|index: int| 0 <= index < parameters.len() ==> {
        &&& count_named(arguments, (#[trigger] parameters[index]).name@) == 1
        &&& kind_of(first_named(arguments, parameters[index].name@).unwrap().value) == parameters[index].kind
    }
}

proof fn lemma_parameters_fault(kernel: Seq<char>, parameters: Seq<TemplateParameter>, arguments: Seq<TemplateArg>)
    ensures
        parameters_fault(kernel, parameters, arguments) is None <==> each_parameter_supplied(parameters, arguments),
    decreases parameters.len(),
{
    if parameters.len() > 0 {
        let rest = parameters.drop_last();
        lemma_parameters_fault(kernel, rest, arguments);
        if parameters_fault(kernel, parameters, arguments) is None {
            assert forall|index: int| 0 <= index < parameters.len() implies {
                &&& count_named(arguments, (#[trigger] parameters[index]).name@) == 1
                &&& kind_of(first_named(arguments, parameters[index].name@).unwrap().value) == parameters[index].kind
            } by {
                if index < rest.len() {
                    assert(rest[index] == parameters[index]);
                }
            }
        }
        if each_parameter_supplied(parameters, arguments) {
            assert forall|index: int| 0 <= index < rest.len() implies {
                &&& count_named(arguments, (#[trigger] rest[index]).name@) == 1
                &&& kind_of(first_named(arguments, rest[index].name@).unwrap().value) == rest[index].kind
            } by {
                assert(rest[index] == parameters[index]);
            }
            assert(parameters[parameters.len() - 1] == parameters.last());
        }
    }
}

/// A launch's template arguments are accepted exactly when their number
/// equals the number of declared parameters and every parameter is named by
/// exactly one argument of its kind.
pub proof fn lemma_templates_accepted(kernel: Seq<char>, parameters: Seq<TemplateParameter>, arguments: Seq<TemplateArg>)
    ensures
        templates_fault(kernel, parameters, arguments) is None <==> (parameters.len() == arguments.len()
            && each_parameter_supplied(parameters, arguments)),
{
    lemma_parameters_fault(kernel, parameters, arguments);
}

proof fn lemma_first_dtype_found(arguments: Seq<TemplateArg>, name: Seq<char>)
    requires
        first_named(arguments, name) matches Some(argument) && argument.value is DType,
    ensures
        find_dtype(arguments, name) is Some,
    decreases arguments.len(),
{
    if arguments.len() > 0 && first_named(arguments.drop_last(), name) is Some {
        lemma_first_dtype_found(arguments.drop_last(), name);
    }
}

/// Once a launch's template arguments are accepted, every buffer typed by a
/// declared dtype template finds the dtype supplied for it, so such a buffer
/// is never reported as missing its template.
pub proof fn lemma_accepted_templates_resolve(
    kernel: Seq<char>,
    parameters: Seq<TemplateParameter>,
    arguments: Seq<TemplateArg>,
    index: int,
)
    requires
        templates_fault(kernel, parameters, arguments) is None,
        0 <= index < parameters.len(),
        parameters[index].kind == TemplateKind::DType,
    ensures
        find_dtype(arguments, parameters[index].name@) is Some,
{
    lemma_templates_accepted(kernel, parameters, arguments);
    let name = parameters[index].name@;
    assert(count_named(arguments, name) == 1);
    lemma_count_first(arguments, name);
    lemma_first_dtype_found(arguments, name);
}

proof fn lemma_count_first(arguments: Seq<TemplateArg>, name: Seq<char>)
    requires
        count_named(arguments, name) > 0,
    ensures
        first_named(arguments, name) is Some,
    decreases arguments.len(),
{
    if arguments.len() > 0 && count_named(arguments.drop_last(), name) > 0 {
        lemma_count_first(arguments.drop_last(), name);
    }
}

/// A buffer under the `Float` constraint is accepted exactly when its dtype
/// is `Float16`, `Bfloat16` or `Float32`; any other dtype is reported as not
/// floating point.
pub proof fn lemma_float_constraint(
    kernel: Seq<char>,
    label: TensorLabel,
    actual: DType,
    arguments: Seq<TemplateArg>,
)
    ensures
        dtype_fault(kernel, label, actual, DTypeConstraint::Float, arguments) is None <==> (actual
            == DType::Float16 || actual == DType::Bfloat16 || actual == DType::Float32),
        !(actual == DType::Float16 || actual == DType::Bfloat16 || actual == DType::Float32) ==> dtype_fault(
            kernel,
            label,
            actual,
            DTypeConstraint::Float,
            arguments,
        ) == Some(kernel + " "@ + label_text(label) + " dtype "@ + dtype_name_spec(actual)
            + " is not floating point"@),
{
}

/// A template value's kind is the kind of value it holds: an integer is
/// `Int`, a Boolean is `Bool` and a dtype is `DType`.
pub proof fn lemma_value_kinds(value: TemplateValue)
    ensures
        value is Int ==> kind_of(value) == TemplateKind::Int,
        value is Bool ==> kind_of(value) == TemplateKind::Bool,
        value is DType ==> kind_of(value) == TemplateKind::DType,
{
}

/// The dtype fault of a list of buffers is the fault of the first buffer,
/// in binding order, whose dtype breaks its constraint; there is none
/// exactly when every buffer keeps its constraint.
pub proof fn lemma_first_buffer_fault(
    kernel: Seq<char>,
    outputs: bool,
    dtypes: Seq<DType>,
    constraints: Seq<DTypeConstraint>,
    arguments: Seq<TemplateArg>,
    count: nat,
)
    ensures
        buffers_fault(kernel, outputs, dtypes, constraints, arguments, count) is None <==> forall|index: int|
            0 <= index < count ==> #[trigger] dtype_fault(
                kernel,
                buffer_label(outputs, index),
                dtypes[index],
                constraints[index],
                arguments,
            ) is None,
        buffers_fault(kernel, outputs, dtypes, constraints, arguments, count) matches Some(message) ==> exists|
            index: int,
        |
            0 <= index < count && #[trigger] dtype_fault(
                kernel,
                buffer_label(outputs, index),
                dtypes[index],
                constraints[index],
                arguments,
            ) == Some(message) && forall|earlier: int|
                0 <= earlier < index ==> #[trigger] dtype_fault(
                    kernel,
                    buffer_label(outputs, earlier),
                    dtypes[earlier],
                    constraints[earlier],
                    arguments,
                ) is None,
    decreases count,
{
    if count > 0 {
        lemma_first_buffer_fault(kernel, outputs, dtypes, constraints, arguments, (count - 1) as nat);
        let last = count - 1;
        if buffers_fault(kernel, outputs, dtypes, constraints, arguments, (count - 1) as nat) is None {
            if let Some(message) = dtype_fault(
                kernel,
                buffer_label(outputs, last),
                dtypes[last],
                constraints[last],
                arguments,
            ) {
                assert(dtype_fault(
                    kernel,
                    buffer_label(outputs, last),
                    dtypes[last],
                    constraints[last],
                    arguments,
                ) == Some(message));
            }
        }
    }
}

/// A kernel descriptor is accepted exactly when its name and source are
/// non-empty and every buffer name is non-empty and free of the byte `0x1f`.
pub proof fn lemma_descriptor_accepted<const INPUTS: usize, const OUTPUTS: usize>(
    descriptor: KernelDescriptor<INPUTS, OUTPUTS>,
)
    ensures
        descriptor_fault(descriptor) is None <==> {
            &&& descriptor.name@.len() > 0
            &&& descriptor.source.code_of()@.len() > 0
            &&& forall|index: int| 0 <= index < INPUTS ==> (#[trigger] descriptor.input_names@[index])@.len() > 0
                && !vstd::utf8::encode_utf8(descriptor.input_names@[index]@).contains(0x1fu8)
            &&& forall|index: int| 0 <= index < OUTPUTS ==> (#[trigger] descriptor.output_names@[index])@.len() > 0
                && !vstd::utf8::encode_utf8(descriptor.output_names@[index]@).contains(0x1fu8)
        },
{
}

} // verus!
