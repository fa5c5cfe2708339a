use vstd::prelude::*;

use crate::{Error, Result};

verus! {

/// Binds an input array stride to a Metal constant.
#[derive(Debug, Clone, Copy, PartialEq, Eq, Structural)]
pub struct StrideBinding {
    /// Zero-based input-buffer index.
    pub input: u32,
    /// Axis whose element stride is passed to the kernel.
    pub axis: u32,
}

/// Mutable-buffer bindings and geometry for an aliasing Metal dispatch.
#[derive(Debug, Clone)]
pub struct AliasingDispatch {
    /// Input indices reused as mutable output buffers.
    pub output_aliases: Vec<u32>,
    /// Scalar `u32` values passed after buffer arguments.
    pub constants: Vec<u32>,
    /// Input indices whose strides are passed to the kernel.
    pub stride_inputs: Vec<u32>,
    /// Axes paired with `stride_inputs`.
    pub stride_axes: Vec<u32>,
    /// Number of threads in the launch grid.
    pub grid: [usize; 3],
    /// Threads per threadgroup.
    pub threadgroup: [usize; 3],
}

/// Whether all three launch dimensions are non-zero.
pub open spec fn dims_positive(values: [usize; 3]) -> bool {
    values@[0] != 0 && values@[1] != 0 && values@[2] != 0
}

/// Whether all three launch dimensions fit in `u32`.
pub open spec fn dims_fit_u32(values: [usize; 3]) -> bool {
    values@[0] <= u32::MAX && values@[1] <= u32::MAX && values@[2] <= u32::MAX
}

/// Whether every index in `indices` addresses one of `arity` inputs.
pub open spec fn indices_below(indices: Seq<u32>, arity: nat) -> bool {
    forall|k: int| 0 <= k < indices.len() ==> #[trigger] indices[k] < arity
}

/// Whether an aliasing dispatch is well formed for `arity` inputs: at least
/// one input and one aliased output, every alias and stride input in range,
/// one axis per stride input, and a positive launch geometry.
pub open spec fn aliasing_ok(arity: nat, dispatch: AliasingDispatch) -> bool {
    &&& arity != 0
    &&& dispatch.output_aliases@.len() != 0
    &&& indices_below(dispatch.output_aliases@, arity)
    &&& indices_below(dispatch.stride_inputs@, arity)
    &&& dispatch.stride_inputs@.len() == dispatch.stride_axes@.len()
    &&& dims_positive(dispatch.grid)
    &&& dims_positive(dispatch.threadgroup)
}

/// Whether a dispatch binds `inputs` inputs and `outputs` aliased outputs
/// consistently: the part of [`aliasing_ok`] that does not concern launch
/// geometry, with the alias count fixed.
pub open spec fn bindings_ok(inputs: nat, outputs: nat, dispatch: AliasingDispatch) -> bool {
    &&& inputs != 0
    &&& outputs != 0
    &&& dispatch.output_aliases@.len() == outputs
    &&& indices_below(dispatch.output_aliases@, inputs)
    &&& indices_below(dispatch.stride_inputs@, inputs)
    &&& dispatch.stride_inputs@.len() == dispatch.stride_axes@.len()
}

/// The message of a rejected aliasing dispatch.
pub open spec fn aliasing_message() -> Seq<char> {
    "invalid aliasing Metal dispatch"@
}

impl AliasingDispatch {
    /// Creates a dispatch whose outputs alias the listed inputs, with no
    /// constants or strides and a unit grid and threadgroup.
    pub fn new(output_aliases: Vec<u32>) -> (dispatch: Self)
        ensures
            dispatch.output_aliases@ == output_aliases@,
            dispatch.constants@.len() == 0,
            dispatch.stride_inputs@.len() == 0,
            dispatch.stride_axes@.len() == 0,
            dispatch.grid@ == seq![1usize, 1usize, 1usize],
            dispatch.threadgroup@ == seq![1usize, 1usize, 1usize],
    {
        let dispatch = Self {
            output_aliases,
            constants: Vec::new(),
            stride_inputs: Vec::new(),
            stride_axes: Vec::new(),
            grid: [1, 1, 1],
            threadgroup: [1, 1, 1],
        };
        proof {
            assert(dispatch.grid@ =~= seq![1usize, 1usize, 1usize]);
            assert(dispatch.threadgroup@ =~= seq![1usize, 1usize, 1usize]);
        }
        dispatch
    }

    /// Appends scalar constants in kernel argument order.
    pub fn constants(self, values: Vec<u32>) -> (dispatch: Self)
        ensures
            dispatch.constants@ == self.constants@ + values@,
            dispatch.output_aliases@ == self.output_aliases@,
            dispatch.stride_inputs@ == self.stride_inputs@,
            dispatch.stride_axes@ == self.stride_axes@,
            dispatch.grid == self.grid,
            dispatch.threadgroup == self.threadgroup,
    {
        let mut dispatch = self;
        let mut values = values;
        dispatch.constants.append(&mut values);
        dispatch
    }

    /// Appends input-stride bindings in kernel argument order.
    pub fn strides(self, values: Vec<StrideBinding>) -> (dispatch: Self)
        ensures
            dispatch.stride_inputs@ == self.stride_inputs@ + values@.map_values(
                |binding: StrideBinding| binding.input,
            ),
            dispatch.stride_axes@ == self.stride_axes@ + values@.map_values(
                |binding: StrideBinding| binding.axis,
            ),
            dispatch.output_aliases@ == self.output_aliases@,
            dispatch.constants@ == self.constants@,
            dispatch.grid == self.grid,
            dispatch.threadgroup == self.threadgroup,
    {
        let mut dispatch = self;
        let ghost start = dispatch;
        let mut index: usize = 0;
        while index < values.len()
            invariant
                index <= values@.len(),
                dispatch.stride_inputs@ == start.stride_inputs@ + values@.take(index as int).map_values(
                    |binding: StrideBinding| binding.input,
                ),
                dispatch.stride_axes@ == start.stride_axes@ + values@.take(index as int).map_values(
                    |binding: StrideBinding| binding.axis,
                ),
                dispatch.output_aliases@ == start.output_aliases@,
                dispatch.constants@ == start.constants@,
                dispatch.grid == start.grid,
                dispatch.threadgroup == start.threadgroup,
            decreases values@.len() - index,
        {
            let binding = values[index];
            dispatch.stride_inputs.push(binding.input);
            dispatch.stride_axes.push(binding.axis);
            proof {
                assert(values@.take(index + 1) =~= values@.take(index as int).push(binding));
                assert(dispatch.stride_inputs@ =~= start.stride_inputs@ + values@.take(
                    index + 1,
                ).map_values(|binding: StrideBinding| binding.input));
                assert(dispatch.stride_axes@ =~= start.stride_axes@ + values@.take(
                    index + 1,
                ).map_values(|binding: StrideBinding| binding.axis));
            }
            index = index + 1;
        }
        proof {
            assert(values@.take(values@.len() as int) =~= values@);
        }
        dispatch
    }

    /// Sets the three-dimensional grid size.
    pub fn grid(self, value: [usize; 3]) -> (dispatch: Self)
        ensures
            dispatch.grid == value,
            dispatch.threadgroup == self.threadgroup,
            dispatch.output_aliases@ == self.output_aliases@,
            dispatch.constants@ == self.constants@,
            dispatch.stride_inputs@ == self.stride_inputs@,
            dispatch.stride_axes@ == self.stride_axes@,
    {
        let mut dispatch = self;
        dispatch.grid = value;
        dispatch
    }

    /// Sets the three-dimensional threadgroup size.
    pub fn threadgroup(self, value: [usize; 3]) -> (dispatch: Self)
        ensures
            dispatch.threadgroup == value,
            dispatch.grid == self.grid,
            dispatch.output_aliases@ == self.output_aliases@,
            dispatch.constants@ == self.constants@,
            dispatch.stride_inputs@ == self.stride_inputs@,
            dispatch.stride_axes@ == self.stride_axes@,
    {
        let mut dispatch = self;
        dispatch.threadgroup = value;
        dispatch
    }

    /// Replaces constants and launch geometry without changing binding arity.
    ///
    /// A list of constants of another length is rejected and leaves the
    /// dispatch unchanged.
    pub fn rebind(&mut self, constants: &[u32], grid: [usize; 3], threadgroup: [usize; 3]) -> (result:
        Result<()>)
        ensures
            constants@.len() != old(self).constants@.len() ==> (result matches Err(
                Error::InvalidDispatch(message),
            ) && message@ == "rebound Metal constants changed arity"@ && final(self).constants@
                == old(self).constants@ && final(self).grid == old(self).grid
                && final(self).threadgroup == old(self).threadgroup),
            constants@.len() == old(self).constants@.len() ==> (result is Ok && final(self).constants@
                == constants@ && final(self).grid == grid && final(self).threadgroup == threadgroup),
            final(self).output_aliases@ == old(self).output_aliases@,
            final(self).stride_inputs@ == old(self).stride_inputs@,
            final(self).stride_axes@ == old(self).stride_axes@,
    {
        if constants.len() != self.constants.len() {
            return Err(
                Error::InvalidDispatch(String::from_str("rebound Metal constants changed arity")),
            );
        }
        let mut index: usize = 0;
        while index < constants.len()
            invariant
                index <= constants@.len(),
                self.constants@.len() == constants@.len(),
                forall|k: int| 0 <= k < index ==> #[trigger] self.constants@[k] == constants@[k],
                self.output_aliases@ == old(self).output_aliases@,
                self.stride_inputs@ == old(self).stride_inputs@,
                self.stride_axes@ == old(self).stride_axes@,
            decreases constants@.len() - index,
        {
            self.constants.set(index, constants[index]);
            index = index + 1;
        }
        proof {
            assert(self.constants@ =~= constants@);
        }
        self.grid = grid;
        self.threadgroup = threadgroup;
        Ok(())
    }
}

fn indices_in_range(indices: &Vec<u32>, arity: usize) -> (ok: bool)
    ensures
        ok == indices_below(indices@, arity as nat),
{
    let mut index: usize = 0;
    while index < indices.len()
        invariant
            index <= indices@.len(),
            forall|k: int| 0 <= k < index ==> #[trigger] indices@[k] < arity,
        decreases indices@.len() - index,
    {
        if indices[index] as usize >= arity {
            return false;
        }
        index = index + 1;
    }
    true
}

/// Checks an aliasing dispatch against the number of bound inputs.
pub fn validate(input_arity: usize, dispatch: &AliasingDispatch) -> (result: Result<()>)
    ensures
        aliasing_ok(input_arity as nat, *dispatch) ==> result is Ok,
        !aliasing_ok(input_arity as nat, *dispatch) ==> (result matches Err(
            Error::InvalidDispatch(message),
        ) && message@ == aliasing_message()),
{
    let grid = dispatch.grid;
    let group = dispatch.threadgroup;
    let dimensions_ok = grid[0] != 0 && grid[1] != 0 && grid[2] != 0 && group[0] != 0 && group[1]
        != 0 && group[2] != 0;
    if input_arity == 0 || dispatch.output_aliases.len() == 0 || !indices_in_range(
        &dispatch.output_aliases,
        input_arity,
    ) || !indices_in_range(&dispatch.stride_inputs, input_arity) || dispatch.stride_inputs.len()
        != dispatch.stride_axes.len() || !dimensions_ok {
        return Err(Error::InvalidDispatch(String::from_str("invalid aliasing Metal dispatch")));
    }
    Ok(())
}

/// Converts launch dimensions to the native `u32` type, failing on the first
/// dimension that does not fit.
pub fn native_grid(values: [usize; 3]) -> (result: Result<[u32; 3]>)
    ensures
        dims_fit_u32(values) ==> (result matches Ok(native) && native@[0] == values@[0]
            && native@[1] == values@[1] && native@[2] == values@[2]),
        !dims_fit_u32(values) ==> result matches Err(Error::Integer(_)),
{
    let x = match u32::try_from(values[0]) {
        Ok(value) => value,
        Err(error) => return Err(Error::Integer(error)),
    };
    let y = match u32::try_from(values[1]) {
        Ok(value) => value,
        Err(error) => return Err(Error::Integer(error)),
    };
    let z = match u32::try_from(values[2]) {
        Ok(value) => value,
        Err(error) => return Err(Error::Integer(error)),
    };
    Ok([x, y, z])
}

/// A cached aliasing plan with fixed input and output arities.
#[derive(Debug)]
pub struct PreparedAliasing<const INPUTS: usize, const OUTPUTS: usize> {
    dispatch: AliasingDispatch,
}

impl<const INPUTS: usize, const OUTPUTS: usize> PreparedAliasing<INPUTS, OUTPUTS> {
    /// The dispatch this plan was prepared with, as last rebound.
    pub closed spec fn dispatch_of(&self) -> AliasingDispatch {
        self.dispatch
    }

    /// A prepared plan always binds its fixed arities consistently.
    #[verifier::type_invariant]
    closed spec fn well_bound(&self) -> bool {
        bindings_ok(INPUTS as nat, OUTPUTS as nat, self.dispatch)
    }

    /// Checks a dispatch for preparation with `INPUTS` inputs and `OUTPUTS`
    /// aliased outputs.
    pub(crate) fn prepare(dispatch: AliasingDispatch) -> (result: Result<Self>)
        ensures
            !aliasing_ok(INPUTS as nat, dispatch) ==> (result matches Err(
                Error::InvalidDispatch(message),
            ) && message@ == aliasing_message()),
            aliasing_ok(INPUTS as nat, dispatch) && dispatch.output_aliases@.len() != OUTPUTS ==> (
            result matches Err(Error::Arity { operation, expected, actual })
                && operation@ == "prepared aliasing outputs"@ && expected == OUTPUTS
                && actual == dispatch.output_aliases@.len()),
            aliasing_ok(INPUTS as nat, dispatch) && dispatch.output_aliases@.len() == OUTPUTS ==> (
            result matches Ok(prepared) && prepared.dispatch_of() == dispatch),
            result matches Ok(prepared) ==> bindings_ok(INPUTS as nat, OUTPUTS as nat, prepared.dispatch_of()),
    {
        validate(INPUTS, &dispatch)?;
        if dispatch.output_aliases.len() != OUTPUTS {
            return Err(
                Error::Arity {
                    operation: "prepared aliasing outputs",
                    expected: OUTPUTS,
                    actual: dispatch.output_aliases.len(),
                },
            );
        }
        Ok(PreparedAliasing { dispatch })
    }

    /// Replaces constants and launch geometry while preserving binding arity.
    pub fn rebind(&mut self, constants: &[u32], grid: [usize; 3], threadgroup: [usize; 3]) -> (result:
        Result<()>)
        ensures
            constants@.len() != old(self).dispatch_of().constants@.len() ==> (result matches Err(
                Error::InvalidDispatch(message),
            ) && message@ == "rebound Metal constants changed arity"@
                && final(self).dispatch_of().constants@ == old(self).dispatch_of().constants@
                && final(self).dispatch_of().grid == old(self).dispatch_of().grid
                && final(self).dispatch_of().threadgroup == old(self).dispatch_of().threadgroup),
            constants@.len() == old(self).dispatch_of().constants@.len() ==> (result is Ok
                && final(self).dispatch_of().constants@ == constants@ && final(self).dispatch_of().grid
                == grid && final(self).dispatch_of().threadgroup == threadgroup),
            final(self).dispatch_of().output_aliases@ == old(self).dispatch_of().output_aliases@,
            final(self).dispatch_of().stride_inputs@ == old(self).dispatch_of().stride_inputs@,
            final(self).dispatch_of().stride_axes@ == old(self).dispatch_of().stride_axes@,
            bindings_ok(INPUTS as nat, OUTPUTS as nat, final(self).dispatch_of()),
    {
        proof {
            use_type_invariant(&*self);
        }
        let mut dispatch = AliasingDispatch {
            output_aliases: self.dispatch.output_aliases.clone(),
            constants: self.dispatch.constants.clone(),
            stride_inputs: self.dispatch.stride_inputs.clone(),
            stride_axes: self.dispatch.stride_axes.clone(),
            grid: self.dispatch.grid,
            threadgroup: self.dispatch.threadgroup,
        };
        proof {
            assert(dispatch.output_aliases@ =~= self.dispatch.output_aliases@);
            assert(dispatch.constants@ =~= self.dispatch.constants@);
            assert(dispatch.stride_inputs@ =~= self.dispatch.stride_inputs@);
            assert(dispatch.stride_axes@ =~= self.dispatch.stride_axes@);
        }
        let result = dispatch.rebind(constants, grid, threadgroup);
        self.dispatch = dispatch;
        result
    }

    /// Converts the prepared launch geometry to native dimensions.
    pub fn geometry(&self) -> (result: Result<([u32; 3], [u32; 3])>)
        ensures
            dims_fit_u32(self.dispatch_of().grid) && dims_fit_u32(self.dispatch_of().threadgroup) ==> (
            result matches Ok((grid, group)) && grid@ == self.dispatch_of().grid@.map_values(
                |value: usize| value as u32,
            ) && group@ == self.dispatch_of().threadgroup@.map_values(|value: usize| value as u32)),
            !(dims_fit_u32(self.dispatch_of().grid) && dims_fit_u32(self.dispatch_of().threadgroup))
                ==> result matches Err(Error::Integer(_)),
    {
        let grid = native_grid(self.dispatch.grid)?;
        let group = native_grid(self.dispatch.threadgroup)?;
        proof {
            assert(grid@ =~= self.dispatch_of().grid@.map_values(|value: usize| value as u32));
            assert(group@ =~= self.dispatch_of().threadgroup@.map_values(|value: usize| value as u32));
        }
        Ok((grid, group))
    }
}

/// An aliasing launch dimension is usable exactly when it lies between 1
/// and 4294967295, the largest native `u32`.
pub proof fn lemma_aliasing_dimensions(values: [usize; 3])
    ensures
        dims_positive(values) && dims_fit_u32(values) <==> (forall|axis: int|
            0 <= axis < 3 ==> 1 <= #[trigger] values@[axis] <= 4294967295),
{
    if !(dims_positive(values) && dims_fit_u32(values)) {
        if values@[0] == 0 || values@[0] > 4294967295 {
            assert(!(1 <= values@[0] <= 4294967295));
        } else if values@[1] == 0 || values@[1] > 4294967295 {
            assert(!(1 <= values@[1] <= 4294967295));
        } else {
            assert(!(1 <= values@[2] <= 4294967295));
        }
    } else {
        assert forall|axis: int| 0 <= axis < 3 implies 1 <= #[trigger] values@[axis] <= 4294967295 by {
            if axis == 0 {
            } else if axis == 1 {
            } else {
            }
        }
    }
}

/// A dispatch validated for `arity` inputs binds at least one input and one
/// output, every aliased output and stride input names one of the inputs,
/// strides come in input and axis pairs, and both launch shapes are
/// non-empty in every dimension.
pub proof fn lemma_valid_aliasing(arity: nat, dispatch: AliasingDispatch)
    ensures
        aliasing_ok(arity, dispatch) <==> {
            &&& arity >= 1
            &&& dispatch.output_aliases@.len() >= 1
            &&& forall|index: int| 0 <= index < dispatch.output_aliases@.len() ==> #[trigger] dispatch.output_aliases@[index] < arity
            &&& forall|index: int| 0 <= index < dispatch.stride_inputs@.len() ==> #[trigger] dispatch.stride_inputs@[index] < arity
            &&& dispatch.stride_inputs@.len() == dispatch.stride_axes@.len()
            &&& forall|axis: int| 0 <= axis < 3 ==> #[trigger] dispatch.grid@[axis] >= 1
            &&& forall|axis: int| 0 <= axis < 3 ==> #[trigger] dispatch.threadgroup@[axis] >= 1
        },
{
    if dims_positive(dispatch.grid) {
        assert forall|axis: int| 0 <= axis < 3 implies #[trigger] dispatch.grid@[axis] >= 1 by {
            if axis == 0 {
            } else if axis == 1 {
            } else {
            }
        }
    }
    if dims_positive(dispatch.threadgroup) {
        assert forall|axis: int| 0 <= axis < 3 implies #[trigger] dispatch.threadgroup@[axis] >= 1 by {
            if axis == 0 {
            } else if axis == 1 {
            } else {
            }
        }
    }
    if !dims_positive(dispatch.grid) {
        if dispatch.grid@[0] == 0 {
            assert(!(dispatch.grid@[0] >= 1));
        } else if dispatch.grid@[1] == 0 {
            assert(!(dispatch.grid@[1] >= 1));
        } else {
            assert(!(dispatch.grid@[2] >= 1));
        }
    }
    if !dims_positive(dispatch.threadgroup) {
        if dispatch.threadgroup@[0] == 0 {
            assert(!(dispatch.threadgroup@[0] >= 1));
        } else if dispatch.threadgroup@[1] == 0 {
            assert(!(dispatch.threadgroup@[1] >= 1));
        } else {
            assert(!(dispatch.threadgroup@[2] >= 1));
        }
    }
}

} // verus!
