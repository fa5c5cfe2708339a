//! Argument checks that graph operations perform before reaching MLX.

use vstd::prelude::*;

use crate::shape::{fits_native, native_indices};
use crate::{Error, Result};

verus! {

/// Validates a repeat count: it must be positive.
pub fn check_repeat(repeats: i32) -> (result: Result<()>)
    ensures
        repeats > 0 ==> result is Ok,
        repeats <= 0 ==> (result matches Err(Error::InvalidOperation(message))
            && message@ == "repeat count must be positive"@),
{
    if repeats <= 0 {
        return Err(Error::InvalidOperation(String::from_str("repeat count must be positive")));
    }
    Ok(())
}

/// Validates one-dimensional convolution parameters: positive stride,
/// dilation and groups, and a non-negative padding.
pub fn check_conv1d(stride: i32, padding: i32, dilation: i32, groups: i32) -> (result: Result<()>)
    ensures
        stride > 0 && padding >= 0 && dilation > 0 && groups > 0 ==> result is Ok,
        !(stride > 0 && padding >= 0 && dilation > 0 && groups > 0) ==> (result matches Err(
            Error::InvalidOperation(message),
        ) && message@ == "conv1d parameters are invalid"@),
{
    if stride <= 0 || padding < 0 || dilation <= 0 || groups <= 0 {
        return Err(Error::InvalidOperation(String::from_str("conv1d parameters are invalid")));
    }
    Ok(())
}

/// Converts axis positions or bounds to the native `i32` index type.
pub fn dimensions(values: &[usize]) -> (result: Result<Vec<i32>>)
    ensures
        fits_native(values@) ==> (result matches Ok(native) && native@.len() == values@.len()
            && forall|axis: int| 0 <= axis < values@.len() ==> #[trigger] native@[axis] == values@[axis]),
        !fits_native(values@) ==> result matches Err(Error::Integer(_)),
{
    native_indices(values)
}

/// Whether `native` holds exactly the values of `values`.
pub open spec fn same_indices(native: Seq<i32>, values: Seq<usize>) -> bool {
    native.len() == values.len() && forall|axis: int| 0 <= axis < values.len()
        ==> #[trigger] native[axis] == values[axis]
}

/// Checks unit-stride slice bounds and converts them to native indices.
pub fn slice_bounds(start: &[usize], stop: &[usize]) -> (result: Result<(Vec<i32>, Vec<i32>)>)
    ensures
        start@.len() != stop@.len() || start@.len() == 0 ==> (result matches Err(
            Error::InvalidOperation(message),
        ) && message@ == "slice bounds must have the same non-zero rank"@),
        start@.len() == stop@.len() && start@.len() > 0 ==> (
            (fits_native(start@) && fits_native(stop@) ==> (result matches Ok((native_start, native_stop))
                && same_indices(native_start@, start@) && same_indices(native_stop@, stop@)))
            && (!(fits_native(start@) && fits_native(stop@)) ==> result matches Err(Error::Integer(_)))),
{
    if start.len() != stop.len() || start.len() == 0 {
        return Err(
            Error::InvalidOperation(String::from_str("slice bounds must have the same non-zero rank")),
        );
    }
    let start = dimensions(start)?;
    let stop = dimensions(stop)?;
    Ok((start, stop))
}

/// Checks the bounds of a slice update and converts them to native indices.
pub fn slice_update_bounds(start: &[usize], stop: &[usize]) -> (result: Result<(Vec<i32>, Vec<i32>)>)
    ensures
        start@.len() != stop@.len() || start@.len() == 0 ==> (result matches Err(
            Error::InvalidOperation(message),
        ) && message@ == "slice-update bounds must have the same non-zero rank"@),
        start@.len() == stop@.len() && start@.len() > 0 ==> (
            (fits_native(start@) && fits_native(stop@) ==> (result matches Ok((native_start, native_stop))
                && same_indices(native_start@, start@) && same_indices(native_stop@, stop@)))
            && (!(fits_native(start@) && fits_native(stop@)) ==> result matches Err(Error::Integer(_)))),
{
    if start.len() != stop.len() || start.len() == 0 {
        return Err(
            Error::InvalidOperation(
                String::from_str("slice-update bounds must have the same non-zero rank"),
            ),
        );
    }
    let start = dimensions(start)?;
    let stop = dimensions(stop)?;
    Ok((start, stop))
}

/// Checks that a joining operation receives at least one input.
pub fn require_inputs(count: usize, operation: &str) -> (result: Result<()>)
    ensures
        count > 0 ==> result is Ok,
        count == 0 ==> (result matches Err(Error::InvalidOperation(message))
            && message@ == operation@ + " requires at least one input"@),
{
    if count == 0 {
        let mut message = String::from_str(operation);
        message.append(" requires at least one input");
        return Err(Error::InvalidOperation(message));
    }
    Ok(())
}

} // verus!
