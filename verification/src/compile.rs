use vstd::prelude::*;

use crate::{Error, Result};

verus! {

/// Controls how MLX compiles a graph function.
#[derive(Debug, Clone, Copy)]
pub struct CompileOptions {
    /// Allows calls whose input shapes differ from those used during tracing.
    pub shapeless: bool,
}

impl CompileOptions {
    /// Creates options for shape-polymorphic compilation.
    pub fn shapeless() -> (options: Self)
        ensures
            options.shapeless,
    {
        Self { shapeless: true }
    }
}

impl Default for CompileOptions {
    /// Keeps MLX's default shape-specialized compilation.
    fn default() -> (options: Self)
        ensures
            !options.shapeless,
    {
        Self { shapeless: false }
    }
}

/// Checks that a compiled graph is called on the stream that created it.
pub fn check_stream(expected: u64, actual: u64) -> (result: Result<()>)
    ensures
        expected == actual ==> result is Ok,
        expected != actual ==> (result matches Err(Error::StreamMismatch { expected: e, actual: a })
            && e == expected && a == actual),
{
    if expected != actual {
        return Err(Error::StreamMismatch { expected, actual });
    }
    Ok(())
}

/// Checks that an operation produced exactly the number of arrays it declares.
pub fn check_arity(operation: &'static str, expected: usize, actual: usize) -> (result: Result<()>)
    ensures
        expected == actual ==> result is Ok,
        expected != actual ==> (result matches Err(Error::Arity { operation: o, expected: e, actual: a })
            && o == operation && e == expected && a == actual),
{
    if actual != expected {
        return Err(Error::Arity { operation, expected, actual });
    }
    Ok(())
}

} // verus!
