use vstd::prelude::*;

use super::aliasing::{AliasingDispatch, PreparedAliasing, aliasing_ok, aliasing_message, dims_fit_u32, native_grid, validate};
use super::contract::reports_kernel;
use super::MetalSource;
use crate::dtype::dtype_name_spec;
use crate::{DType, Error, Result};

verus! {

/// Checked source used to construct a complete Metal library.
#[derive(Debug, Clone, Copy)]
pub struct MetalLibraryDescriptor {
    /// Human-readable library name.
    pub name: &'static str,
    /// Complete Metal translation unit validated at build time.
    pub source: MetalSource,
}

/// A complete Metal translation unit accepted for compilation, from which
/// checked functions are exported.
#[derive(Debug)]
pub struct MetalLibrary {
    name: &'static str,
    source: MetalSource,
}

/// What is wrong with a library descriptor.
pub open spec fn library_fault(descriptor: MetalLibraryDescriptor) -> Option<Seq<char>> {
    if descriptor.name@.len() == 0 || descriptor.source.code_of()@.len() == 0 {
        Some("Metal library from "@ + descriptor.source.origin_of()@ + " has an empty name or source"@)
    } else {
        None
    }
}

/// The function-name suffix conventionally used for a floating-point dtype.
pub open spec fn dtype_suffix(dtype: DType) -> Option<Seq<char>> {
    match dtype {
        DType::Float32 => Some("f32"@),
        DType::Float16 => Some("f16"@),
        DType::Bfloat16 => Some("bf16"@),
        _ => None,
    }
}

impl MetalLibrary {
    /// The library's name.
    pub closed spec fn name_of(&self) -> &'static str {
        self.name
    }

    /// The library's source.
    pub closed spec fn source_of(&self) -> MetalSource {
        self.source
    }

    /// Accepts a complete, previously validated Metal translation unit with a
    /// non-empty name and source.
    pub fn new(descriptor: MetalLibraryDescriptor) -> (result: Result<Self>)
        ensures
            reports_kernel(result, library_fault(descriptor)),
            result matches Ok(library) ==> library.name_of() == descriptor.name
                && library.source_of() == descriptor.source,
    {
        if descriptor.name.is_empty() || descriptor.source.code().is_empty() {
            let mut message = String::from_str("Metal library from ");
            message.append(descriptor.source.origin());
            message.append(" has an empty name or source");
            return Err(Error::InvalidKernel(message));
        }
        Ok(Self { name: descriptor.name, source: descriptor.source })
    }

    /// Selects a non-empty named function from this library.
    pub fn export(&self, name: String) -> (result: Result<MetalFunction<'_>>)
        ensures
            name@.len() == 0 ==> (result matches Err(Error::InvalidKernel(message))
                && message@ == "Metal export name is empty"@),
            name@.len() > 0 ==> (result matches Ok(function) && function.name_of() == name@
                && function.library_of() == self),
    {
        if name.as_str().is_empty() {
            return Err(Error::InvalidKernel(String::from_str("Metal export name is empty")));
        }
        Ok(MetalFunction { library: self, name })
    }
}

/// A named function exported from a checked [`MetalLibrary`].
#[derive(Debug)]
pub struct MetalFunction<'library> {
    library: &'library MetalLibrary,
    name: String,
}

impl<'library> MetalFunction<'library> {
    /// The exported function name.
    pub closed spec fn name_of(&self) -> Seq<char> {
        self.name@
    }

    /// The library the function is exported from.
    pub closed spec fn library_of(&self) -> &'library MetalLibrary {
        self.library
    }

    /// Returns the exported function name.
    pub fn name(&self) -> (name: &str)
        ensures
            name@ == self.name_of(),
    {
        self.name.as_str()
    }

    /// Appends mirtal's conventional suffix for a floating-point dtype.
    pub fn with_dtype_suffix(self, dtype: DType) -> (result: Result<Self>)
        ensures
            dtype_suffix(dtype) matches Some(suffix) ==> (result matches Ok(function)
                && function.name_of() == self.name_of() + "_"@ + suffix && function.library_of()
                == self.library_of()),
            dtype_suffix(dtype) is None ==> (result matches Err(Error::InvalidKernel(message))
                && message@ == "no Metal suffix for "@ + dtype_name_spec(dtype)),
    {
        let suffix = match dtype {
            DType::Float32 => "f32",
            DType::Float16 => "f16",
            DType::Bfloat16 => "bf16",
            _ => {
                let mut message = String::from_str("no Metal suffix for ");
                message.append(dtype.name());
                return Err(Error::InvalidKernel(message));
            },
        };
        let mut name = self.name;
        name.append("_");
        name.append(suffix);
        Ok(MetalFunction { library: self.library, name })
    }

    /// Checks an aliasing dispatch over `input_arity` inputs and converts its
    /// geometry to native dimensions.
    pub fn check_aliasing(&self, input_arity: usize, dispatch: &AliasingDispatch) -> (result: Result<
        ([u32; 3], [u32; 3]),
    >)
        ensures
            !aliasing_ok(input_arity as nat, *dispatch) ==> (result matches Err(
                Error::InvalidDispatch(message),
            ) && message@ == aliasing_message()),
            aliasing_ok(input_arity as nat, *dispatch) && !(dims_fit_u32(dispatch.grid)
                && dims_fit_u32(dispatch.threadgroup)) ==> result matches Err(Error::Integer(_)),
            aliasing_ok(input_arity as nat, *dispatch) && dims_fit_u32(dispatch.grid)
                && dims_fit_u32(dispatch.threadgroup) ==> (result matches Ok((grid, group))
                && grid@ == dispatch.grid@.map_values(|value: usize| value as u32)
                && group@ == dispatch.threadgroup@.map_values(|value: usize| value as u32)),
    {
        validate(input_arity, dispatch)?;
        let grid = native_grid(dispatch.grid)?;
        let group = native_grid(dispatch.threadgroup)?;
        proof {
            assert(grid@ =~= dispatch.grid@.map_values(|value: usize| value as u32));
            assert(group@ =~= dispatch.threadgroup@.map_values(|value: usize| value as u32));
        }
        Ok((grid, group))
    }

    /// Prepares this function for repeated aliasing dispatches.
    pub fn prepare_aliasing<const INPUTS: usize, const OUTPUTS: usize>(
        &self,
        dispatch: AliasingDispatch,
    ) -> (result: Result<PreparedAliasing<INPUTS, OUTPUTS>>)
        ensures
            !aliasing_ok(INPUTS as nat, dispatch) ==> (result matches Err(
                Error::InvalidDispatch(message),
            ) && message@ == aliasing_message()),
            aliasing_ok(INPUTS as nat, dispatch) && dispatch.output_aliases@.len() != OUTPUTS ==> (
            result matches Err(Error::Arity { operation, expected, actual })
                && operation@ == "prepared aliasing outputs"@ && expected == OUTPUTS
                && actual == dispatch.output_aliases@.len()),
            aliasing_ok(INPUTS as nat, dispatch) && dispatch.output_aliases@.len() == OUTPUTS ==> (
            result matches Ok(prepared) && prepared.dispatch_of() == dispatch),
    {
        PreparedAliasing::prepare(dispatch)
    }
}

/// The suffix of each floating-point dtype is its Rust element name:
/// `Float16` is `f16`, `Bfloat16` is `bf16` and `Float32` is `f32`; other
/// dtypes have none, and distinct dtypes have distinct suffixes.
pub proof fn lemma_dtype_suffixes(dtype: DType, other: DType)
    ensures
        dtype == DType::Float16 ==> dtype_suffix(dtype) == Some(seq!['f', '1', '6']),
        dtype == DType::Bfloat16 ==> dtype_suffix(dtype) == Some(seq!['b', 'f', '1', '6']),
        dtype == DType::Float32 ==> dtype_suffix(dtype) == Some(seq!['f', '3', '2']),
        !(dtype == DType::Float16 || dtype == DType::Bfloat16 || dtype == DType::Float32) ==> dtype_suffix(
            dtype,
        ) is None,
        dtype_suffix(dtype) is Some && dtype_suffix(dtype) == dtype_suffix(other) ==> dtype == other,
{
    reveal_strlit("f16");
    reveal_strlit("bf16");
    reveal_strlit("f32");
    assert("f16"@ =~= seq!['f', '1', '6']);
    assert("bf16"@ =~= seq!['b', 'f', '1', '6']);
    assert("f32"@ =~= seq!['f', '3', '2']);
    assert(seq!['f', '1', '6'] != seq!['f', '3', '2']) by {
        assert(seq!['f', '1', '6'][1] != seq!['f', '3', '2'][1]);
    }
}

/// A library descriptor is accepted exactly when both its name and its
/// source code are non-empty.
pub proof fn lemma_library_accepted(descriptor: MetalLibraryDescriptor)
    ensures
        library_fault(descriptor) is None <==> (descriptor.name@.len() > 0 && descriptor.source.code_of()@.len()
            > 0),
{
}

} // verus!
