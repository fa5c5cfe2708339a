use vstd::prelude::*;

use crate::{Error, Result};

verus! {

/// An element type supported by the safe mirtal API.
#[derive(Debug, Clone, Copy, PartialEq, Eq, Hash, Structural)]
pub enum DType {
    /// Boolean values.
    Bool,
    /// Unsigned 32-bit integers.
    Uint32,
    /// Signed 32-bit integers.
    Int32,
    /// IEEE 754 half-precision values.
    Float16,
    /// Brain floating-point values.
    Bfloat16,
    /// IEEE 754 single-precision values.
    Float32,
    /// Unsigned 8-bit integers.
    Uint8,
}

/// The native code that identifies `dtype` at the MLX boundary.
pub open spec fn dtype_code(dtype: DType) -> u8 {
    match dtype {
        DType::Bool => 0,
        DType::Uint32 => 1,
        DType::Int32 => 2,
        DType::Float16 => 3,
        DType::Bfloat16 => 4,
        DType::Float32 => 5,
        DType::Uint8 => 6,
    }
}

/// The dtype whose native code is `value`, if any.
pub open spec fn dtype_of_code(value: u8) -> Option<DType> {
    if value == 0 {
        Some(DType::Bool)
    } else if value == 1 {
        Some(DType::Uint32)
    } else if value == 2 {
        Some(DType::Int32)
    } else if value == 3 {
        Some(DType::Float16)
    } else if value == 4 {
        Some(DType::Bfloat16)
    } else if value == 5 {
        Some(DType::Float32)
    } else if value == 6 {
        Some(DType::Uint8)
    } else {
        None
    }
}

/// Whether `dtype` is one of the floating-point dtypes.
pub open spec fn is_float(dtype: DType) -> bool {
    dtype == DType::Float16 || dtype == DType::Bfloat16 || dtype == DType::Float32
}

/// The name of `dtype` as its `Debug` rendering prints it.
pub open spec fn dtype_name_spec(dtype: DType) -> Seq<char> {
    match dtype {
        DType::Bool => "Bool"@,
        DType::Uint32 => "Uint32"@,
        DType::Int32 => "Int32"@,
        DType::Float16 => "Float16"@,
        DType::Bfloat16 => "Bfloat16"@,
        DType::Float32 => "Float32"@,
        DType::Uint8 => "Uint8"@,
    }
}

impl DType {
    /// Returns the native code of this dtype.
    pub fn code(self) -> (code: u8)
        ensures
            code == dtype_code(self),
    {
        match self {
            DType::Bool => 0,
            DType::Uint32 => 1,
            DType::Int32 => 2,
            DType::Float16 => 3,
            DType::Bfloat16 => 4,
            DType::Float32 => 5,
            DType::Uint8 => 6,
        }
    }

    /// Decodes a native dtype code.
    pub fn try_from(value: u8) -> (result: Result<DType>)
        ensures
            dtype_of_code(value) matches Some(dtype) ==> (result matches Ok(found) && found == dtype),
            dtype_of_code(value) is None ==> (result matches Err(Error::UnsupportedDtype(code))
                && code == value),
    {
        match value {
            0 => Ok(DType::Bool),
            1 => Ok(DType::Uint32),
            2 => Ok(DType::Int32),
            3 => Ok(DType::Float16),
            4 => Ok(DType::Bfloat16),
            5 => Ok(DType::Float32),
            6 => Ok(DType::Uint8),
            _ => Err(Error::UnsupportedDtype(value)),
        }
    }

    /// Returns the name printed for this dtype in diagnostics.
    pub fn name(self) -> (name: &'static str)
        ensures
            name@ == dtype_name_spec(self),
    {
        match self {
            DType::Bool => "Bool",
            DType::Uint32 => "Uint32",
            DType::Int32 => "Int32",
            DType::Float16 => "Float16",
            DType::Bfloat16 => "Bfloat16",
            DType::Float32 => "Float32",
            DType::Uint8 => "Uint8",
        }
    }

    /// Returns whether this dtype is floating point.
    pub fn is_float(self) -> (float: bool)
        ensures
            float == is_float(self),
    {
        matches!(self, DType::Float16 | DType::Bfloat16 | DType::Float32)
    }
}

/// Decoding the native code of a dtype gives the dtype back.
pub proof fn lemma_code_round_trip(dtype: DType)
    ensures
        dtype_of_code(dtype_code(dtype)) == Some(dtype),
{
}

/// A code that decodes to a dtype is that dtype's native code.
pub proof fn lemma_decode_round_trip(value: u8)
    ensures
        dtype_of_code(value) matches Some(dtype) ==> dtype_code(dtype) == value,
{
}

/// The floating-point dtypes are exactly `Float16`, `Bfloat16` and
/// `Float32`: the native codes 3 to 5. Booleans and integers are not
/// floating point.
pub proof fn lemma_float_dtypes(dtype: DType)
    ensures
        is_float(dtype) <==> (dtype == DType::Float16 || dtype == DType::Bfloat16 || dtype == DType::Float32),
        is_float(dtype) <==> (3 <= dtype_code(dtype) && dtype_code(dtype) <= 5),
        !is_float(DType::Bool) && !is_float(DType::Uint32) && !is_float(DType::Int32) && !is_float(DType::Uint8),
{
}

/// The native codes number the dtypes in declaration order: `Bool` 0,
/// `Uint32` 1, `Int32` 2, `Float16` 3, `Bfloat16` 4, `Float32` 5 and
/// `Uint8` 6.
pub proof fn lemma_dtype_codes()
    ensures
        dtype_code(DType::Bool) == 0,
        dtype_code(DType::Uint32) == 1,
        dtype_code(DType::Int32) == 2,
        dtype_code(DType::Float16) == 3,
        dtype_code(DType::Bfloat16) == 4,
        dtype_code(DType::Float32) == 5,
        dtype_code(DType::Uint8) == 6,
{
}

/// Each dtype's name is the name of its variant.
pub proof fn lemma_dtype_names()
    ensures
        dtype_name_spec(DType::Bool) == seq!['B', 'o', 'o', 'l'],
        dtype_name_spec(DType::Uint32) == seq!['U', 'i', 'n', 't', '3', '2'],
        dtype_name_spec(DType::Int32) == seq!['I', 'n', 't', '3', '2'],
        dtype_name_spec(DType::Float16) == seq!['F', 'l', 'o', 'a', 't', '1', '6'],
        dtype_name_spec(DType::Bfloat16) == seq!['B', 'f', 'l', 'o', 'a', 't', '1', '6'],
        dtype_name_spec(DType::Float32) == seq!['F', 'l', 'o', 'a', 't', '3', '2'],
        dtype_name_spec(DType::Uint8) == seq!['U', 'i', 'n', 't', '8'],
{
    reveal_strlit("Bool");
    reveal_strlit("Uint32");
    reveal_strlit("Int32");
    reveal_strlit("Float16");
    reveal_strlit("Bfloat16");
    reveal_strlit("Float32");
    reveal_strlit("Uint8");
    assert("Bool"@ =~= seq!['B', 'o', 'o', 'l']);
    assert("Uint32"@ =~= seq!['U', 'i', 'n', 't', '3', '2']);
    assert("Int32"@ =~= seq!['I', 'n', 't', '3', '2']);
    assert("Float16"@ =~= seq!['F', 'l', 'o', 'a', 't', '1', '6']);
    assert("Bfloat16"@ =~= seq!['B', 'f', 'l', 'o', 'a', 't', '1', '6']);
    assert("Float32"@ =~= seq!['F', 'l', 'o', 'a', 't', '3', '2']);
    assert("Uint8"@ =~= seq!['U', 'i', 'n', 't', '8']);
}

} // verus!
