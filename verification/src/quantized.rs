use vstd::prelude::*;

use crate::{Error, Result};

verus! {

/// Whether `bits` is an affine bit width that MLX implements.
pub open spec fn supported_bits(bits: i32) -> bool {
    bits == 2 || bits == 3 || bits == 4 || bits == 5 || bits == 6 || bits == 8
}

/// Affine quantization format shared by weights, scales, and biases.
#[derive(Debug, Clone, Copy, PartialEq, Eq, Hash, Structural)]
pub struct Quantization {
    group_size: i32,
    bits: i32,
}

impl Quantization {
    /// The number of values that share one scale and bias.
    pub closed spec fn group_size_of(self) -> i32 {
        self.group_size
    }

    /// The number of bits per packed value.
    pub closed spec fn bits_of(self) -> i32 {
        self.bits
    }

    /// A format always has a positive group size and a supported bit width.
    #[verifier::type_invariant]
    spec fn well_formed(self) -> bool {
        self.group_size > 0 && supported_bits(self.bits)
    }

    /// Creates a validated affine quantization format.
    pub fn new(group_size: i32, bits: i32) -> (result: Result<Quantization>)
        ensures
            group_size > 0 && supported_bits(bits) ==> (result matches Ok(format)
                && format.group_size_of() == group_size && format.bits_of() == bits),
            group_size <= 0 ==> (result matches Err(Error::InvalidQuantization(message))
                && message@ == "group size must be positive"@),
            group_size > 0 && !supported_bits(bits) ==> (result matches Err(
                Error::InvalidQuantization(message),
            ) && message@ == "unsupported affine bit width"@),
    {
        if group_size <= 0 {
            return Err(Error::InvalidQuantization(String::from_str("group size must be positive")));
        }
        if !matches!(bits, 2 | 3 | 4 | 5 | 6 | 8) {
            return Err(Error::InvalidQuantization(String::from_str("unsupported affine bit width")));
        }
        Ok(Self { group_size, bits })
    }
}

/// Options for gathered quantized matrix multiplication.
#[derive(Debug, Clone, Copy, PartialEq, Eq, Hash, Structural)]
pub struct GatherQmmOptions {
    /// Treats the quantized right-hand matrix as transposed.
    pub transpose: bool,
    /// Indicates that `rhs_indices` is already sorted.
    pub sorted_indices: bool,
}

impl Default for GatherQmmOptions {
    /// Neither transposed nor sorted.
    fn default() -> (options: Self)
        ensures
            !options.transpose,
            !options.sorted_indices,
    {
        Self { transpose: false, sorted_indices: false }
    }
}

/// The quantization options handed to the native quantized kernels.
#[derive(Debug, Clone, Copy, PartialEq, Eq, Structural)]
pub struct QuantizationOptions {
    /// Number of values per quantization group.
    pub group_size: i32,
    /// Bits per packed value.
    pub bits: i32,
    /// Treats the quantized matrix as transposed.
    pub transpose: bool,
    /// Indicates that gather indices are already sorted.
    pub sorted_indices: bool,
}

/// Combines a format with the matrix-product flags for a native call.
pub fn native_options(format: Quantization, transpose: bool, sorted_indices: bool) -> (options:
    QuantizationOptions)
    ensures
        options.group_size == format.group_size_of(),
        options.bits == format.bits_of(),
        options.transpose == transpose,
        options.sorted_indices == sorted_indices,
{
    QuantizationOptions { group_size: format.group_size, bits: format.bits, transpose, sorted_indices }
}

/// The affine bit widths accepted are exactly 2, 3, 4, 5, 6 and 8.
pub proof fn lemma_supported_bits(bits: i32)
    ensures
        supported_bits(bits) <==> (2 <= bits && bits <= 8 && bits != 7),
{
}

} // verus!
