use vstd::prelude::*;

verus! {

/// Result type returned by mirtal operations.
pub type Result<T> = std::result::Result<T, Error>;

/// An error produced by validation, MLX, or the native boundary.
#[derive(Debug)]
pub enum Error {
    /// The native MLX operation raised an exception with this message.
    Native(String),
    /// A native constructor unexpectedly returned a null handle.
    NullHandle(&'static str),
    /// Host data length does not match the requested shape.
    Shape {
        /// Requested dimensions.
        shape: Vec<usize>,
        /// Element count implied by `shape`.
        elements: usize,
        /// Number of supplied host elements.
        data: usize,
    },
    /// Multiplying shape dimensions overflowed `usize`.
    ShapeOverflow,
    /// A value could not be represented by the native integer type.
    Integer(std::num::TryFromIntError),
    /// A path could not be represented as UTF-8 for the native API.
    InvalidPath(std::path::PathBuf),
    /// MLX returned a dtype code unknown to mirtal.
    UnsupportedDtype(u8),
    /// An array's dtype did not satisfy an operation's contract.
    DtypeMismatch {
        /// Dtype found on the array.
        actual: crate::DType,
        /// Dtype required by the operation.
        expected: crate::DType,
    },
    /// A native result contained an unexpected number of arrays.
    Arity {
        /// Operation whose arity was checked.
        operation: &'static str,
        /// Required number of arrays.
        expected: usize,
        /// Observed number of arrays.
        actual: usize,
    },
    /// A compiled graph was called on a different stream.
    StreamMismatch {
        /// Identifier of the creating stream.
        expected: u64,
        /// Identifier of the supplied stream.
        actual: u64,
    },
    /// A Metal kernel or library descriptor is invalid.
    InvalidKernel(String),
    /// Metal launch geometry or bindings are invalid.
    InvalidDispatch(String),
    /// An affine quantization configuration is invalid.
    InvalidQuantization(String),
    /// A rotary-position-encoding configuration is invalid.
    InvalidRope(String),
    /// An attention configuration is invalid.
    InvalidAttention(String),
    /// A generic graph operation received invalid arguments.
    InvalidOperation(String),
}

/// Declares the path type carried by [`Error::InvalidPath`].
#[verifier::external_type_specification]
#[verifier::external_body]
pub struct ExPathBuf(std::path::PathBuf);

} // verus!
