//! Rotary-position-encoding configuration checks.

use vstd::prelude::*;

use crate::{Error, Result};

verus! {

/// Parameters for rotary position encoding with supplied frequencies.
#[derive(Debug, Clone, Copy, PartialEq, Eq, Structural)]
pub struct FrequencyRopeOptions {
    /// Number of trailing feature dimensions to rotate; must be positive and even.
    pub dimensions: usize,
    /// Whether to use the traditional pairing layout.
    pub traditional: bool,
    /// Starting token-position offset.
    pub offset: usize,
}

/// The message of a rejected rotary dimension count.
pub open spec fn dimensions_message() -> Seq<char> {
    "dimensions must be positive and even"@
}

/// Validates a rotary dimension count and converts it to the native type.
pub fn dimensions(value: usize) -> (result: Result<i32>)
    ensures
        value == 0 || value % 2 == 1 ==> (result matches Err(Error::InvalidRope(message))
            && message@ == dimensions_message()),
        value > 0 && value % 2 == 0 && value <= i32::MAX ==> (result matches Ok(native)
            && native == value),
        value > 0 && value % 2 == 0 && value > i32::MAX ==> result matches Err(Error::Integer(_)),
{
    if value == 0 || value % 2 != 0 {
        return Err(Error::InvalidRope(String::from_str("dimensions must be positive and even")));
    }
    match i32::try_from(value) {
        Ok(native) => Ok(native),
        Err(error) => Err(Error::Integer(error)),
    }
}

/// The native arguments of a frequency-driven rotary encoding.
#[derive(Debug, Clone, Copy, PartialEq, Eq, Structural)]
pub struct NativeFrequencyRope {
    /// Rotated feature dimensions.
    pub dimensions: i32,
    /// Whether to use the traditional pairing layout.
    pub traditional: bool,
    /// Starting token-position offset.
    pub offset: i32,
}

impl FrequencyRopeOptions {
    /// Validates the options and converts them to native arguments, checking
    /// the dimension count before the offset.
    pub fn native(self) -> (result: Result<NativeFrequencyRope>)
        ensures
            self.dimensions == 0 || self.dimensions % 2 == 1 ==> (result matches Err(
                Error::InvalidRope(message),
            ) && message@ == dimensions_message()),
            self.dimensions > 0 && self.dimensions % 2 == 0 && (self.dimensions > i32::MAX
                || self.offset > i32::MAX) ==> result matches Err(Error::Integer(_)),
            self.dimensions > 0 && self.dimensions % 2 == 0 && self.dimensions <= i32::MAX
                && self.offset <= i32::MAX ==> (result matches Ok(native) && native.dimensions
                == self.dimensions && native.traditional == self.traditional && native.offset
                == self.offset),
    {
        let dimensions = dimensions(self.dimensions)?;
        let offset = match i32::try_from(self.offset) {
            Ok(offset) => offset,
            Err(error) => return Err(Error::Integer(error)),
        };
        Ok(NativeFrequencyRope { dimensions, traditional: self.traditional, offset })
    }
}

} // verus!
