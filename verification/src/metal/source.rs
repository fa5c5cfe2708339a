use vstd::prelude::*;

verus! {

/// Statically owned Metal source and its diagnostic origin.
#[derive(Debug, Clone, Copy, PartialEq, Eq)]
pub struct MetalSource {
    code: &'static str,
    origin: &'static str,
}

impl MetalSource {
    /// The Metal source code.
    pub closed spec fn code_of(self) -> &'static str {
        self.code
    }

    /// The label used for this source in diagnostics.
    pub closed spec fn origin_of(self) -> &'static str {
        self.origin
    }

    /// Creates a source value from code validated at build time.
    pub fn new(code: &'static str, origin: &'static str) -> (source: Self)
        ensures
            source.code_of() == code,
            source.origin_of() == origin,
    {
        Self { code, origin }
    }

    /// Creates an empty optional source fragment.
    pub fn empty() -> (source: Self)
        ensures
            source.code_of()@ == ""@,
            source.origin_of()@ == "<empty>"@,
    {
        Self::new("", "<empty>")
    }

    /// Returns the Metal source code.
    pub fn code(self) -> (code: &'static str)
        ensures
            code == self.code_of(),
    {
        self.code
    }

    /// Returns the source label used in diagnostics.
    pub fn origin(self) -> (origin: &'static str)
        ensures
            origin == self.origin_of(),
    {
        self.origin
    }
}

} // verus!
