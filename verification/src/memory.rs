//! Process-wide MLX memory accounting.

use vstd::prelude::*;

verus! {

/// A snapshot of MLX allocator statistics, in bytes.
#[derive(Debug, Clone, Copy, PartialEq, Eq, Structural)]
pub struct MemoryStats {
    /// Bytes currently held by live arrays.
    pub active: usize,
    /// Bytes retained in the allocator cache.
    pub cached: usize,
    /// Peak active allocation in bytes.
    pub peak: usize,
    /// Current process memory limit in bytes.
    pub limit: usize,
    /// Platform-recommended working-set limit in bytes.
    pub recommended: usize,
}

} // verus!
