use vstd::prelude::*;

use crate::{Error, Result};

verus! {

/// A class of MLX execution device.
#[derive(Debug, Clone, Copy, PartialEq, Eq, Hash, Structural)]
pub enum DeviceKind {
    /// A CPU device.
    Cpu,
    /// A Metal GPU device.
    Gpu,
}

/// Identifies an MLX execution device by kind and index.
#[derive(Debug, Clone, Copy, PartialEq, Eq, Hash, Structural)]
pub struct Device {
    kind: DeviceKind,
    index: u32,
}

impl Device {
    /// The class of this device.
    pub closed spec fn kind_of(self) -> DeviceKind {
        self.kind
    }

    /// The index of this device within its class.
    pub closed spec fn index_of(self) -> u32 {
        self.index
    }

    /// Selects the CPU with `index`.
    pub fn cpu(index: u32) -> (device: Self)
        ensures
            device.kind_of() == DeviceKind::Cpu,
            device.index_of() == index,
    {
        Self { kind: DeviceKind::Cpu, index }
    }

    /// Selects the GPU with `index`.
    pub fn gpu(index: u32) -> (device: Self)
        ensures
            device.kind_of() == DeviceKind::Gpu,
            device.index_of() == index,
    {
        Self { kind: DeviceKind::Gpu, index }
    }

    /// Returns the native code of this device's class: 0 for CPU, 1 for GPU.
    pub fn native_kind(self) -> (code: u8)
        ensures
            code == (if self.kind_of() == DeviceKind::Cpu { 0u8 } else { 1u8 }),
    {
        match self.kind {
            DeviceKind::Cpu => 0,
            DeviceKind::Gpu => 1,
        }
    }

    /// Returns the device index as the native `i32` index type.
    pub fn native_index(self) -> (result: Result<i32>)
        ensures
            self.index_of() <= i32::MAX ==> (result matches Ok(native) && native == self.index_of()),
            self.index_of() > i32::MAX ==> result matches Err(Error::Integer(_)),
    {
        match i32::try_from(self.index as usize) {
            Ok(native) => Ok(native),
            Err(error) => Err(Error::Integer(error)),
        }
    }
}

/// Two devices are the same device exactly when their kinds and indices
/// agree: `Device::cpu(i) == Device::cpu(j)` exactly when `i == j`, and no
/// CPU device equals a GPU device.
pub proof fn lemma_device_identity(left: Device, right: Device)
    ensures
        (left == right) <==> (left.kind_of() == right.kind_of() && left.index_of() == right.index_of()),
{
}

} // verus!
