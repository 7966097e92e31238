//! Devices a tensor buffer can live on: a device kind plus an index.

use vstd::prelude::*;

verus! {

/// Kinds of devices the interchange ABI knows. Each kind has a fixed numeric
/// code on the wire, given by [`DeviceType::code`].
#[derive(Debug, Copy, Clone, PartialEq, Eq, Structural)]
pub enum DeviceType {
    /// CPU memory.
    Cpu,
    /// CUDA GPU memory.
    Cuda,
    /// Pinned CUDA host memory.
    CudaHost,
    /// OpenCL device memory.
    OpenCl,
    /// Vulkan buffer.
    Vulkan,
    /// Metal buffer for Apple GPUs.
    Metal,
    /// Verilog simulator buffer.
    Vpi,
    /// ROCm GPU memory.
    Rocm,
    /// Pinned ROCm host memory.
    RocmHost,
    /// Reserved extension device kind for quick experiments.
    ExtDev,
    /// CUDA managed or unified memory.
    CudaManaged,
    /// Unified shared memory of a oneAPI device.
    OneApi,
    /// WebGPU buffer.
    WebGpu,
    /// Qualcomm Hexagon DSP memory.
    Hexagon,
    /// Microsoft MAIA device memory.
    Maia,
}

impl DeviceType {
    /// Numeric code of this device kind on the wire.
    pub open spec fn spec_code(self) -> i32 {
        match self {
            DeviceType::Cpu => 1,
            DeviceType::Cuda => 2,
            DeviceType::CudaHost => 3,
            DeviceType::OpenCl => 4,
            DeviceType::Vulkan => 7,
            DeviceType::Metal => 8,
            DeviceType::Vpi => 9,
            DeviceType::Rocm => 10,
            DeviceType::RocmHost => 11,
            DeviceType::ExtDev => 12,
            DeviceType::CudaManaged => 13,
            DeviceType::OneApi => 14,
            DeviceType::WebGpu => 15,
            DeviceType::Hexagon => 16,
            DeviceType::Maia => 17,
        }
    }

    /// The device kind that a wire code denotes, if any.
    pub open spec fn spec_from_code(code: i32) -> Option<DeviceType> {
        if code == 1 {
            Some(DeviceType::Cpu)
        } else if code == 2 {
            Some(DeviceType::Cuda)
        } else if code == 3 {
            Some(DeviceType::CudaHost)
        } else if code == 4 {
            Some(DeviceType::OpenCl)
        } else if code == 7 {
            Some(DeviceType::Vulkan)
        } else if code == 8 {
            Some(DeviceType::Metal)
        } else if code == 9 {
            Some(DeviceType::Vpi)
        } else if code == 10 {
            Some(DeviceType::Rocm)
        } else if code == 11 {
            Some(DeviceType::RocmHost)
        } else if code == 12 {
            Some(DeviceType::ExtDev)
        } else if code == 13 {
            Some(DeviceType::CudaManaged)
        } else if code == 14 {
            Some(DeviceType::OneApi)
        } else if code == 15 {
            Some(DeviceType::WebGpu)
        } else if code == 16 {
            Some(DeviceType::Hexagon)
        } else if code == 17 {
            Some(DeviceType::Maia)
        } else {
            None
        }
    }

    /// Numeric code of this device kind on the wire.
    pub fn code(&self) -> (r: i32)
        ensures
            r == self.spec_code(),
    {
        match self {
            DeviceType::Cpu => 1,
            DeviceType::Cuda => 2,
            DeviceType::CudaHost => 3,
            DeviceType::OpenCl => 4,
            DeviceType::Vulkan => 7,
            DeviceType::Metal => 8,
            DeviceType::Vpi => 9,
            DeviceType::Rocm => 10,
            DeviceType::RocmHost => 11,
            DeviceType::ExtDev => 12,
            DeviceType::CudaManaged => 13,
            DeviceType::OneApi => 14,
            DeviceType::WebGpu => 15,
            DeviceType::Hexagon => 16,
            DeviceType::Maia => 17,
        }
    }

    /// Decode a wire code; codes outside the table are rejected.
    /// Decoding is the inverse of [`DeviceType::code`].
    pub fn from_code(code: i32) -> (r: Option<DeviceType>)
        ensures
            r == DeviceType::spec_from_code(code),
            r matches Some(d) ==> d.spec_code() == code,
            forall|d: DeviceType| d.spec_code() == code ==> r == Some(d),
    {
        if code == 1 {
            Some(DeviceType::Cpu)
        } else if code == 2 {
            Some(DeviceType::Cuda)
        } else if code == 3 {
            Some(DeviceType::CudaHost)
        } else if code == 4 {
            Some(DeviceType::OpenCl)
        } else if code == 7 {
            Some(DeviceType::Vulkan)
        } else if code == 8 {
            Some(DeviceType::Metal)
        } else if code == 9 {
            Some(DeviceType::Vpi)
        } else if code == 10 {
            Some(DeviceType::Rocm)
        } else if code == 11 {
            Some(DeviceType::RocmHost)
        } else if code == 12 {
            Some(DeviceType::ExtDev)
        } else if code == 13 {
            Some(DeviceType::CudaManaged)
        } else if code == 14 {
            Some(DeviceType::OneApi)
        } else if code == 15 {
            Some(DeviceType::WebGpu)
        } else if code == 16 {
            Some(DeviceType::Hexagon)
        } else if code == 17 {
            Some(DeviceType::Maia)
        } else {
            None
        }
    }
}

impl Default for DeviceType {
    fn default() -> (r: Self)
        ensures
            r == DeviceType::Cpu,
    {
        DeviceType::Cpu
    }
}

/// A device holding a tensor buffer: the kind of device and its index. CPU
/// memory, pinned memory and managed memory use index zero.
#[derive(Debug, Copy, Clone, PartialEq, Eq, Structural)]
pub struct Device {
    /// The kind of device.
    pub device_type: DeviceType,
    /// The device index.
    pub device_id: i32,
}

impl Device {
    /// The CPU device, index zero.
    pub fn cpu() -> (r: Self)
        ensures
            r == (Device { device_type: DeviceType::Cpu, device_id: 0i32 }),
    {
        Device { device_type: DeviceType::Cpu, device_id: 0 }
    }

    /// The CUDA device with the given index.
    pub fn cuda(index: usize) -> (r: Self)
        requires
            index <= i32::MAX,
        ensures
            r == (Device { device_type: DeviceType::Cuda, device_id: index as i32 }),
    {
        Device { device_type: DeviceType::Cuda, device_id: index as i32 }
    }
}

impl From<(DeviceType, i32)> for Device {
    /// Assemble a device from the `(kind, index)` pair.
    fn from(value: (DeviceType, i32)) -> (r: Self) {
        Device { device_type: value.0, device_id: value.1 }
    }
}

impl vstd::std_specs::convert::FromSpecImpl<(DeviceType, i32)> for Device {
    open spec fn obeys_from_spec() -> bool {
        true
    }

    open spec fn from_spec(v: (DeviceType, i32)) -> Self {
        Device { device_type: v.0, device_id: v.1 }
    }
}

impl Default for Device {
    fn default() -> (r: Self)
        ensures
            r == (Device { device_type: DeviceType::Cpu, device_id: 0i32 }),
    {
        Device { device_type: DeviceType::Cpu, device_id: 0 }
    }
}

} // verus!
