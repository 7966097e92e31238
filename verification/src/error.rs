//! Errors of the fallible operations: typed access with the wrong element
//! size, contiguous access to a strided tensor, and adapter-level shape or
//! type mismatches. The release and hand-off machinery itself is infallible:
//! a missing deleter means there is nothing to do, not an error.

use vstd::prelude::*;

use crate::device::DeviceType;
use crate::memory_order::MemoryOrder;

verus! {

/// What went wrong in a fallible operation on a tensor.
#[derive(Debug)]
pub enum Error {
    /// A typed slice was requested with an element size other than the
    /// tensor's element size.
    DataTypeSizeMismatch { actual: usize, expected: usize },
    /// A tensor's shape is not the shape the operation needs.
    ShapeMismatch { expected: Vec<i64>, actual: Vec<i64> },
    /// Contiguous access was requested on a tensor whose strides are neither
    /// row-major nor column-major contiguous.
    NonContiguous { shape: Vec<i64>, strides: Vec<i64> },
    /// The tensor's memory order is not the one the operation needs.
    UnsupportedMemoryOrder { order: MemoryOrder, expected: MemoryOrder },
    /// The tensor's element type is not one the operation supports.
    UnsupportedDataType { name: String },
    /// The tensor lives on a device the operation does not support.
    UnsupportedDevice { device: DeviceType },
    /// An adapter handed over a tensor with the wrong number of dimensions.
    InvalidDimensions { expected: usize, actual: usize },
    /// An adapter handed over an image with the wrong number of channels.
    InvalidChannels { expected: i64, actual: i64 },
}

} // verus!
