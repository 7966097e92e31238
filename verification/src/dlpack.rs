//! The interchange header's own names for the records this crate models,
//! for readers coming from the C side of the boundary.

use vstd::prelude::*;

use crate::data_type::{DataType, DataTypeCode};
use crate::device::{Device, DeviceType};
use crate::pack_version::PackVersion;
use crate::tensor::Tensor;

verus! {

/// The header's name for [`PackVersion`].
pub type DLPackVersion = PackVersion;

/// The header's name for [`DeviceType`].
pub type DLDeviceType = DeviceType;

/// The header's name for [`Device`].
pub type DLDevice = Device;

/// The header's name for [`DataTypeCode`].
pub type DLDataTypeCode = DataTypeCode;

/// The header's name for [`DataType`].
pub type DLDataType = DataType;

/// The header's name for [`Tensor`].
pub type DLTensor = Tensor;

} // verus!
