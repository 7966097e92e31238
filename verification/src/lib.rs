//! A verified model of the DLPack tensor-interchange protocol: the metadata
//! records that describe a shared tensor buffer (device, data type, shape,
//! strides), the layout bookkeeping behind them, the exporter-side manager
//! context, the consumer-side safe handle, and the capsule hand-off state
//! machine that keeps the release obligation unique.

pub mod capsule;
pub mod data_type;
pub mod device;
pub mod dlpack;
pub mod error;
pub mod flags;
pub mod managed_tensor;
pub mod manager_ctx;
pub mod memory_layout;
pub mod memory_order;
pub mod pack_version;
pub mod safe_managed_tensor;
pub mod scalar;
pub mod shape_and_strides;
pub mod std_container;
pub mod tensor;
pub mod traits;

pub use capsule::{Capsule, CapsuleState};
pub use data_type::{DataType, DataTypeCode};
pub use device::{Device, DeviceType};
pub use dlpack::{DLDataType, DLDataTypeCode, DLDevice, DLDeviceType, DLPackVersion, DLTensor};
pub use error::Error;
pub use flags::Flags;
pub use managed_tensor::{ManagedTensor, ManagedTensorVersioned};
pub use manager_ctx::{IntoDLPack, ManagerCtx};
pub use memory_layout::{
    BorrowedLayout, ContiguousLayout, MemoryLayout, RowMajorCompactLayout, StridedLayout,
};
pub use memory_order::{
    MemoryOrder, is_column_major_contiguous, is_row_major_contiguous, make_column_major_strides,
    make_row_major_strides,
};
pub use pack_version::{DLPACK_MAJOR_VERSION, DLPACK_MINOR_VERSION, PackVersion};
pub use safe_managed_tensor::{FromDLPack, SafeManagedTensor, SafeManagedTensorVersioned};
pub use shape_and_strides::ShapeAndStrides;
pub use tensor::Tensor;
pub use traits::{InferDataType, InferDtype, TensorData, TensorLike, ToTensor};
