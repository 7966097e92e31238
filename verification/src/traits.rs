//! The capability traits through which a native container describes itself
//! as tensor data, and through which consumers read the data back.

use vstd::prelude::*;

use crate::data_type::DataType;
use crate::device::Device;
use crate::memory_layout::MemoryLayout;
use crate::shape_and_strides::ShapeAndStrides;

verus! {

broadcast use vstd::layout::layout_of_primitives;

/// An element type whose interchange data type is known statically. The
/// reported data type's size in bytes is the size of the type itself, so a
/// typed slice of the exported buffer is exact.
pub trait InferDataType: Sized {
    /// The data type this element type is described as.
    spec fn spec_data_type() -> DataType;

    /// The reported data type's size in bytes is the size of the type
    /// itself, so a typed slice of an exported buffer is exact.
    proof fn lemma_data_type_size()
        ensures
            Self::spec_data_type().spec_size() == vstd::layout::size_of::<Self>(),
    ;

    /// The data type this element type is described as.
    fn data_type() -> (r: DataType)
        ensures
            r == Self::spec_data_type(),
            r.spec_size() == vstd::layout::size_of::<Self>(),
    ;
}

/// The older name of [`InferDataType`]; every type with a statically known
/// data type infers it the same way under both names.
pub trait InferDtype: Sized {
    /// The data type this element type is described as.
    spec fn spec_infer_dtype() -> DataType;

    /// The data type this element type is described as.
    fn infer_dtype() -> (r: DataType)
        ensures
            r == Self::spec_infer_dtype(),
            r.spec_size() == vstd::layout::size_of::<Self>(),
    ;
}

impl<T: InferDataType> InferDtype for T {
    open spec fn spec_infer_dtype() -> DataType {
        T::spec_data_type()
    }

    fn infer_dtype() -> (r: DataType) {
        T::data_type()
    }
}

impl InferDataType for bool {
    open spec fn spec_data_type() -> DataType {
        DataType { code: crate::data_type::DataTypeCode::Bool, bits: 8u8, lanes: 1u16 }
    }

    proof fn lemma_data_type_size() {
        assert(<bool as InferDataType>::spec_data_type() == (DataType {
            code: crate::data_type::DataTypeCode::Bool,
            bits: 8u8,
            lanes: 1u16,
        }));
        assert(vstd::layout::size_of::<bool>() == 1);
    }

    fn data_type() -> (r: DataType) {
        DataType::bool_()
    }
}

impl InferDataType for u8 {
    open spec fn spec_data_type() -> DataType {
        DataType { code: crate::data_type::DataTypeCode::UInt, bits: 8u8, lanes: 1u16 }
    }

    proof fn lemma_data_type_size() {
        assert(<u8 as InferDataType>::spec_data_type() == (DataType {
            code: crate::data_type::DataTypeCode::UInt,
            bits: 8u8,
            lanes: 1u16,
        }));
        assert(vstd::layout::size_of::<u8>() == 1);
    }

    fn data_type() -> (r: DataType) {
        DataType::unsigned(8)
    }
}

impl InferDataType for u16 {
    open spec fn spec_data_type() -> DataType {
        DataType { code: crate::data_type::DataTypeCode::UInt, bits: 16u8, lanes: 1u16 }
    }

    proof fn lemma_data_type_size() {
        assert(<u16 as InferDataType>::spec_data_type() == (DataType {
            code: crate::data_type::DataTypeCode::UInt,
            bits: 16u8,
            lanes: 1u16,
        }));
        assert(vstd::layout::size_of::<u16>() == 2);
    }

    fn data_type() -> (r: DataType) {
        DataType::unsigned(16)
    }
}

impl InferDataType for u32 {
    open spec fn spec_data_type() -> DataType {
        DataType { code: crate::data_type::DataTypeCode::UInt, bits: 32u8, lanes: 1u16 }
    }

    proof fn lemma_data_type_size() {
        assert(<u32 as InferDataType>::spec_data_type() == (DataType {
            code: crate::data_type::DataTypeCode::UInt,
            bits: 32u8,
            lanes: 1u16,
        }));
        assert(vstd::layout::size_of::<u32>() == 4);
    }

    fn data_type() -> (r: DataType) {
        DataType::unsigned(32)
    }
}

impl InferDataType for u64 {
    open spec fn spec_data_type() -> DataType {
        DataType { code: crate::data_type::DataTypeCode::UInt, bits: 64u8, lanes: 1u16 }
    }

    proof fn lemma_data_type_size() {
        assert(<u64 as InferDataType>::spec_data_type() == (DataType {
            code: crate::data_type::DataTypeCode::UInt,
            bits: 64u8,
            lanes: 1u16,
        }));
        assert(vstd::layout::size_of::<u64>() == 8);
    }

    fn data_type() -> (r: DataType) {
        DataType::unsigned(64)
    }
}

impl InferDataType for u128 {
    open spec fn spec_data_type() -> DataType {
        DataType { code: crate::data_type::DataTypeCode::UInt, bits: 128u8, lanes: 1u16 }
    }

    proof fn lemma_data_type_size() {
        assert(<u128 as InferDataType>::spec_data_type() == (DataType {
            code: crate::data_type::DataTypeCode::UInt,
            bits: 128u8,
            lanes: 1u16,
        }));
        assert(vstd::layout::size_of::<u128>() == 16);
    }

    fn data_type() -> (r: DataType) {
        DataType::unsigned(128)
    }
}

impl InferDataType for i8 {
    open spec fn spec_data_type() -> DataType {
        DataType { code: crate::data_type::DataTypeCode::Int, bits: 8u8, lanes: 1u16 }
    }

    proof fn lemma_data_type_size() {
        assert(<i8 as InferDataType>::spec_data_type() == (DataType {
            code: crate::data_type::DataTypeCode::Int,
            bits: 8u8,
            lanes: 1u16,
        }));
        assert(vstd::layout::size_of::<i8>() == 1);
    }

    fn data_type() -> (r: DataType) {
        DataType::signed(8)
    }
}

impl InferDataType for i16 {
    open spec fn spec_data_type() -> DataType {
        DataType { code: crate::data_type::DataTypeCode::Int, bits: 16u8, lanes: 1u16 }
    }

    proof fn lemma_data_type_size() {
        assert(<i16 as InferDataType>::spec_data_type() == (DataType {
            code: crate::data_type::DataTypeCode::Int,
            bits: 16u8,
            lanes: 1u16,
        }));
        assert(vstd::layout::size_of::<i16>() == 2);
    }

    fn data_type() -> (r: DataType) {
        DataType::signed(16)
    }
}

impl InferDataType for i32 {
    open spec fn spec_data_type() -> DataType {
        DataType { code: crate::data_type::DataTypeCode::Int, bits: 32u8, lanes: 1u16 }
    }

    proof fn lemma_data_type_size() {
        assert(<i32 as InferDataType>::spec_data_type() == (DataType {
            code: crate::data_type::DataTypeCode::Int,
            bits: 32u8,
            lanes: 1u16,
        }));
        assert(vstd::layout::size_of::<i32>() == 4);
    }

    fn data_type() -> (r: DataType) {
        DataType::signed(32)
    }
}

impl InferDataType for i64 {
    open spec fn spec_data_type() -> DataType {
        DataType { code: crate::data_type::DataTypeCode::Int, bits: 64u8, lanes: 1u16 }
    }

    proof fn lemma_data_type_size() {
        assert(<i64 as InferDataType>::spec_data_type() == (DataType {
            code: crate::data_type::DataTypeCode::Int,
            bits: 64u8,
            lanes: 1u16,
        }));
        assert(vstd::layout::size_of::<i64>() == 8);
    }

    fn data_type() -> (r: DataType) {
        DataType::signed(64)
    }
}

impl InferDataType for i128 {
    open spec fn spec_data_type() -> DataType {
        DataType { code: crate::data_type::DataTypeCode::Int, bits: 128u8, lanes: 1u16 }
    }

    proof fn lemma_data_type_size() {
        assert(<i128 as InferDataType>::spec_data_type() == (DataType {
            code: crate::data_type::DataTypeCode::Int,
            bits: 128u8,
            lanes: 1u16,
        }));
        assert(vstd::layout::size_of::<i128>() == 16);
    }

    fn data_type() -> (r: DataType) {
        DataType::signed(128)
    }
}

/// Read access to an exported buffer as a typed slice: the value model's
/// counterpart of the raw data pointer.
pub trait TensorData {
    /// The element type of the buffer.
    type Elem;

    /// The elements of the buffer.
    spec fn spec_data(&self) -> Seq<Self::Elem>;

    /// The elements of the buffer.
    fn data(&self) -> (r: &[Self::Elem])
        ensures
            r@ == self.spec_data(),
    ;
}

/// What an adapter reports so that its container can be described as a
/// tensor: element type, device, byte offset, and the dimension arrays.
/// This is the interface of the exporter path built on [`ShapeAndStrides`].
pub trait ToTensor: Sized {
    /// The element type the adapter reports.
    spec fn spec_dtype(&self) -> DataType;

    /// The device the adapter reports.
    spec fn spec_device(&self) -> Device;

    /// The byte offset the adapter reports.
    spec fn spec_byte_offset(&self) -> u64;

    /// The shape the adapter reports.
    spec fn spec_shape(&self) -> Seq<i64>;

    /// The strides the adapter reports, if any; none means row-major and
    /// gap-free.
    spec fn spec_strides(&self) -> Option<Seq<i64>>;

    /// The reported arrays fit the ABI's limits.
    spec fn exportable(&self) -> bool;

    /// An exportable adapter reports matching array lengths within the ABI's
    /// dimension bound.
    proof fn lemma_exportable(&self)
        requires
            self.exportable(),
        ensures
            self.spec_shape().len() <= i32::MAX,
            self.spec_strides() matches Some(s) ==> s.len() == self.spec_shape().len(),
    ;

    /// Whether the reported arrays fit the ABI's limits, decided at run
    /// time, so that unverified callers can test it before exporting.
    fn is_exportable(&self) -> (r: bool)
        ensures
            r == self.exportable(),
    ;

    /// The element type of the container.
    fn dtype(&self) -> (r: DataType)
        ensures
            r == self.spec_dtype(),
    ;

    /// The device the container's buffer lives on.
    fn device(&self) -> (r: Device)
        ensures
            r == self.spec_device(),
    ;

    /// Offset in bytes from the start of the buffer to the first element.
    fn byte_offset(&self) -> (r: u64)
        ensures
            r == self.spec_byte_offset(),
    ;

    /// The container's dimension arrays.
    fn shape_and_strides(&self) -> (r: ShapeAndStrides)
        requires
            self.exportable(),
        ensures
            r.wf(),
            r.spec_shape() == self.spec_shape(),
            r.spec_strides() == self.spec_strides(),
    ;
}

/// What an adapter reports so that its container can be described as a
/// tensor, with a fallible device and element type and a pluggable layout
/// strategy. This is the interface of the exporter path built on
/// [`MemoryLayout`].
pub trait TensorLike<L>: Sized where L: MemoryLayout {
    /// The error the adapter reports failures with.
    type Error;

    /// The device the adapter reports, or the error it fails with.
    spec fn spec_device(&self) -> Result<Device, Self::Error>;

    /// The element type the adapter reports, or the error it fails with.
    spec fn spec_data_type(&self) -> Result<DataType, Self::Error>;

    /// The byte offset the adapter reports.
    spec fn spec_byte_offset(&self) -> u64;

    /// The shape the adapter reports.
    spec fn spec_shape(&self) -> Seq<i64>;

    /// The strides the adapter reports, if any; none means row-major and
    /// gap-free.
    spec fn spec_strides(&self) -> Option<Seq<i64>>;

    /// The reported arrays fit the ABI's limits.
    spec fn exportable(&self) -> bool;

    /// The device the container's buffer lives on, or the adapter's own
    /// error where it cannot name one.
    fn device(&self) -> (r: Result<Device, Self::Error>)
        ensures
            r == self.spec_device(),
    ;

    /// The element type of the container, or the adapter's own error where
    /// it cannot name one.
    fn data_type(&self) -> (r: Result<DataType, Self::Error>)
        ensures
            r == self.spec_data_type(),
    ;

    /// Offset in bytes from the start of the buffer to the first element.
    fn byte_offset(&self) -> (r: u64)
        ensures
            r == self.spec_byte_offset(),
    ;

    /// The container's layout.
    fn memory_layout(&self) -> (r: L)
        requires
            self.exportable(),
        ensures
            r.wf(),
            r.spec_shape() == self.spec_shape(),
            r.spec_strides() == self.spec_strides(),
    ;
}

} // verus!
