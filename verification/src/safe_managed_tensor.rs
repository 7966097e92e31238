//! The consumer-side safe handles: each owns a managed record, answers
//! metadata queries from its descriptor, and guards typed slice access by
//! element size and contiguity. Releasing is consuming the handle, which
//! move semantics allow exactly once.

use vstd::prelude::*;

use crate::data_type::DataType;
use crate::device::Device;
use crate::error::Error;
use crate::flags::{FLAG_IS_COPIED, FLAG_IS_SUBBYTE_TYPE_PADDED, FLAG_READ_ONLY, Flags};
use crate::managed_tensor::{ManagedTensor, ManagedTensorVersioned};
use crate::memory_layout::MemoryLayout;
use crate::memory_order::{MemoryOrder, prefix_product};
use crate::pack_version::PackVersion;
use crate::tensor::Tensor;
use crate::traits::{TensorData, TensorLike};

verus! {

/// The safe handle around a plain managed record. Dropping the handle drops
/// the record and with it the owner, which is the one release; handing the
/// record back out through [`SafeManagedTensor::into_non_null`] transfers
/// that obligation instead.
#[derive(Debug)]
pub struct SafeManagedTensor<T> {
    raw: ManagedTensor<T>,
}

impl<T> SafeManagedTensor<T> {
    /// The descriptor of the held record.
    pub open spec fn spec_tensor(self) -> Tensor {
        self.spec_raw().spec_tensor()
    }

    /// The owner held by the record.
    pub open spec fn spec_inner(self) -> T {
        self.spec_raw().spec_inner()
    }

    /// The held record.
    pub closed spec fn spec_raw(self) -> ManagedTensor<T> {
        self.raw
    }

    /// The held descriptor is well-formed.
    pub open spec fn wf(self) -> bool {
        self.spec_tensor().wf()
    }

    /// Take over a received record; the handle now carries its release
    /// obligation.
    pub fn from_non_null(raw: ManagedTensor<T>) -> (r: Self)
        requires
            raw.spec_tensor().wf(),
        ensures
            r.wf(),
            r.spec_raw() == raw,
    {
        SafeManagedTensor { raw }
    }

    /// Hand the record back out without releasing; the caller now carries
    /// the release obligation.
    pub fn into_non_null(self) -> (r: ManagedTensor<T>)
        ensures
            r == self.spec_raw(),
    {
        self.raw
    }

    /// The descriptor.
    pub fn dl_tensor(&self) -> (r: &Tensor)
        ensures
            *r == self.spec_tensor(),
    {
        self.raw.dl_tensor()
    }

    /// The shape array.
    pub fn shape(&self) -> (r: &[i64])
        ensures
            r@ == self.spec_tensor().shape@,
    {
        self.raw.dl_tensor().get_shape()
    }

    /// The strides array, if one is recorded; absent strides mean row-major
    /// and gap-free.
    pub fn strides(&self) -> (r: Option<&[i64]>)
        ensures
            r matches Some(s) ==> self.spec_tensor().spec_strides() == Some(s@),
            r is None <==> self.spec_tensor().spec_strides() is None,
    {
        self.raw.dl_tensor().get_strides()
    }

    /// The element type.
    pub fn data_type(&self) -> (r: &DataType)
        ensures
            *r == self.spec_tensor().dtype,
    {
        &self.raw.dl_tensor().dtype
    }

    /// The device the buffer lives on.
    pub fn device(&self) -> (r: &Device)
        ensures
            *r == self.spec_tensor().device,
    {
        &self.raw.dl_tensor().device
    }

    /// Offset in bytes from the start of the buffer to the first element.
    pub fn byte_offset(&self) -> (r: u64)
        ensures
            r == self.spec_tensor().byte_offset,
    {
        self.raw.dl_tensor().byte_offset
    }

    /// Number of dimensions.
    pub fn num_dimensions(&self) -> (r: usize)
        requires
            self.wf(),
        ensures
            r == self.spec_tensor().shape@.len(),
    {
        self.raw.dl_tensor().num_dimensions()
    }

    /// Total number of elements, the product of all extents.
    pub fn num_elements(&self) -> (r: usize)
        requires
            self.wf(),
            forall|k: int|
                0 <= k <= self.spec_tensor().shape@.len() ==> 0
                    <= #[trigger] crate::memory_order::prefix_product(
                    self.spec_tensor().shape@,
                    k,
                ) <= i64::MAX,
            self.spec_tensor().spec_num_elements() <= usize::MAX,
        ensures
            r == self.spec_tensor().spec_num_elements(),
    {
        self.raw.dl_tensor().num_elements()
    }

    /// Classify the recorded layout.
    pub fn memory_order(&self) -> (r: MemoryOrder)
        requires
            self.wf(),
        ensures
            r == self.spec_tensor().spec_memory_order(),
    {
        self.raw.dl_tensor().memory_order()
    }

    /// Whether the recorded layout is contiguous in either dimension order.
    pub fn is_contiguous(&self) -> (r: bool)
        requires
            self.wf(),
        ensures
            r == (self.spec_tensor().spec_memory_order() is RowMajorContiguous
                || self.spec_tensor().spec_memory_order() is ColumnMajorContiguous),
    {
        self.raw.dl_tensor().is_contiguous()
    }
}

impl<T: TensorData> SafeManagedTensor<T> {
    /// The descriptor counts exactly the owner's elements, from offset zero,
    /// as it does on every handle this library exports. A received record may
    /// instead describe a sub-view of its buffer; the value model cannot
    /// carve one out, so the typed slice is descriptor-exact only where this
    /// holds.
    pub open spec fn data_consistent(self) -> bool {
        &&& self.spec_tensor().byte_offset == 0
        &&& self.spec_inner().spec_data().len() == self.spec_tensor().spec_num_elements()
    }

    /// The buffer as a typed slice: the owner's elements, whole. Access is
    /// granted exactly when the element type's size matches the descriptor's
    /// element size; otherwise the mismatch is reported. On a freshly
    /// exported handle the descriptor's element count is the slice's length.
    pub fn as_slice(&self) -> (r: Result<&[T::Elem], Error>)
        ensures
            r is Ok <==> vstd::layout::size_of::<T::Elem>() == self.spec_tensor().dtype.spec_size(),
            r matches Ok(s) ==> s@ == self.spec_inner().spec_data(),
            r matches Ok(s) ==> (self.data_consistent() ==> s@.len()
                == self.spec_tensor().spec_num_elements()),
            r matches Err(e) ==> e matches Error::DataTypeSizeMismatch { actual, expected }
                && actual == vstd::layout::size_of::<T::Elem>() && expected
                == self.spec_tensor().dtype.spec_size(),
    {
        let actual: usize = core::mem::size_of::<T::Elem>();
        let expected: usize = self.raw.dl_tensor().dtype.size();
        if actual != expected {
            Err(Error::DataTypeSizeMismatch { actual, expected })
        } else {
            Ok(self.raw.inner().data())
        }
    }

    /// The buffer as a typed slice, granted only when the element size
    /// matches and the layout is contiguous in either dimension order.
    pub fn as_slice_contiguous(&self) -> (r: Result<&[T::Elem], Error>)
        requires
            self.wf(),
        ensures
            r is Ok <==> {
                &&& vstd::layout::size_of::<T::Elem>() == self.spec_tensor().dtype.spec_size()
                &&& !(self.spec_tensor().spec_memory_order() is NonContiguous)
            },
            r matches Ok(s) ==> s@ == self.spec_inner().spec_data(),
            r matches Ok(s) ==> (self.data_consistent() ==> s@.len()
                == self.spec_tensor().spec_num_elements()),
            r matches Err(e) ==> {
                ||| (e matches Error::NonContiguous { shape, strides }
                    && self.spec_tensor().spec_memory_order() is NonContiguous
                    && shape@ == self.spec_tensor().shape@
                    && self.spec_tensor().spec_strides() == Some(strides@))
                ||| (e matches Error::DataTypeSizeMismatch { actual, expected }
                    && !(self.spec_tensor().spec_memory_order() is NonContiguous)
                    && actual == vstd::layout::size_of::<T::Elem>() && expected
                    == self.spec_tensor().dtype.spec_size())
            },
    {
        if !self.memory_order().is_contiguous() {
            let shape = vstd::slice::slice_to_vec(self.shape());
            let strides = match self.strides() {
                Some(s) => vstd::slice::slice_to_vec(s),
                None => Vec::new(),
            };
            return Err(Error::NonContiguous { shape, strides });
        }
        self.as_slice()
    }
}

impl<T> SafeManagedTensor<T> {
    /// Export a container as a fresh handle: build the descriptor from the
    /// adapter's reports, then take ownership. Construction fails exactly
    /// when the adapter cannot name its device or element type, returning
    /// the adapter's own error — the device's first where both fail — and
    /// nothing is retained.
    pub fn new<L>(t: T) -> (r: Result<Self, <T as TensorLike<L>>::Error>) where
        T: TensorLike<L>,
        L: MemoryLayout,

        requires
            t.exportable(),
        ensures
            r is Ok <==> t.spec_device() is Ok && t.spec_data_type() is Ok,
            r matches Err(e) ==> e == (if t.spec_device() is Err {
                t.spec_device()->Err_0
            } else {
                t.spec_data_type()->Err_0
            }),
            r matches Ok(h) ==> {
                &&& h.wf()
                &&& h.spec_inner() == t
                &&& t.spec_device() matches Ok(d) && h.spec_tensor().device == d
                &&& t.spec_data_type() matches Ok(d) && h.spec_tensor().dtype == d
                &&& h.spec_tensor().byte_offset == t.spec_byte_offset()
                &&& h.spec_tensor().shape@ == t.spec_shape()
                &&& h.spec_tensor().spec_strides() == t.spec_strides()
            },
    {
        let layout = t.memory_layout();
        let mut dl_tensor = Tensor::default();
        match dl_tensor.update(&t, &layout) {
            Ok(()) => Ok(SafeManagedTensor { raw: ManagedTensor::new(dl_tensor, t) }),
            Err(e) => Err(e),
        }
    }
}

/// Wrap a received managed record in a safe handle: the value model's
/// counterpart of adopting the raw ABI pointer.
pub trait FromDLPack<T>: Sized {
    /// The handle holds exactly the record it was given.
    spec fn spec_wraps(self, dlpack: ManagedTensor<T>) -> bool;

    /// Take over the record and its release obligation.
    fn from_dlpack(dlpack: ManagedTensor<T>) -> (r: Self)
        requires
            dlpack.spec_tensor().wf(),
        ensures
            r.spec_wraps(dlpack),
    ;
}

impl<T> FromDLPack<T> for SafeManagedTensor<T> {
    open spec fn spec_wraps(self, dlpack: ManagedTensor<T>) -> bool {
        self.spec_raw() == dlpack
    }

    fn from_dlpack(dlpack: ManagedTensor<T>) -> (r: Self) {
        SafeManagedTensor::from_non_null(dlpack)
    }
}

/// The safe handle around a versioned managed record: the same release
/// discipline, plus the version stamp and the flags bitmask.
#[derive(Debug)]
pub struct SafeManagedTensorVersioned<T> {
    raw: ManagedTensorVersioned<T>,
}

impl<T> SafeManagedTensorVersioned<T> {
    /// The descriptor of the held record.
    pub open spec fn spec_tensor(self) -> Tensor {
        self.spec_raw().spec_tensor()
    }

    /// The owner held by the record.
    pub open spec fn spec_inner(self) -> T {
        self.spec_raw().spec_inner()
    }

    /// The held record.
    pub closed spec fn spec_raw(self) -> ManagedTensorVersioned<T> {
        self.raw
    }

    /// The held descriptor is well-formed.
    pub open spec fn wf(self) -> bool {
        self.spec_tensor().wf()
    }

    /// Take over a received record; the handle now carries its release
    /// obligation.
    pub fn from_non_null(raw: ManagedTensorVersioned<T>) -> (r: Self)
        requires
            raw.spec_tensor().wf(),
        ensures
            r.wf(),
            r.spec_raw() == raw,
    {
        SafeManagedTensorVersioned { raw }
    }

    /// Hand the record back out without releasing; the caller now carries
    /// the release obligation.
    pub fn into_non_null(self) -> (r: ManagedTensorVersioned<T>)
        ensures
            r == self.spec_raw(),
    {
        self.raw
    }

    /// The descriptor.
    pub fn dl_tensor(&self) -> (r: &Tensor)
        ensures
            *r == self.spec_tensor(),
    {
        self.raw.dl_tensor()
    }

    /// The ABI version stamped onto the record.
    pub fn version(&self) -> (r: &PackVersion)
        ensures
            *r == self.spec_raw().spec_version(),
    {
        self.raw.version()
    }

    /// The raw flags bitmask.
    pub fn flags_bits(&self) -> (r: u64)
        ensures
            r == self.spec_raw().spec_flags(),
    {
        self.raw.flags_bits()
    }

    /// The flags, if every set bit is one the ABI defines.
    pub fn flags(&self) -> (r: Option<Flags>)
        ensures
            r matches Some(f) ==> f.spec_bits() == self.spec_raw().spec_flags(),
            r is None <==> !Flags::spec_valid(self.spec_raw().spec_flags()),
    {
        Flags::from_bits(self.raw.flags_bits())
    }

    /// The flags, with bits the ABI does not define cleared.
    pub fn flags_truncate(&self) -> (r: Flags)
        ensures
            r.spec_bits() == self.spec_raw().spec_flags() & crate::flags::FLAG_ALL,
    {
        Flags::from_bits_truncate(self.raw.flags_bits())
    }

    /// Whether the buffer is marked read-only.
    pub fn read_only(&self) -> (r: bool)
        ensures
            r == (self.spec_raw().spec_flags() & FLAG_READ_ONLY == FLAG_READ_ONLY),
    {
        let r = self.flags_truncate().contains(Flags::read_only());
        proof {
            let bits = self.spec_raw().spec_flags();
            assert((bits & crate::flags::FLAG_ALL) & 1u64 == 1u64 <==> bits & 1u64 == 1u64)
                by (bit_vector);
        }
        r
    }

    /// Whether the tensor is marked as a copy of another tensor.
    pub fn is_copied(&self) -> (r: bool)
        ensures
            r == (self.spec_raw().spec_flags() & FLAG_IS_COPIED == FLAG_IS_COPIED),
    {
        let r = self.flags_truncate().contains(Flags::is_copied());
        proof {
            let bits = self.spec_raw().spec_flags();
            assert((bits & 7u64) & 2u64 == 2u64 <==> bits & 2u64 == 2u64) by (bit_vector);
        }
        r
    }

    /// Whether a sub-byte element type is marked as padded to whole bytes.
    pub fn is_subbyte_type_padded(&self) -> (r: bool)
        ensures
            r == (self.spec_raw().spec_flags() & FLAG_IS_SUBBYTE_TYPE_PADDED
                == FLAG_IS_SUBBYTE_TYPE_PADDED),
    {
        let r = self.flags_truncate().contains(Flags::is_subbyte_type_padded());
        proof {
            let bits = self.spec_raw().spec_flags();
            assert((bits & 7u64) & 4u64 == 4u64 <==> bits & 4u64 == 4u64) by (bit_vector);
        }
        r
    }

    /// The shape array.
    pub fn shape(&self) -> (r: &[i64])
        ensures
            r@ == self.spec_tensor().shape@,
    {
        self.raw.dl_tensor().get_shape()
    }

    /// The strides array, if one is recorded; absent strides mean row-major
    /// and gap-free.
    pub fn strides(&self) -> (r: Option<&[i64]>)
        ensures
            r matches Some(s) ==> self.spec_tensor().spec_strides() == Some(s@),
            r is None <==> self.spec_tensor().spec_strides() is None,
    {
        self.raw.dl_tensor().get_strides()
    }

    /// The element type.
    pub fn data_type(&self) -> (r: &DataType)
        ensures
            *r == self.spec_tensor().dtype,
    {
        &self.raw.dl_tensor().dtype
    }

    /// The device the buffer lives on.
    pub fn device(&self) -> (r: &Device)
        ensures
            *r == self.spec_tensor().device,
    {
        &self.raw.dl_tensor().device
    }

    /// Offset in bytes from the start of the buffer to the first element.
    pub fn byte_offset(&self) -> (r: u64)
        ensures
            r == self.spec_tensor().byte_offset,
    {
        self.raw.dl_tensor().byte_offset
    }

    /// Number of dimensions.
    pub fn num_dimensions(&self) -> (r: usize)
        requires
            self.wf(),
        ensures
            r == self.spec_tensor().shape@.len(),
    {
        self.raw.dl_tensor().num_dimensions()
    }

    /// Total number of elements, the product of all extents.
    pub fn num_elements(&self) -> (r: usize)
        requires
            self.wf(),
            forall|k: int|
                0 <= k <= self.spec_tensor().shape@.len() ==> 0
                    <= #[trigger] crate::memory_order::prefix_product(
                    self.spec_tensor().shape@,
                    k,
                ) <= i64::MAX,
            self.spec_tensor().spec_num_elements() <= usize::MAX,
        ensures
            r == self.spec_tensor().spec_num_elements(),
    {
        self.raw.dl_tensor().num_elements()
    }

    /// Classify the recorded layout.
    pub fn memory_order(&self) -> (r: MemoryOrder)
        requires
            self.wf(),
        ensures
            r == self.spec_tensor().spec_memory_order(),
    {
        self.raw.dl_tensor().memory_order()
    }

    /// Whether the recorded layout is contiguous in either dimension order.
    pub fn is_contiguous(&self) -> (r: bool)
        requires
            self.wf(),
        ensures
            r == (self.spec_tensor().spec_memory_order() is RowMajorContiguous
                || self.spec_tensor().spec_memory_order() is ColumnMajorContiguous),
    {
        self.raw.dl_tensor().is_contiguous()
    }
}

impl<T: TensorData> SafeManagedTensorVersioned<T> {
    /// The descriptor counts exactly the owner's elements, from offset zero,
    /// as it does on every handle this library exports. A received record may
    /// instead describe a sub-view of its buffer; the value model cannot
    /// carve one out, so the typed slice is descriptor-exact only where this
    /// holds.
    pub open spec fn data_consistent(self) -> bool {
        &&& self.spec_tensor().byte_offset == 0
        &&& self.spec_inner().spec_data().len() == self.spec_tensor().spec_num_elements()
    }

    /// The buffer as a typed slice: the owner's elements, whole. Access is
    /// granted exactly when the element type's size matches the descriptor's
    /// element size; otherwise the mismatch is reported. On a freshly
    /// exported handle the descriptor's element count is the slice's length.
    pub fn as_slice(&self) -> (r: Result<&[T::Elem], Error>)
        ensures
            r is Ok <==> vstd::layout::size_of::<T::Elem>() == self.spec_tensor().dtype.spec_size(),
            r matches Ok(s) ==> s@ == self.spec_inner().spec_data(),
            r matches Ok(s) ==> (self.data_consistent() ==> s@.len()
                == self.spec_tensor().spec_num_elements()),
            r matches Err(e) ==> e matches Error::DataTypeSizeMismatch { actual, expected }
                && actual == vstd::layout::size_of::<T::Elem>() && expected
                == self.spec_tensor().dtype.spec_size(),
    {
        let actual: usize = core::mem::size_of::<T::Elem>();
        let expected: usize = self.raw.dl_tensor().dtype.size();
        if actual != expected {
            Err(Error::DataTypeSizeMismatch { actual, expected })
        } else {
            Ok(self.raw.inner().data())
        }
    }

    /// The buffer as a typed slice, granted only when the element size
    /// matches and the layout is contiguous in either dimension order.
    pub fn as_slice_contiguous(&self) -> (r: Result<&[T::Elem], Error>)
        requires
            self.wf(),
        ensures
            r is Ok <==> {
                &&& vstd::layout::size_of::<T::Elem>() == self.spec_tensor().dtype.spec_size()
                &&& !(self.spec_tensor().spec_memory_order() is NonContiguous)
            },
            r matches Ok(s) ==> s@ == self.spec_inner().spec_data(),
            r matches Ok(s) ==> (self.data_consistent() ==> s@.len()
                == self.spec_tensor().spec_num_elements()),
            r matches Err(e) ==> {
                ||| (e matches Error::NonContiguous { shape, strides }
                    && self.spec_tensor().spec_memory_order() is NonContiguous
                    && shape@ == self.spec_tensor().shape@
                    && self.spec_tensor().spec_strides() == Some(strides@))
                ||| (e matches Error::DataTypeSizeMismatch { actual, expected }
                    && !(self.spec_tensor().spec_memory_order() is NonContiguous)
                    && actual == vstd::layout::size_of::<T::Elem>() && expected
                    == self.spec_tensor().dtype.spec_size())
            },
    {
        if !self.memory_order().is_contiguous() {
            let shape = vstd::slice::slice_to_vec(self.shape());
            let strides = match self.strides() {
                Some(s) => vstd::slice::slice_to_vec(s),
                None => Vec::new(),
            };
            return Err(Error::NonContiguous { shape, strides });
        }
        self.as_slice()
    }
}

impl<T> SafeManagedTensorVersioned<T> {
    /// Export a container as a fresh versioned handle carrying the given
    /// flags. Construction fails exactly when the adapter cannot name its
    /// device or element type, returning the adapter's own error — the
    /// device's first where both fail — and nothing is retained.
    pub fn with_flags<L>(t: T, flags: Flags) -> (r: Result<
        Self,
        <T as TensorLike<L>>::Error,
    >) where T: TensorLike<L>, L: MemoryLayout
        requires
            t.exportable(),
        ensures
            r is Ok <==> t.spec_device() is Ok && t.spec_data_type() is Ok,
            r matches Err(e) ==> e == (if t.spec_device() is Err {
                t.spec_device()->Err_0
            } else {
                t.spec_data_type()->Err_0
            }),
            r matches Ok(h) ==> {
                &&& h.wf()
                &&& h.spec_inner() == t
                &&& h.spec_raw().spec_version() == (PackVersion {
                    major: crate::pack_version::DLPACK_MAJOR_VERSION,
                    minor: crate::pack_version::DLPACK_MINOR_VERSION,
                })
                &&& h.spec_raw().spec_flags() == flags.spec_bits()
                &&& t.spec_device() matches Ok(d) && h.spec_tensor().device == d
                &&& t.spec_data_type() matches Ok(d) && h.spec_tensor().dtype == d
                &&& h.spec_tensor().byte_offset == t.spec_byte_offset()
                &&& h.spec_tensor().shape@ == t.spec_shape()
                &&& h.spec_tensor().spec_strides() == t.spec_strides()
            },
    {
        let layout = t.memory_layout();
        let mut dl_tensor = Tensor::default();
        match dl_tensor.update(&t, &layout) {
            Ok(()) => Ok(
                SafeManagedTensorVersioned {
                    raw: ManagedTensorVersioned::new(PackVersion::default(), flags, dl_tensor, t),
                },
            ),
            Err(e) => Err(e),
        }
    }

    /// Export a container as a fresh versioned handle with the default
    /// flags, which mark the buffer read-only.
    pub fn new<L>(t: T) -> (r: Result<Self, <T as TensorLike<L>>::Error>) where
        T: TensorLike<L>,
        L: MemoryLayout,

        requires
            t.exportable(),
        ensures
            r is Ok <==> t.spec_device() is Ok && t.spec_data_type() is Ok,
            r matches Err(e) ==> e == (if t.spec_device() is Err {
                t.spec_device()->Err_0
            } else {
                t.spec_data_type()->Err_0
            }),
            r matches Ok(h) ==> {
                &&& h.wf()
                &&& h.spec_inner() == t
                &&& h.spec_raw().spec_flags() == FLAG_READ_ONLY
                &&& t.spec_device() matches Ok(d) && h.spec_tensor().device == d
                &&& t.spec_data_type() matches Ok(d) && h.spec_tensor().dtype == d
                &&& h.spec_tensor().byte_offset == t.spec_byte_offset()
                &&& h.spec_tensor().shape@ == t.spec_shape()
                &&& h.spec_tensor().spec_strides() == t.spec_strides()
            },
    {
        SafeManagedTensorVersioned::with_flags(t, Flags::default())
    }
}

/// Round trip through the plain handle: a handle exported from a vector
/// hands the vector's elements back through the contiguous typed slice. The
/// descriptor a fresh handle carries makes both access guards pass — the
/// element size matches the element type, and absent strides classify as
/// row-major contiguous — and the data the handle holds is the vector
/// itself, so `as_slice_contiguous` returns exactly the exported values.
pub proof fn lemma_vec_round_trip<A: crate::traits::InferDataType>(
    v: Vec<A>,
    h: SafeManagedTensor<Vec<A>>,
)
    requires
        h.wf(),
        h.spec_inner() == v,
        v@.len() <= i64::MAX,
        h.spec_tensor().dtype == A::spec_data_type(),
        h.spec_tensor().shape@ == seq![v@.len() as i64],
        h.spec_tensor().spec_strides() is None,
        h.spec_tensor().byte_offset == 0,
    ensures
        vstd::layout::size_of::<A>() == h.spec_tensor().dtype.spec_size(),
        h.spec_tensor().spec_memory_order() is RowMajorContiguous,
        h.spec_inner().spec_data() == v@,
        h.data_consistent(),
{
    A::lemma_data_type_size();
    let shape = h.spec_tensor().shape@;
    assert(prefix_product(shape, 1) == shape[0] * prefix_product(shape, 0));
    assert(h.spec_tensor().spec_num_elements() == v@.len());
}

/// Round trip through the versioned handle: as
/// [`lemma_vec_round_trip`], for a handle carrying the version stamp and
/// flags.
pub proof fn lemma_vec_round_trip_versioned<A: crate::traits::InferDataType>(
    v: Vec<A>,
    h: SafeManagedTensorVersioned<Vec<A>>,
)
    requires
        h.wf(),
        h.spec_inner() == v,
        v@.len() <= i64::MAX,
        h.spec_tensor().dtype == A::spec_data_type(),
        h.spec_tensor().shape@ == seq![v@.len() as i64],
        h.spec_tensor().spec_strides() is None,
        h.spec_tensor().byte_offset == 0,
    ensures
        vstd::layout::size_of::<A>() == h.spec_tensor().dtype.spec_size(),
        h.spec_tensor().spec_memory_order() is RowMajorContiguous,
        h.spec_inner().spec_data() == v@,
        h.data_consistent(),
{
    A::lemma_data_type_size();
    let shape = h.spec_tensor().shape@;
    assert(prefix_product(shape, 1) == shape[0] * prefix_product(shape, 0));
    assert(h.spec_tensor().spec_num_elements() == v@.len());
}

} // verus!
