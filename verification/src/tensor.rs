//! The descriptor of one tensor: device, element type, dimension arrays and
//! byte offset.

use vstd::prelude::*;

use crate::data_type::DataType;
use crate::device::Device;
use crate::error::Error;
use crate::memory_layout::MemoryLayout;
use crate::memory_order::{
    MemoryOrder, prefix_product, spec_column_major_contiguous, spec_row_major_contiguous,
};
use crate::traits::TensorLike;

verus! {

/// The plain descriptor of a tensor, without ownership of its buffer. This
/// value model owns its shape and strides arrays outright and leaves the
/// element data with the exporting owner, so the raw data pointer of the C
/// record has no counterpart here; absent strides mean row-major and
/// gap-free.
#[derive(Debug)]
pub struct Tensor {
    /// The device the buffer lives on.
    pub device: Device,
    /// Number of dimensions, as the ABI's 32-bit count.
    pub ndim: i32,
    /// The element type of the buffer.
    pub dtype: DataType,
    /// Extent of each dimension.
    pub shape: Vec<i64>,
    /// Stride of each dimension in elements, or absent for a row-major,
    /// gap-free tensor.
    pub strides: Option<Vec<i64>>,
    /// Offset in bytes from the start of the buffer to the first element.
    pub byte_offset: u64,
}

impl Tensor {
    /// The dimension count matches the arrays and fits the ABI's 32-bit
    /// field.
    pub open spec fn wf(self) -> bool {
        &&& self.ndim == self.shape@.len()
        &&& self.shape@.len() <= i32::MAX
        &&& match self.strides {
            Some(s) => s@.len() == self.shape@.len(),
            None => true,
        }
    }

    /// The strides array as a sequence, if one is recorded.
    pub open spec fn spec_strides(self) -> Option<Seq<i64>> {
        match self.strides {
            Some(s) => Some(s@),
            None => None,
        }
    }

    /// Total number of elements: the product of all extents.
    pub open spec fn spec_num_elements(self) -> int {
        prefix_product(self.shape@, self.shape@.len() as int)
    }

    /// How the recorded strides lay the shape out; absent strides mean
    /// row-major and gap-free.
    pub open spec fn spec_memory_order(self) -> MemoryOrder {
        match self.spec_strides() {
            None => MemoryOrder::RowMajorContiguous,
            Some(s) => if spec_row_major_contiguous(self.shape@, s) {
                MemoryOrder::RowMajorContiguous
            } else if spec_column_major_contiguous(self.shape@, s) {
                MemoryOrder::ColumnMajorContiguous
            } else {
                MemoryOrder::NonContiguous
            },
        }
    }

    /// The shape array.
    pub fn get_shape(&self) -> (r: &[i64])
        ensures
            r@ == self.shape@,
    {
        self.shape.as_slice()
    }

    /// The strides array, if one is recorded.
    pub fn get_strides(&self) -> (r: Option<&[i64]>)
        ensures
            r matches Some(s) ==> self.spec_strides() == Some(s@),
            r is None <==> self.spec_strides() is None,
    {
        match &self.strides {
            Some(s) => Some(s.as_slice()),
            None => None,
        }
    }

    /// Number of dimensions.
    pub fn num_dimensions(&self) -> (r: usize)
        requires
            self.wf(),
        ensures
            r == self.shape@.len(),
    {
        self.shape.len()
    }

    /// Total number of elements, the product of all extents. The running
    /// products must stay in range, as they must for any buffer that fits in
    /// memory.
    pub fn num_elements(&self) -> (r: usize)
        requires
            self.wf(),
            forall|k: int|
                0 <= k <= self.shape@.len() ==> 0 <= #[trigger] prefix_product(self.shape@, k)
                    <= i64::MAX,
            self.spec_num_elements() <= usize::MAX,
        ensures
            r == self.spec_num_elements(),
    {
        let n: usize = self.shape.len();
        let mut acc: i64 = 1;
        let mut i: usize = 0;
        while i < n
            invariant
                0 <= i <= n,
                n == self.shape@.len(),
                forall|k: int|
                    0 <= k <= n ==> 0 <= #[trigger] prefix_product(self.shape@, k) <= i64::MAX,
                acc as int == prefix_product(self.shape@, i as int),
            decreases n - i,
        {
            proof {
                assert(prefix_product(self.shape@, i + 1) == self.shape@[i as int]
                    * prefix_product(self.shape@, i as int));
                assert((acc as int) * self.shape@[i as int] == prefix_product(
                    self.shape@,
                    i + 1,
                )) by (nonlinear_arith)
                    requires
                        acc as int == prefix_product(self.shape@, i as int),
                        prefix_product(self.shape@, i + 1) == self.shape@[i as int]
                            * prefix_product(self.shape@, i as int),
                ;
            }
            acc = acc * self.shape[i];
            i = i + 1;
        }
        acc as usize
    }

    /// Size in bytes of the element data: the element count times the
    /// element size.
    pub fn data_size(&self) -> (r: usize)
        requires
            self.wf(),
            forall|k: int|
                0 <= k <= self.shape@.len() ==> 0 <= #[trigger] prefix_product(self.shape@, k)
                    <= i64::MAX,
            self.spec_num_elements() <= usize::MAX,
            self.spec_num_elements() * self.dtype.spec_size() <= usize::MAX,
        ensures
            r == self.spec_num_elements() * self.dtype.spec_size(),
    {
        let count = self.num_elements();
        let elem = self.dtype.size();
        proof {
            assert(count * elem <= usize::MAX) by (nonlinear_arith)
                requires
                    0 <= count,
                    0 <= elem,
                    count * elem == self.spec_num_elements() * self.dtype.spec_size(),
                    self.spec_num_elements() * self.dtype.spec_size() <= usize::MAX,
            ;
        }
        count * elem
    }

    /// Classify the recorded layout; absent strides are row-major and
    /// gap-free by convention.
    pub fn memory_order(&self) -> (r: MemoryOrder)
        requires
            self.wf(),
        ensures
            r == self.spec_memory_order(),
    {
        match self.get_strides() {
            None => MemoryOrder::RowMajorContiguous,
            Some(strides) => MemoryOrder::new(self.get_shape(), strides),
        }
    }

    /// Whether the recorded layout is contiguous in either dimension order.
    pub fn is_contiguous(&self) -> (r: bool)
        requires
            self.wf(),
        ensures
            r == (self.spec_memory_order() is RowMajorContiguous || self.spec_memory_order()
                is ColumnMajorContiguous),
    {
        self.memory_order().is_contiguous()
    }

    /// Fill the descriptor from an adapter's reports and a layout. Nothing is
    /// changed if the adapter cannot report its device or element type; the
    /// adapter's own error comes back, the device's first where both fail.
    pub fn update<T, L>(&mut self, t: &T, layout: &L) -> (r: Result<(), T::Error>) where
        T: TensorLike<L>,
        L: MemoryLayout,

        requires
            layout.wf(),
        ensures
            r is Ok <==> t.spec_device() is Ok && t.spec_data_type() is Ok,
            r is Ok ==> {
                &&& t.spec_device() matches Ok(d) && final(self).device == d
                &&& t.spec_data_type() matches Ok(d) && final(self).dtype == d
                &&& final(self).byte_offset == t.spec_byte_offset()
                &&& final(self).shape@ == layout.spec_shape()
                &&& final(self).spec_strides() == layout.spec_strides()
                &&& final(self).wf()
            },
            r is Err ==> *final(self) == *old(self),
            r matches Err(e) ==> e == (if t.spec_device() is Err {
                t.spec_device()->Err_0
            } else {
                t.spec_data_type()->Err_0
            }),
    {
        let device = match t.device() {
            Ok(d) => d,
            Err(e) => {
                return Err(e);
            },
        };
        let dtype = match t.data_type() {
            Ok(d) => d,
            Err(e) => {
                return Err(e);
            },
        };
        proof {
            layout.lemma_wf();
        }
        self.device = device;
        self.dtype = dtype;
        self.byte_offset = t.byte_offset();
        self.ndim = layout.ndim();
        self.shape = vstd::slice::slice_to_vec(layout.shape());
        self.strides = match layout.strides() {
            Some(s) => Some(vstd::slice::slice_to_vec(s)),
            None => None,
        };
        Ok(())
    }
}

impl Default for Tensor {
    /// An empty descriptor: zero dimensions, 32-bit float elements, CPU
    /// device, no strides, no offset.
    fn default() -> (r: Self)
        ensures
            r.wf(),
            r.device == (Device { device_type: crate::device::DeviceType::Cpu, device_id: 0i32 }),
            r.ndim == 0,
            r.dtype == (DataType {
                code: crate::data_type::DataTypeCode::Float,
                bits: 32u8,
                lanes: 1u16,
            }),
            r.shape@.len() == 0,
            r.spec_strides() is None,
            r.byte_offset == 0,
    {
        Tensor {
            device: Device::cpu(),
            ndim: 0,
            dtype: DataType::float32(),
            shape: Vec::new(),
            strides: None,
            byte_offset: 0,
        }
    }
}

} // verus!
