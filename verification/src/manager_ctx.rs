//! The exporter-side manager context: it pairs an owner with the dimension
//! arrays computed from it, materializes the descriptor, and moves ownership
//! into the managed record that a consumer will later release.

use vstd::prelude::*;

use crate::managed_tensor::ManagedTensor;
use crate::shape_and_strides::ShapeAndStrides;
use crate::tensor::Tensor;
use crate::traits::ToTensor;

verus! {

/// The manager context holds the exported owner and its dimension arrays.
/// In the C ABI this record is leaked to the heap and reclaimed by the
/// release callback; in this value model ownership moves into the managed
/// record instead, and releasing is consuming that record.
#[derive(Debug)]
pub struct ManagerCtx<T> {
    inner: T,
    shape_and_strides: ShapeAndStrides,
}

impl<T: ToTensor> ManagerCtx<T> {
    /// The owner being exported.
    pub closed spec fn spec_inner(self) -> T {
        self.inner
    }

    /// The dimension arrays computed from the owner.
    pub closed spec fn spec_shape_and_strides(self) -> ShapeAndStrides {
        self.shape_and_strides
    }

    /// The arrays are well-formed and are the ones the owner reports.
    pub open spec fn wf(self) -> bool {
        &&& self.spec_shape_and_strides().wf()
        &&& self.spec_shape_and_strides().spec_shape() == self.spec_inner().spec_shape()
        &&& self.spec_shape_and_strides().spec_strides() == self.spec_inner().spec_strides()
    }

    /// Take over an owner and record the dimension arrays it reports.
    pub fn new(inner: T) -> (r: Self)
        requires
            inner.exportable(),
        ensures
            r.wf(),
            r.spec_inner() == inner,
    {
        let shape_and_strides = inner.shape_and_strides();
        ManagerCtx { inner, shape_and_strides }
    }

    /// Materialize the descriptor from the owner's reports and the recorded
    /// arrays.
    pub fn make_dl_tensor(&self) -> (r: Tensor)
        requires
            self.wf(),
        ensures
            r.wf(),
            r.device == self.spec_inner().spec_device(),
            r.dtype == self.spec_inner().spec_dtype(),
            r.byte_offset == self.spec_inner().spec_byte_offset(),
            r.shape@ == self.spec_inner().spec_shape(),
            r.spec_strides() == self.spec_inner().spec_strides(),
    {
        proof {
            self.shape_and_strides.lemma_wf();
        }
        let strides: Option<Vec<i64>> = match self.shape_and_strides.strides() {
            Some(s) => Some(vstd::slice::slice_to_vec(s)),
            None => None,
        };
        Tensor {
            device: self.inner.device(),
            ndim: self.shape_and_strides.ndim(),
            dtype: self.inner.dtype(),
            shape: vstd::slice::slice_to_vec(self.shape_and_strides.shape()),
            strides,
            byte_offset: self.inner.byte_offset(),
        }
    }

    /// Export: materialize the descriptor and move the owner into the
    /// managed record whose consumption is the one release.
    pub fn into_dl_managed_tensor(self) -> (r: ManagedTensor<T>)
        requires
            self.wf(),
        ensures
            r.spec_tensor().wf(),
            r.spec_tensor().device == self.spec_inner().spec_device(),
            r.spec_tensor().dtype == self.spec_inner().spec_dtype(),
            r.spec_tensor().byte_offset == self.spec_inner().spec_byte_offset(),
            r.spec_tensor().shape@ == self.spec_inner().spec_shape(),
            r.spec_tensor().spec_strides() == self.spec_inner().spec_strides(),
            r.spec_inner() == self.spec_inner(),
    {
        let dl_tensor = self.make_dl_tensor();
        ManagedTensor::new(dl_tensor, self.inner)
    }
}

/// Export a value as a managed-tensor record: the value model's counterpart
/// of handing out the raw ABI pointer.
pub trait IntoDLPack: Sized {
    /// The owner type carried by the produced record.
    type Owner;

    /// Whether the value is ready to be exported.
    spec fn dlpack_ready(&self) -> bool;

    /// What the produced record looks like: each implementation pins the
    /// record's descriptor and owner to the exported value.
    spec fn dlpack_post(self, r: ManagedTensor<Self::Owner>) -> bool;

    /// Produce the managed record.
    fn into_dlpack(self) -> (r: ManagedTensor<Self::Owner>)
        requires
            self.dlpack_ready(),
        ensures
            self.dlpack_post(r),
    ;
}

impl<T: ToTensor> IntoDLPack for T {
    type Owner = T;

    open spec fn dlpack_ready(&self) -> bool {
        self.exportable()
    }

    open spec fn dlpack_post(self, r: ManagedTensor<T>) -> bool {
        &&& r.spec_inner() == self
        &&& r.spec_tensor().wf()
        &&& r.spec_tensor().device == self.spec_device()
        &&& r.spec_tensor().dtype == self.spec_dtype()
        &&& r.spec_tensor().byte_offset == self.spec_byte_offset()
        &&& r.spec_tensor().shape@ == self.spec_shape()
        &&& r.spec_tensor().spec_strides() == self.spec_strides()
    }

    fn into_dlpack(self) -> (r: ManagedTensor<T>) {
        ManagerCtx::new(self).into_dl_managed_tensor()
    }
}

impl<T: ToTensor> IntoDLPack for ManagerCtx<T> {
    type Owner = T;

    open spec fn dlpack_ready(&self) -> bool {
        self.wf()
    }

    open spec fn dlpack_post(self, r: ManagedTensor<T>) -> bool {
        &&& r.spec_inner() == self.spec_inner()
        &&& r.spec_tensor().wf()
        &&& r.spec_tensor().device == self.spec_inner().spec_device()
        &&& r.spec_tensor().dtype == self.spec_inner().spec_dtype()
        &&& r.spec_tensor().byte_offset == self.spec_inner().spec_byte_offset()
        &&& r.spec_tensor().shape@ == self.spec_inner().spec_shape()
        &&& r.spec_tensor().spec_strides() == self.spec_inner().spec_strides()
    }

    fn into_dlpack(self) -> (r: ManagedTensor<T>) {
        self.into_dl_managed_tensor()
    }
}

} // verus!
