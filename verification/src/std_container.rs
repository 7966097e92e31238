//! Adapters describing the standard containers as tensor data: a vector or a
//! boxed slice is a one-dimensional, gap-free CPU tensor, and a
//! reference-counted vector shares its buffer while only one party carries
//! the release obligation.

use std::sync::Arc;

use vstd::prelude::*;

use crate::data_type::DataType;
use crate::device::{Device, DeviceType};
use crate::error::Error;
use crate::memory_layout::{MemoryLayout, RowMajorCompactLayout};
use crate::shape_and_strides::ShapeAndStrides;
use crate::traits::{InferDataType, InferDtype, TensorData, TensorLike, ToTensor};

verus! {

impl<A> TensorData for Vec<A> {
    type Elem = A;

    open spec fn spec_data(&self) -> Seq<A> {
        self@
    }

    fn data(&self) -> (r: &[A]) {
        self.as_slice()
    }
}

impl<A> TensorData for Box<[A]> {
    type Elem = A;

    open spec fn spec_data(&self) -> Seq<A> {
        self@
    }

    fn data(&self) -> (r: &[A]) {
        &**self
    }
}

impl<A> TensorData for Arc<Vec<A>> {
    type Elem = A;

    open spec fn spec_data(&self) -> Seq<A> {
        self@
    }

    fn data(&self) -> (r: &[A]) {
        (**self).as_slice()
    }
}

impl<A: InferDtype> ToTensor for Vec<A> {
    open spec fn spec_dtype(&self) -> DataType {
        A::spec_infer_dtype()
    }

    open spec fn spec_device(&self) -> Device {
        Device { device_type: DeviceType::Cpu, device_id: 0 }
    }

    open spec fn spec_byte_offset(&self) -> u64 {
        0
    }

    open spec fn spec_shape(&self) -> Seq<i64> {
        seq![self@.len() as i64]
    }

    open spec fn spec_strides(&self) -> Option<Seq<i64>> {
        Some(seq![1i64])
    }

    open spec fn exportable(&self) -> bool {
        self@.len() <= i64::MAX
    }

    proof fn lemma_exportable(&self) {
    }

    fn is_exportable(&self) -> (r: bool) {
        (self.len() as u128) <= (i64::MAX as u128)
    }

    fn dtype(&self) -> (r: DataType) {
        A::infer_dtype()
    }

    fn device(&self) -> (r: Device) {
        Device::cpu()
    }

    fn byte_offset(&self) -> (r: u64) {
        0
    }

    fn shape_and_strides(&self) -> (r: ShapeAndStrides) {
        let shape: Vec<i64> = vec![self.len() as i64];
        let strides: Vec<i64> = vec![1i64];
        let r = ShapeAndStrides::new_with_strides(shape.as_slice(), strides.as_slice());
        proof {
            assert(r.spec_shape() =~= self.spec_shape());
            assert(r.spec_strides() matches Some(s) && s =~= seq![1i64]);
        }
        r
    }
}

impl<A: InferDtype> ToTensor for Box<[A]> {
    open spec fn spec_dtype(&self) -> DataType {
        A::spec_infer_dtype()
    }

    open spec fn spec_device(&self) -> Device {
        Device { device_type: DeviceType::Cpu, device_id: 0 }
    }

    open spec fn spec_byte_offset(&self) -> u64 {
        0
    }

    open spec fn spec_shape(&self) -> Seq<i64> {
        seq![self@.len() as i64]
    }

    open spec fn spec_strides(&self) -> Option<Seq<i64>> {
        Some(seq![1i64])
    }

    open spec fn exportable(&self) -> bool {
        self@.len() <= i64::MAX
    }

    proof fn lemma_exportable(&self) {
    }

    fn is_exportable(&self) -> (r: bool) {
        (self.len() as u128) <= (i64::MAX as u128)
    }

    fn dtype(&self) -> (r: DataType) {
        A::infer_dtype()
    }

    fn device(&self) -> (r: Device) {
        Device::cpu()
    }

    fn byte_offset(&self) -> (r: u64) {
        0
    }

    fn shape_and_strides(&self) -> (r: ShapeAndStrides) {
        let n: usize = (&**self).len();
        let shape: Vec<i64> = vec![n as i64];
        let strides: Vec<i64> = vec![1i64];
        let r = ShapeAndStrides::new_with_strides(shape.as_slice(), strides.as_slice());
        proof {
            assert(r.spec_shape() =~= self.spec_shape());
            assert(r.spec_strides() matches Some(s) && s =~= seq![1i64]);
        }
        r
    }
}

impl<A: InferDtype> ToTensor for Arc<Vec<A>> {
    open spec fn spec_dtype(&self) -> DataType {
        A::spec_infer_dtype()
    }

    open spec fn spec_device(&self) -> Device {
        Device { device_type: DeviceType::Cpu, device_id: 0 }
    }

    open spec fn spec_byte_offset(&self) -> u64 {
        0
    }

    open spec fn spec_shape(&self) -> Seq<i64> {
        seq![self@.len() as i64]
    }

    open spec fn spec_strides(&self) -> Option<Seq<i64>> {
        Some(seq![1i64])
    }

    open spec fn exportable(&self) -> bool {
        self@.len() <= i64::MAX
    }

    proof fn lemma_exportable(&self) {
    }

    fn is_exportable(&self) -> (r: bool) {
        (self.len() as u128) <= (i64::MAX as u128)
    }

    fn dtype(&self) -> (r: DataType) {
        A::infer_dtype()
    }

    fn device(&self) -> (r: Device) {
        Device::cpu()
    }

    fn byte_offset(&self) -> (r: u64) {
        0
    }

    fn shape_and_strides(&self) -> (r: ShapeAndStrides) {
        let n: usize = (**self).len();
        let shape: Vec<i64> = vec![n as i64];
        let strides: Vec<i64> = vec![1i64];
        let r = ShapeAndStrides::new_with_strides(shape.as_slice(), strides.as_slice());
        proof {
            assert(r.spec_shape() =~= self.spec_shape());
            assert(r.spec_strides() matches Some(s) && s =~= seq![1i64]);
        }
        r
    }
}

impl<A: InferDataType> TensorLike<RowMajorCompactLayout> for Vec<A> {
    type Error = Error;

    open spec fn spec_device(&self) -> Result<Device, Error> {
        Ok(Device { device_type: DeviceType::Cpu, device_id: 0 })
    }

    open spec fn spec_data_type(&self) -> Result<DataType, Error> {
        Ok(A::spec_data_type())
    }

    open spec fn spec_byte_offset(&self) -> u64 {
        0
    }

    open spec fn spec_shape(&self) -> Seq<i64> {
        seq![self@.len() as i64]
    }

    open spec fn spec_strides(&self) -> Option<Seq<i64>> {
        None
    }

    open spec fn exportable(&self) -> bool {
        self@.len() <= i64::MAX
    }

    fn device(&self) -> (r: Result<Device, Error>) {
        Ok(Device::cpu())
    }

    fn data_type(&self) -> (r: Result<DataType, Error>) {
        Ok(A::data_type())
    }

    fn byte_offset(&self) -> (r: u64) {
        0
    }

    fn memory_layout(&self) -> (r: RowMajorCompactLayout) {
        let shape: Vec<i64> = vec![self.len() as i64];
        let r = RowMajorCompactLayout::new(shape);
        proof {
            assert(r.spec_shape() =~= TensorLike::<RowMajorCompactLayout>::spec_shape(self));
        }
        r
    }
}

impl<A: InferDataType> TensorLike<RowMajorCompactLayout> for Box<[A]> {
    type Error = Error;

    open spec fn spec_device(&self) -> Result<Device, Error> {
        Ok(Device { device_type: DeviceType::Cpu, device_id: 0 })
    }

    open spec fn spec_data_type(&self) -> Result<DataType, Error> {
        Ok(A::spec_data_type())
    }

    open spec fn spec_byte_offset(&self) -> u64 {
        0
    }

    open spec fn spec_shape(&self) -> Seq<i64> {
        seq![self@.len() as i64]
    }

    open spec fn spec_strides(&self) -> Option<Seq<i64>> {
        None
    }

    open spec fn exportable(&self) -> bool {
        self@.len() <= i64::MAX
    }

    fn device(&self) -> (r: Result<Device, Error>) {
        Ok(Device::cpu())
    }

    fn data_type(&self) -> (r: Result<DataType, Error>) {
        Ok(A::data_type())
    }

    fn byte_offset(&self) -> (r: u64) {
        0
    }

    fn memory_layout(&self) -> (r: RowMajorCompactLayout) {
        let n: usize = (&**self).len();
        let shape: Vec<i64> = vec![n as i64];
        let r = RowMajorCompactLayout::new(shape);
        proof {
            assert(r.spec_shape() =~= TensorLike::<RowMajorCompactLayout>::spec_shape(self));
        }
        r
    }
}

impl<A: InferDataType> TensorLike<RowMajorCompactLayout> for Arc<Vec<A>> {
    type Error = Error;

    open spec fn spec_device(&self) -> Result<Device, Error> {
        Ok(Device { device_type: DeviceType::Cpu, device_id: 0 })
    }

    open spec fn spec_data_type(&self) -> Result<DataType, Error> {
        Ok(A::spec_data_type())
    }

    open spec fn spec_byte_offset(&self) -> u64 {
        0
    }

    open spec fn spec_shape(&self) -> Seq<i64> {
        seq![self@.len() as i64]
    }

    open spec fn spec_strides(&self) -> Option<Seq<i64>> {
        None
    }

    open spec fn exportable(&self) -> bool {
        self@.len() <= i64::MAX
    }

    fn device(&self) -> (r: Result<Device, Error>) {
        Ok(Device::cpu())
    }

    fn data_type(&self) -> (r: Result<DataType, Error>) {
        Ok(A::data_type())
    }

    fn byte_offset(&self) -> (r: u64) {
        0
    }

    fn memory_layout(&self) -> (r: RowMajorCompactLayout) {
        let n: usize = (**self).len();
        let shape: Vec<i64> = vec![n as i64];
        let r = RowMajorCompactLayout::new(shape);
        proof {
            assert(r.spec_shape() =~= TensorLike::<RowMajorCompactLayout>::spec_shape(self));
        }
        r
    }
}

} // verus!
