//! Adapters describing bare scalars as zero-dimensional tensors: a single
//! value on the CPU with an empty shape and no strides.

use vstd::prelude::*;

use crate::data_type::DataType;
use crate::device::{Device, DeviceType};
use crate::shape_and_strides::ShapeAndStrides;
use crate::traits::{InferDataType, ToTensor};

verus! {

impl ToTensor for bool {
    open spec fn spec_dtype(&self) -> DataType {
        <bool as InferDataType>::spec_data_type()
    }

    open spec fn spec_device(&self) -> Device {
        Device { device_type: DeviceType::Cpu, device_id: 0 }
    }

    open spec fn spec_byte_offset(&self) -> u64 {
        0
    }

    open spec fn spec_shape(&self) -> Seq<i64> {
        Seq::empty()
    }

    open spec fn spec_strides(&self) -> Option<Seq<i64>> {
        None
    }

    open spec fn exportable(&self) -> bool {
        true
    }

    proof fn lemma_exportable(&self) {
    }

    fn is_exportable(&self) -> (r: bool) {
        true
    }

    fn dtype(&self) -> (r: DataType) {
        <bool as InferDataType>::data_type()
    }

    fn device(&self) -> (r: Device) {
        Device::cpu()
    }

    fn byte_offset(&self) -> (r: u64) {
        0
    }

    fn shape_and_strides(&self) -> (r: ShapeAndStrides) {
        let shape: Vec<i64> = Vec::new();
        let r = ShapeAndStrides::new_contiguous(shape.as_slice());
        proof {
            assert(r.spec_shape() =~= Seq::<i64>::empty());
        }
        r
    }
}

impl ToTensor for u8 {
    open spec fn spec_dtype(&self) -> DataType {
        <u8 as InferDataType>::spec_data_type()
    }

    open spec fn spec_device(&self) -> Device {
        Device { device_type: DeviceType::Cpu, device_id: 0 }
    }

    open spec fn spec_byte_offset(&self) -> u64 {
        0
    }

    open spec fn spec_shape(&self) -> Seq<i64> {
        Seq::empty()
    }

    open spec fn spec_strides(&self) -> Option<Seq<i64>> {
        None
    }

    open spec fn exportable(&self) -> bool {
        true
    }

    proof fn lemma_exportable(&self) {
    }

    fn is_exportable(&self) -> (r: bool) {
        true
    }

    fn dtype(&self) -> (r: DataType) {
        <u8 as InferDataType>::data_type()
    }

    fn device(&self) -> (r: Device) {
        Device::cpu()
    }

    fn byte_offset(&self) -> (r: u64) {
        0
    }

    fn shape_and_strides(&self) -> (r: ShapeAndStrides) {
        let shape: Vec<i64> = Vec::new();
        let r = ShapeAndStrides::new_contiguous(shape.as_slice());
        proof {
            assert(r.spec_shape() =~= Seq::<i64>::empty());
        }
        r
    }
}

impl ToTensor for u16 {
    open spec fn spec_dtype(&self) -> DataType {
        <u16 as InferDataType>::spec_data_type()
    }

    open spec fn spec_device(&self) -> Device {
        Device { device_type: DeviceType::Cpu, device_id: 0 }
    }

    open spec fn spec_byte_offset(&self) -> u64 {
        0
    }

    open spec fn spec_shape(&self) -> Seq<i64> {
        Seq::empty()
    }

    open spec fn spec_strides(&self) -> Option<Seq<i64>> {
        None
    }

    open spec fn exportable(&self) -> bool {
        true
    }

    proof fn lemma_exportable(&self) {
    }

    fn is_exportable(&self) -> (r: bool) {
        true
    }

    fn dtype(&self) -> (r: DataType) {
        <u16 as InferDataType>::data_type()
    }

    fn device(&self) -> (r: Device) {
        Device::cpu()
    }

    fn byte_offset(&self) -> (r: u64) {
        0
    }

    fn shape_and_strides(&self) -> (r: ShapeAndStrides) {
        let shape: Vec<i64> = Vec::new();
        let r = ShapeAndStrides::new_contiguous(shape.as_slice());
        proof {
            assert(r.spec_shape() =~= Seq::<i64>::empty());
        }
        r
    }
}

impl ToTensor for u32 {
    open spec fn spec_dtype(&self) -> DataType {
        <u32 as InferDataType>::spec_data_type()
    }

    open spec fn spec_device(&self) -> Device {
        Device { device_type: DeviceType::Cpu, device_id: 0 }
    }

    open spec fn spec_byte_offset(&self) -> u64 {
        0
    }

    open spec fn spec_shape(&self) -> Seq<i64> {
        Seq::empty()
    }

    open spec fn spec_strides(&self) -> Option<Seq<i64>> {
        None
    }

    open spec fn exportable(&self) -> bool {
        true
    }

    proof fn lemma_exportable(&self) {
    }

    fn is_exportable(&self) -> (r: bool) {
        true
    }

    fn dtype(&self) -> (r: DataType) {
        <u32 as InferDataType>::data_type()
    }

    fn device(&self) -> (r: Device) {
        Device::cpu()
    }

    fn byte_offset(&self) -> (r: u64) {
        0
    }

    fn shape_and_strides(&self) -> (r: ShapeAndStrides) {
        let shape: Vec<i64> = Vec::new();
        let r = ShapeAndStrides::new_contiguous(shape.as_slice());
        proof {
            assert(r.spec_shape() =~= Seq::<i64>::empty());
        }
        r
    }
}

impl ToTensor for u64 {
    open spec fn spec_dtype(&self) -> DataType {
        <u64 as InferDataType>::spec_data_type()
    }

    open spec fn spec_device(&self) -> Device {
        Device { device_type: DeviceType::Cpu, device_id: 0 }
    }

    open spec fn spec_byte_offset(&self) -> u64 {
        0
    }

    open spec fn spec_shape(&self) -> Seq<i64> {
        Seq::empty()
    }

    open spec fn spec_strides(&self) -> Option<Seq<i64>> {
        None
    }

    open spec fn exportable(&self) -> bool {
        true
    }

    proof fn lemma_exportable(&self) {
    }

    fn is_exportable(&self) -> (r: bool) {
        true
    }

    fn dtype(&self) -> (r: DataType) {
        <u64 as InferDataType>::data_type()
    }

    fn device(&self) -> (r: Device) {
        Device::cpu()
    }

    fn byte_offset(&self) -> (r: u64) {
        0
    }

    fn shape_and_strides(&self) -> (r: ShapeAndStrides) {
        let shape: Vec<i64> = Vec::new();
        let r = ShapeAndStrides::new_contiguous(shape.as_slice());
        proof {
            assert(r.spec_shape() =~= Seq::<i64>::empty());
        }
        r
    }
}

impl ToTensor for u128 {
    open spec fn spec_dtype(&self) -> DataType {
        <u128 as InferDataType>::spec_data_type()
    }

    open spec fn spec_device(&self) -> Device {
        Device { device_type: DeviceType::Cpu, device_id: 0 }
    }

    open spec fn spec_byte_offset(&self) -> u64 {
        0
    }

    open spec fn spec_shape(&self) -> Seq<i64> {
        Seq::empty()
    }

    open spec fn spec_strides(&self) -> Option<Seq<i64>> {
        None
    }

    open spec fn exportable(&self) -> bool {
        true
    }

    proof fn lemma_exportable(&self) {
    }

    fn is_exportable(&self) -> (r: bool) {
        true
    }

    fn dtype(&self) -> (r: DataType) {
        <u128 as InferDataType>::data_type()
    }

    fn device(&self) -> (r: Device) {
        Device::cpu()
    }

    fn byte_offset(&self) -> (r: u64) {
        0
    }

    fn shape_and_strides(&self) -> (r: ShapeAndStrides) {
        let shape: Vec<i64> = Vec::new();
        let r = ShapeAndStrides::new_contiguous(shape.as_slice());
        proof {
            assert(r.spec_shape() =~= Seq::<i64>::empty());
        }
        r
    }
}

impl ToTensor for i8 {
    open spec fn spec_dtype(&self) -> DataType {
        <i8 as InferDataType>::spec_data_type()
    }

    open spec fn spec_device(&self) -> Device {
        Device { device_type: DeviceType::Cpu, device_id: 0 }
    }

    open spec fn spec_byte_offset(&self) -> u64 {
        0
    }

    open spec fn spec_shape(&self) -> Seq<i64> {
        Seq::empty()
    }

    open spec fn spec_strides(&self) -> Option<Seq<i64>> {
        None
    }

    open spec fn exportable(&self) -> bool {
        true
    }

    proof fn lemma_exportable(&self) {
    }

    fn is_exportable(&self) -> (r: bool) {
        true
    }

    fn dtype(&self) -> (r: DataType) {
        <i8 as InferDataType>::data_type()
    }

    fn device(&self) -> (r: Device) {
        Device::cpu()
    }

    fn byte_offset(&self) -> (r: u64) {
        0
    }

    fn shape_and_strides(&self) -> (r: ShapeAndStrides) {
        let shape: Vec<i64> = Vec::new();
        let r = ShapeAndStrides::new_contiguous(shape.as_slice());
        proof {
            assert(r.spec_shape() =~= Seq::<i64>::empty());
        }
        r
    }
}

impl ToTensor for i16 {
    open spec fn spec_dtype(&self) -> DataType {
        <i16 as InferDataType>::spec_data_type()
    }

    open spec fn spec_device(&self) -> Device {
        Device { device_type: DeviceType::Cpu, device_id: 0 }
    }

    open spec fn spec_byte_offset(&self) -> u64 {
        0
    }

    open spec fn spec_shape(&self) -> Seq<i64> {
        Seq::empty()
    }

    open spec fn spec_strides(&self) -> Option<Seq<i64>> {
        None
    }

    open spec fn exportable(&self) -> bool {
        true
    }

    proof fn lemma_exportable(&self) {
    }

    fn is_exportable(&self) -> (r: bool) {
        true
    }

    fn dtype(&self) -> (r: DataType) {
        <i16 as InferDataType>::data_type()
    }

    fn device(&self) -> (r: Device) {
        Device::cpu()
    }

    fn byte_offset(&self) -> (r: u64) {
        0
    }

    fn shape_and_strides(&self) -> (r: ShapeAndStrides) {
        let shape: Vec<i64> = Vec::new();
        let r = ShapeAndStrides::new_contiguous(shape.as_slice());
        proof {
            assert(r.spec_shape() =~= Seq::<i64>::empty());
        }
        r
    }
}

impl ToTensor for i32 {
    open spec fn spec_dtype(&self) -> DataType {
        <i32 as InferDataType>::spec_data_type()
    }

    open spec fn spec_device(&self) -> Device {
        Device { device_type: DeviceType::Cpu, device_id: 0 }
    }

    open spec fn spec_byte_offset(&self) -> u64 {
        0
    }

    open spec fn spec_shape(&self) -> Seq<i64> {
        Seq::empty()
    }

    open spec fn spec_strides(&self) -> Option<Seq<i64>> {
        None
    }

    open spec fn exportable(&self) -> bool {
        true
    }

    proof fn lemma_exportable(&self) {
    }

    fn is_exportable(&self) -> (r: bool) {
        true
    }

    fn dtype(&self) -> (r: DataType) {
        <i32 as InferDataType>::data_type()
    }

    fn device(&self) -> (r: Device) {
        Device::cpu()
    }

    fn byte_offset(&self) -> (r: u64) {
        0
    }

    fn shape_and_strides(&self) -> (r: ShapeAndStrides) {
        let shape: Vec<i64> = Vec::new();
        let r = ShapeAndStrides::new_contiguous(shape.as_slice());
        proof {
            assert(r.spec_shape() =~= Seq::<i64>::empty());
        }
        r
    }
}

impl ToTensor for i64 {
    open spec fn spec_dtype(&self) -> DataType {
        <i64 as InferDataType>::spec_data_type()
    }

    open spec fn spec_device(&self) -> Device {
        Device { device_type: DeviceType::Cpu, device_id: 0 }
    }

    open spec fn spec_byte_offset(&self) -> u64 {
        0
    }

    open spec fn spec_shape(&self) -> Seq<i64> {
        Seq::empty()
    }

    open spec fn spec_strides(&self) -> Option<Seq<i64>> {
        None
    }

    open spec fn exportable(&self) -> bool {
        true
    }

    proof fn lemma_exportable(&self) {
    }

    fn is_exportable(&self) -> (r: bool) {
        true
    }

    fn dtype(&self) -> (r: DataType) {
        <i64 as InferDataType>::data_type()
    }

    fn device(&self) -> (r: Device) {
        Device::cpu()
    }

    fn byte_offset(&self) -> (r: u64) {
        0
    }

    fn shape_and_strides(&self) -> (r: ShapeAndStrides) {
        let shape: Vec<i64> = Vec::new();
        let r = ShapeAndStrides::new_contiguous(shape.as_slice());
        proof {
            assert(r.spec_shape() =~= Seq::<i64>::empty());
        }
        r
    }
}

impl ToTensor for i128 {
    open spec fn spec_dtype(&self) -> DataType {
        <i128 as InferDataType>::spec_data_type()
    }

    open spec fn spec_device(&self) -> Device {
        Device { device_type: DeviceType::Cpu, device_id: 0 }
    }

    open spec fn spec_byte_offset(&self) -> u64 {
        0
    }

    open spec fn spec_shape(&self) -> Seq<i64> {
        Seq::empty()
    }

    open spec fn spec_strides(&self) -> Option<Seq<i64>> {
        None
    }

    open spec fn exportable(&self) -> bool {
        true
    }

    proof fn lemma_exportable(&self) {
    }

    fn is_exportable(&self) -> (r: bool) {
        true
    }

    fn dtype(&self) -> (r: DataType) {
        <i128 as InferDataType>::data_type()
    }

    fn device(&self) -> (r: Device) {
        Device::cpu()
    }

    fn byte_offset(&self) -> (r: u64) {
        0
    }

    fn shape_and_strides(&self) -> (r: ShapeAndStrides) {
        let shape: Vec<i64> = Vec::new();
        let r = ShapeAndStrides::new_contiguous(shape.as_slice());
        proof {
            assert(r.spec_shape() =~= Seq::<i64>::empty());
        }
        r
    }
}

} // verus!
