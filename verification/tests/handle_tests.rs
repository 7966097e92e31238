use std::sync::Arc;

use dlpak::Flags;
use dlpak::{RowMajorCompactLayout, TensorLike};
use dlpak::{
    DataType, Device, Error, FromDLPack, IntoDLPack, ManagedTensor, ManagerCtx, MemoryOrder,
    SafeManagedTensor, SafeManagedTensorVersioned, Tensor,
};

#[test]
fn it_works() {}

#[test]
fn round_trip_vec() {
    // Exporting a vector and reading it back through the contiguous typed
    // slice yields the identical values, with the one-dimensional shape and
    // no strides recorded.
    let v: Vec<i32> = vec![1, 2, 3];
    let t = SafeManagedTensorVersioned::new(v).unwrap();
    assert_eq!(t.shape(), &[3]);
    assert_eq!(t.strides(), None);
    let s: &[i32] = t.as_slice_contiguous().unwrap();
    assert_eq!(s, &[1, 2, 3]);
}

#[test]
fn round_trip_boxed_slice() {
    let v: Box<[i32]> = vec![1, 2, 3].into_boxed_slice();
    let t = SafeManagedTensorVersioned::new(v).unwrap();
    assert_eq!(t.shape(), &[3]);
    assert_eq!(t.strides(), None);
    let s: &[i32] = t.as_slice_contiguous().unwrap();
    assert_eq!(s, &[1, 2, 3]);
}

#[test]
fn round_trip_plain_handle() {
    let v: Vec<u8> = vec![7, 8, 9, 10];
    let t = SafeManagedTensor::new(v).unwrap();
    assert_eq!(t.shape(), &[4]);
    assert_eq!(t.strides(), None);
    assert_eq!(t.num_elements(), 4);
    assert_eq!(t.num_dimensions(), 1);
    assert_eq!(*t.device(), Device::cpu());
    assert_eq!(*t.data_type(), DataType::unsigned(8));
    assert_eq!(t.byte_offset(), 0);
    let s: &[u8] = t.as_slice_contiguous().unwrap();
    assert_eq!(s, &[7, 8, 9, 10]);
}

#[test]
fn typed_access_guard() {
    // A tensor declared as 32-bit float rejects byte access with the exact
    // mismatch, and accepts a matching element type.
    let descriptor = Tensor {
        device: Device::cpu(),
        ndim: 1,
        dtype: DataType::float32(),
        shape: vec![3],
        strides: None,
        byte_offset: 0,
    };
    let bytes: Vec<u8> = vec![0; 12];
    let h = SafeManagedTensor::from_non_null(ManagedTensor::new(descriptor, bytes));
    match h.as_slice() {
        Err(Error::DataTypeSizeMismatch { actual, expected }) => {
            assert_eq!(actual, 1);
            assert_eq!(expected, 4);
        },
        _ => panic!("byte access on a float tensor must be rejected"),
    }

    let descriptor = Tensor {
        device: Device::cpu(),
        ndim: 1,
        dtype: DataType::float32(),
        shape: vec![3],
        strides: None,
        byte_offset: 0,
    };
    let floats: Vec<f32> = vec![1.0, 2.0, 3.0];
    let h = SafeManagedTensor::from_non_null(ManagedTensor::new(descriptor, floats));
    let s: &[f32] = h.as_slice().unwrap();
    assert_eq!(s, &[1.0f32, 2.0, 3.0]);
}

#[test]
fn contiguous_guard() {
    // Strides [1, 1] over shape [2, 3] are neither row- nor column-major,
    // so contiguous access is refused with the offending arrays.
    let descriptor = Tensor {
        device: Device::cpu(),
        ndim: 2,
        dtype: DataType::signed(32),
        shape: vec![2, 3],
        strides: Some(vec![1, 1]),
        byte_offset: 0,
    };
    let data: Vec<i32> = vec![0; 6];
    let h = SafeManagedTensor::from_non_null(ManagedTensor::new(descriptor, data));
    assert_eq!(h.memory_order(), MemoryOrder::NonContiguous);
    match h.as_slice_contiguous() {
        Err(Error::NonContiguous { shape, strides }) => {
            assert_eq!(shape, vec![2, 3]);
            assert_eq!(strides, vec![1, 1]);
        },
        _ => panic!("non-contiguous access must be rejected"),
    }
    // Plain typed access is still granted: only the layout is at fault.
    assert!(h.as_slice().is_ok());
}

#[test]
fn null_strides_are_row_major() {
    let descriptor = Tensor {
        device: Device::cpu(),
        ndim: 2,
        dtype: DataType::unsigned(8),
        shape: vec![5, 7],
        strides: None,
        byte_offset: 0,
    };
    let data: Vec<u8> = vec![0; 35];
    let h = SafeManagedTensor::from_non_null(ManagedTensor::new(descriptor, data));
    assert_eq!(h.memory_order(), MemoryOrder::RowMajorContiguous);
    assert!(h.is_contiguous());
    assert_eq!(h.num_elements(), 35);
}

#[test]
fn column_major_handle_is_contiguous() {
    let descriptor = Tensor {
        device: Device::cpu(),
        ndim: 2,
        dtype: DataType::signed(32),
        shape: vec![2, 3],
        strides: Some(vec![1, 2]),
        byte_offset: 0,
    };
    let data: Vec<i32> = vec![0; 6];
    let h = SafeManagedTensor::from_non_null(ManagedTensor::new(descriptor, data));
    assert_eq!(h.memory_order(), MemoryOrder::ColumnMajorContiguous);
    let s: &[i32] = h.as_slice_contiguous().unwrap();
    assert_eq!(s.len(), 6);
}

#[test]
fn single_release() {
    // The owner behind the handle is dropped exactly once: the shared
    // buffer's reference count falls back to one when the handle goes, and
    // no further.
    let keeper: Arc<Vec<i32>> = Arc::new(vec![1, 2, 3]);
    let exported = keeper.clone();
    assert_eq!(Arc::strong_count(&keeper), 2);
    {
        let h = SafeManagedTensor::new(exported).unwrap();
        assert_eq!(Arc::strong_count(&keeper), 2);
        let s: &[i32] = h.as_slice().unwrap();
        assert_eq!(s, &[1, 2, 3]);
    }
    assert_eq!(Arc::strong_count(&keeper), 1);
}

#[test]
fn escape_hatch_forgoes_release() {
    // Handing the record back out transfers the release obligation instead
    // of running it.
    let keeper: Arc<Vec<i32>> = Arc::new(vec![4, 5]);
    let h = SafeManagedTensor::new(keeper.clone()).unwrap();
    let raw = h.into_non_null();
    assert_eq!(Arc::strong_count(&keeper), 2);
    let h2 = SafeManagedTensor::from_non_null(raw);
    assert_eq!(h2.as_slice().unwrap(), &[4, 5]);
    drop(h2);
    assert_eq!(Arc::strong_count(&keeper), 1);
}

#[test]
fn shared_buffer_aliasing() {
    // Two handles over two clones of a reference-counted buffer share its
    // storage: three owners while both live. Dropping one releases one
    // owner and leaves the other handle's data readable.
    let keeper: Arc<Vec<i32>> = Arc::new(vec![9, 8, 7]);
    let h1 = SafeManagedTensor::new(keeper.clone()).unwrap();
    let h2 = SafeManagedTensor::new(keeper.clone()).unwrap();
    assert_eq!(Arc::strong_count(&keeper), 3);
    drop(h1);
    assert_eq!(Arc::strong_count(&keeper), 2);
    let s: &[i32] = h2.as_slice().unwrap();
    assert_eq!(s, &[9, 8, 7]);
    drop(h2);
    assert_eq!(Arc::strong_count(&keeper), 1);
}

#[test]
fn manager_ctx_descriptor() {
    let ctx = ManagerCtx::new(vec![1i64, 2, 3]);
    let t = ctx.make_dl_tensor();
    assert_eq!(t.get_shape(), &[3]);
    assert_eq!(t.get_strides(), Some(&[1][..]));
    assert_eq!(t.dtype, DataType::signed(64));
    assert_eq!(t.device, Device::cpu());
    assert_eq!(t.byte_offset, 0);
    assert_eq!(t.ndim, 1);
    let record = ctx.into_dl_managed_tensor();
    assert_eq!(record.inner(), &vec![1i64, 2, 3]);
}

#[test]
fn into_and_from_dlpack() {
    let record: ManagedTensor<Vec<u16>> = vec![10u16, 20].into_dlpack();
    assert_eq!(record.dl_tensor().get_shape(), &[2]);
    let h = SafeManagedTensor::from_dlpack(record);
    assert_eq!(h.as_slice().unwrap(), &[10u16, 20]);
}

#[test]
fn versioned_flags_and_version() {
    let v: Vec<u8> = vec![1];
    let t = SafeManagedTensorVersioned::new(v).unwrap();
    assert_eq!(t.version().major, 1);
    assert_eq!(t.version().minor, 1);
    assert_eq!(t.flags_bits(), 1);
    assert!(t.read_only());
    assert!(!t.is_copied());
    assert!(!t.is_subbyte_type_padded());
    assert_eq!(t.flags().map(|f| f.bits()), Some(1));

    let w: Vec<u8> = vec![2];
    let u = SafeManagedTensorVersioned::with_flags(
        w,
        Flags::is_copied().union(Flags::is_subbyte_type_padded()),
    )
    .unwrap();
    assert_eq!(u.flags_bits(), 6);
    assert!(!u.read_only());
    assert!(u.is_copied());
    assert!(u.is_subbyte_type_padded());
    assert_eq!(u.flags_truncate().bits(), 6);
}

#[test]
fn versioned_escape_hatch() {
    let v: Vec<i32> = vec![3, 1, 4];
    let t = SafeManagedTensorVersioned::new(v).unwrap();
    let raw = t.into_non_null();
    assert_eq!(raw.flags_bits(), 1);
    let t2 = SafeManagedTensorVersioned::from_non_null(raw);
    assert_eq!(t2.as_slice().unwrap(), &[3, 1, 4]);
}

#[test]
fn tensor_default_descriptor() {
    let t = Tensor::default();
    assert_eq!(t.ndim, 0);
    assert_eq!(t.dtype, DataType::float32());
    assert_eq!(t.device, Device::cpu());
    assert!(t.get_strides().is_none());
    assert_eq!(t.get_shape().len(), 0);
    assert_eq!(t.byte_offset, 0);
    assert_eq!(t.num_elements(), 1);
}

#[test]
fn tensor_data_size() {
    let t = Tensor {
        device: Device::cpu(),
        ndim: 2,
        dtype: DataType::signed(32),
        shape: vec![2, 3],
        strides: None,
        byte_offset: 0,
    };
    assert_eq!(t.num_elements(), 6);
    assert_eq!(t.data_size(), 24);
    assert_eq!(t.num_dimensions(), 2);
}

#[test]
fn scalar_export() {
    // A bare scalar exports as a zero-dimensional tensor.
    let record = 7u8.into_dlpack();
    assert_eq!(record.dl_tensor().ndim, 0);
    assert_eq!(record.dl_tensor().get_shape().len(), 0);
    assert!(record.dl_tensor().get_strides().is_none());
    assert_eq!(record.dl_tensor().dtype, DataType::unsigned(8));
    assert_eq!(record.into_inner(), 7);
}

#[test]
fn update_descriptor_from_adapter() {
    let v: Vec<u8> = vec![1, 2];
    let layout: RowMajorCompactLayout = TensorLike::memory_layout(&v);
    let mut t = Tensor::default();
    assert!(t.update(&v, &layout).is_ok());
    assert_eq!(t.get_shape(), &[2]);
    assert!(t.get_strides().is_none());
    assert_eq!(t.dtype, DataType::unsigned(8));
    assert_eq!(t.device, Device::cpu());
    assert_eq!(t.ndim, 1);
    assert_eq!(t.byte_offset, 0);
}
