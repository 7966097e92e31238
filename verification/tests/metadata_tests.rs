use dlpak::{DataType, DataTypeCode, Device, DeviceType, Flags, PackVersion};
use dlpak::{DLPACK_MAJOR_VERSION, DLPACK_MINOR_VERSION, InferDataType, InferDtype};

#[test]
fn data_type_sizes() {
    assert_eq!(DataType::float32().size(), 4);
    assert_eq!(DataType::float64().size(), 8);
    assert_eq!(DataType::float16().size(), 2);
    assert_eq!(DataType::bfloat16().size(), 2);
    assert_eq!(DataType::bool_().size(), 1);
    assert_eq!(DataType::signed(64).size(), 8);
    assert_eq!(DataType::unsigned(128).size(), 16);
    // Sub-byte and vector types round up to whole bytes.
    assert_eq!(DataType::new(DataTypeCode::Float, 12, 3).size(), 5);
    assert_eq!(DataType::new(DataTypeCode::Float4E2m1fn, 4, 1).size(), 1);
}

#[test]
fn data_type_default_is_float32() {
    assert_eq!(DataType::default(), DataType::float32());
}

#[test]
fn data_type_code_round_trip() {
    let codes = [
        DataTypeCode::Int,
        DataTypeCode::UInt,
        DataTypeCode::Float,
        DataTypeCode::OpaqueHandle,
        DataTypeCode::Bfloat,
        DataTypeCode::Complex,
        DataTypeCode::Bool,
        DataTypeCode::Float8E5m2,
        DataTypeCode::Float4E2m1fn,
    ];
    for c in codes {
        assert_eq!(DataTypeCode::from_code(c.code()), Some(c));
    }
    assert_eq!(DataTypeCode::from_code(200), None);
    assert_eq!(DataTypeCode::Float.code(), 2);
}

#[test]
fn device_codes() {
    assert_eq!(DeviceType::Cpu.code(), 1);
    assert_eq!(DeviceType::Cuda.code(), 2);
    assert_eq!(DeviceType::Maia.code(), 17);
    assert_eq!(DeviceType::from_code(10), Some(DeviceType::Rocm));
    assert_eq!(DeviceType::from_code(5), None);
    assert_eq!(DeviceType::from_code(0), None);
}

#[test]
fn device_construction() {
    let cpu = Device::default();
    assert_eq!(cpu.device_type, DeviceType::Cpu);
    assert_eq!(cpu.device_id, 0);
    assert_eq!(Device::cpu(), cpu);
    let gpu = Device::cuda(3);
    assert_eq!(gpu.device_type, DeviceType::Cuda);
    assert_eq!(gpu.device_id, 3);
}

#[test]
fn pack_version_values() {
    assert_eq!(DLPACK_MAJOR_VERSION, 1);
    assert_eq!(DLPACK_MINOR_VERSION, 1);
    let v = PackVersion::default();
    assert_eq!(v.major, 1);
    assert_eq!(v.minor, 1);
    let w = PackVersion::new(2, 0);
    assert_eq!(w.major, 2);
    assert_eq!(w.minor, 0);
}

#[test]
fn flags_bits_and_masks() {
    assert_eq!(Flags::default().bits(), 1);
    assert_eq!(Flags::empty().bits(), 0);
    assert_eq!(Flags::read_only().bits(), 1);
    assert_eq!(Flags::is_copied().bits(), 2);
    assert_eq!(Flags::is_subbyte_type_padded().bits(), 4);
    let both = Flags::read_only().union(Flags::is_copied());
    assert_eq!(both.bits(), 3);
    assert!(both.contains(Flags::read_only()));
    assert!(both.contains(Flags::is_copied()));
    assert!(!both.contains(Flags::is_subbyte_type_padded()));
}

#[test]
fn flags_from_bits() {
    assert_eq!(Flags::from_bits(5).map(|f| f.bits()), Some(5));
    assert_eq!(Flags::from_bits(8), None);
    assert_eq!(Flags::from_bits_truncate(13).bits(), 5);
}

#[test]
fn inferred_data_types() {
    assert_eq!(<u8 as InferDataType>::data_type(), DataType::unsigned(8));
    assert_eq!(<i32 as InferDataType>::data_type(), DataType::signed(32));
    assert_eq!(<bool as InferDataType>::data_type(), DataType::bool_());
    assert_eq!(<u128 as InferDataType>::data_type().size(), 16);
    // The older trait name infers the same types.
    assert_eq!(<i64 as InferDtype>::infer_dtype(), DataType::signed(64));
    assert_eq!(<u16 as InferDtype>::infer_dtype().size(), 2);
}
