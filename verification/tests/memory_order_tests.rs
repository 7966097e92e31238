use dlpak::MemoryOrder;
use dlpak::{
    is_column_major_contiguous, is_row_major_contiguous, make_column_major_strides,
    make_row_major_strides,
};

#[test]
fn test_row_major_strides() {
    let shape = vec![1, 2, 3];
    let strides = make_row_major_strides(&shape);
    assert_eq!(strides, vec![6, 3, 1]);
    assert!(is_row_major_contiguous(&shape, &strides));
}

#[test]
fn test_column_major_strides() {
    let shape = vec![1, 2, 3];
    let strides = make_column_major_strides(&shape);
    assert_eq!(strides, vec![1, 1, 2]);
    assert!(is_column_major_contiguous(&shape, &strides));
}

#[test]
fn classify_row_major() {
    assert_eq!(MemoryOrder::new(&[2, 3], &[3, 1]), MemoryOrder::RowMajorContiguous);
}

#[test]
fn classify_column_major() {
    assert_eq!(MemoryOrder::new(&[2, 3], &[1, 2]), MemoryOrder::ColumnMajorContiguous);
}

#[test]
fn classify_non_contiguous() {
    assert_eq!(MemoryOrder::new(&[2, 3], &[1, 1]), MemoryOrder::NonContiguous);
}

#[test]
fn classify_skips_zero_extents() {
    // A zero-extent dimension takes no part in the scan, whatever its stride.
    assert_eq!(MemoryOrder::new(&[2, 0, 3], &[3, 7, 1]), MemoryOrder::RowMajorContiguous);
}

#[test]
fn classify_scalar_shape() {
    // With no dimensions, both scans succeed and row-major wins.
    assert_eq!(MemoryOrder::new(&[], &[]), MemoryOrder::RowMajorContiguous);
}

#[test]
fn classify_overflowing_products() {
    // The running product of these extents leaves the i64 range, so no
    // stride can match it and the scan rejects the layout.
    let shape = vec![i64::MAX, i64::MAX, 4];
    let strides = vec![1, 4, 1];
    assert_eq!(MemoryOrder::new(&shape, &strides), MemoryOrder::NonContiguous);
}

#[test]
fn is_contiguous_of_order() {
    assert!(MemoryOrder::RowMajorContiguous.is_contiguous());
    assert!(MemoryOrder::ColumnMajorContiguous.is_contiguous());
    assert!(!MemoryOrder::NonContiguous.is_contiguous());
}

#[test]
fn one_dimensional_strides() {
    assert_eq!(make_row_major_strides(&[5]), vec![1]);
    assert_eq!(make_column_major_strides(&[5]), vec![1]);
}
