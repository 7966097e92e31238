use dlpak::ShapeAndStrides;
use dlpak::{BorrowedLayout, ContiguousLayout, MemoryLayout, RowMajorCompactLayout, StridedLayout};

#[test]
fn shape_and_strides_contiguous() {
    let s = ShapeAndStrides::new_contiguous(&[2, 3, 4]);
    assert_eq!(s.len(), 3);
    assert_eq!(s.ndim(), 3);
    assert!(!s.is_empty());
    assert_eq!(s.shape(), &[2, 3, 4]);
    assert!(s.strides().is_none());
    assert!(s.is_contiguous());
}

#[test]
fn shape_and_strides_with_strides() {
    let s = ShapeAndStrides::new_with_strides(&[2, 3], &[3, 1]);
    assert_eq!(s.len(), 2);
    assert_eq!(s.shape(), &[2, 3]);
    assert_eq!(s.strides(), Some(&[3, 1][..]));
    assert!(s.is_contiguous());

    let t = ShapeAndStrides::new_with_strides(&[2, 3], &[1, 2]);
    // Column-major strides are not packed row-major.
    assert!(!t.is_contiguous());
}

#[test]
fn shape_and_strides_computed() {
    let s = ShapeAndStrides::new_contiguous_with_strides(&[2, 3, 4]);
    assert_eq!(s.shape(), &[2, 3, 4]);
    assert_eq!(s.strides(), Some(&[12, 4, 1][..]));
    assert!(s.is_contiguous());
}

#[test]
fn shape_and_strides_borrowed() {
    let shape = vec![4, 5];
    let strides = vec![5, 1];
    let s = ShapeAndStrides::new_borrowed(&shape, Some(&strides));
    assert_eq!(s.shape(), &[4, 5]);
    assert_eq!(s.strides(), Some(&[5, 1][..]));
    assert!(s.is_contiguous());

    let t = ShapeAndStrides::new_borrowed(&shape, None);
    assert!(t.strides().is_none());
    assert!(t.is_contiguous());
}

#[test]
fn shape_and_strides_empty() {
    let s = ShapeAndStrides::new_contiguous(&[]);
    assert_eq!(s.len(), 0);
    assert!(s.is_empty());
    assert!(s.is_contiguous());
}

#[test]
fn zero_extent_needs_zero_stride_in_packed_scan() {
    // The packed scan multiplies every extent, so after a zero extent the
    // expected stride is zero.
    let s = ShapeAndStrides::new_with_strides(&[2, 0, 5], &[0, 5, 1]);
    assert!(s.is_contiguous());
    let t = ShapeAndStrides::new_with_strides(&[2, 0, 5], &[10, 5, 1]);
    assert!(!t.is_contiguous());
}

#[test]
fn row_major_compact_layout() {
    let l = RowMajorCompactLayout::new(vec![2, 3]);
    assert_eq!(l.ndim(), 2);
    assert_eq!(l.shape(), &[2, 3]);
    assert!(l.strides().is_none());
}

#[test]
fn row_major_compact_layout_filled() {
    let mut l = ContiguousLayout::new_with_ndim(2);
    assert_eq!(l.shape(), &[0, 0]);
    let shape = l.shape_mut();
    shape[0] = 7;
    shape[1] = 9;
    assert_eq!(l.shape(), &[7, 9]);
    assert_eq!(l.ndim(), 2);
}

#[test]
fn strided_layout_packed() {
    let l = StridedLayout::new(vec![2, 3, 3, 1]);
    assert_eq!(l.ndim(), 2);
    assert_eq!(l.shape(), &[2, 3]);
    assert_eq!(l.strides(), Some(&[3, 1][..]));
}

#[test]
fn strided_layout_filled() {
    let mut l = StridedLayout::with_ndim(2);
    l.shape_mut()[0] = 2;
    l.shape_mut()[1] = 3;
    l.strides_mut()[0] = 1;
    l.strides_mut()[1] = 2;
    assert_eq!(l.shape(), &[2, 3]);
    assert_eq!(l.strides(), Some(&[1, 2][..]));
    let m = StridedLayout::new_with_ndim(3);
    assert_eq!(m.ndim(), 3);
}

#[test]
fn borrowed_layout() {
    let shape = vec![2, 2];
    let l = BorrowedLayout::from_slice(&shape, None);
    assert_eq!(l.ndim(), 2);
    assert_eq!(l.shape(), &[2, 2]);
    assert!(l.strides().is_none());

    let strides = vec![2, 1];
    let m = BorrowedLayout::new(shape.clone(), Some(strides));
    assert_eq!(m.shape(), &[2, 2]);
    assert_eq!(m.strides(), Some(&[2, 1][..]));
}
