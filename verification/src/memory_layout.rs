//! Layout strategies owning or recording the shape and strides arrays behind
//! a tensor descriptor.

use vstd::prelude::*;

verus! {

/// What a layout must offer: the dimension count, the shape array, and the
/// strides array if one is recorded. A layout without strides describes a
/// row-major, gap-free tensor.
pub trait MemoryLayout: Sized {
    /// The shape this layout records.
    spec fn spec_shape(&self) -> Seq<i64>;

    /// The strides this layout records, if any.
    spec fn spec_strides(&self) -> Option<Seq<i64>>;

    /// The recorded arrays are consistent and small enough for the ABI's
    /// 32-bit dimension count.
    spec fn wf(&self) -> bool;

    /// A well-formed layout has matching array lengths, both within the
    /// ABI's dimension bound.
    proof fn lemma_wf(&self)
        requires
            self.wf(),
        ensures
            self.spec_shape().len() <= i32::MAX,
            self.spec_strides() matches Some(s) ==> s.len() == self.spec_shape().len(),
    ;

    /// Number of dimensions as the ABI's 32-bit count.
    fn ndim(&self) -> (r: i32)
        requires
            self.wf(),
        ensures
            r == self.spec_shape().len(),
    ;

    /// The shape array.
    fn shape(&self) -> (r: &[i64])
        requires
            self.wf(),
        ensures
            r@ == self.spec_shape(),
    ;

    /// The strides array, if one is recorded.
    fn strides(&self) -> (r: Option<&[i64]>)
        requires
            self.wf(),
        ensures
            r matches Some(s) ==> self.spec_strides() == Some(s@),
            r is None <==> self.spec_strides() is None,
    ;
}

/// A row-major, gap-free layout: a shape alone, with no strides recorded.
#[derive(Debug)]
pub struct RowMajorCompactLayout {
    shape: Vec<i64>,
}

/// The older name of [`RowMajorCompactLayout`].
pub type ContiguousLayout = RowMajorCompactLayout;

impl RowMajorCompactLayout {
    /// Take ownership of a shape array.
    pub fn new(shape: Vec<i64>) -> (r: Self)
        requires
            shape@.len() <= i32::MAX,
        ensures
            r.wf(),
            r.spec_shape() == shape@,
            r.spec_strides() is None,
    {
        RowMajorCompactLayout { shape }
    }

    /// A layout of `ndim` dimensions, each of extent zero, to be filled
    /// through [`RowMajorCompactLayout::shape_mut`].
    pub fn new_with_ndim(ndim: usize) -> (r: Self)
        requires
            ndim <= i32::MAX,
        ensures
            r.wf(),
            r.spec_shape().len() == ndim,
            forall|i: int| 0 <= i < ndim ==> r.spec_shape()[i] == 0,
            r.spec_strides() is None,
    {
        let shape: Vec<i64> = vec![0i64; ndim];
        assert(forall|i: int| 0 <= i < ndim ==> shape@[i] == 0i64);
        RowMajorCompactLayout { shape }
    }

    /// Mutable access to the shape array for filling in extents.
    pub fn shape_mut(&mut self) -> (r: &mut Vec<i64>)
        ensures
            (*r)@ == old(self).spec_shape(),
            final(self).spec_shape() == final(r)@,
            final(self).spec_strides() is None,
            final(r)@.len() <= i32::MAX ==> final(self).wf(),
    {
        &mut self.shape
    }
}

impl MemoryLayout for RowMajorCompactLayout {
    closed spec fn spec_shape(&self) -> Seq<i64> {
        self.shape@
    }

    closed spec fn spec_strides(&self) -> Option<Seq<i64>> {
        None
    }

    closed spec fn wf(&self) -> bool {
        self.shape@.len() <= i32::MAX
    }

    proof fn lemma_wf(&self) {
    }

    fn ndim(&self) -> (r: i32) {
        self.shape.len() as i32
    }

    fn shape(&self) -> (r: &[i64]) {
        self.shape.as_slice()
    }

    fn strides(&self) -> (r: Option<&[i64]>) {
        None
    }
}

/// A strided layout: a shape array and a strides array of the same length.
#[derive(Debug)]
pub struct StridedLayout {
    shape: Vec<i64>,
    strides: Vec<i64>,
}

impl StridedLayout {
    /// Split one even-length buffer into shape (first half) and strides
    /// (second half).
    pub fn new(shape_and_strides: Vec<i64>) -> (r: Self)
        requires
            shape_and_strides@.len() % 2 == 0,
            shape_and_strides@.len() / 2 <= i32::MAX,
        ensures
            r.wf(),
            r.spec_shape() == shape_and_strides@.subrange(
                0,
                shape_and_strides@.len() as int / 2,
            ),
            r.spec_strides() == Some(
                shape_and_strides@.subrange(
                    shape_and_strides@.len() as int / 2,
                    shape_and_strides@.len() as int,
                ),
            ),
    {
        let half: usize = shape_and_strides.len() / 2;
        let mut shape = shape_and_strides;
        let strides = shape.split_off(half);
        StridedLayout { shape, strides }
    }

    /// A layout of `ndim` dimensions with all extents and strides zero, to be
    /// filled through [`StridedLayout::shape_mut`] and
    /// [`StridedLayout::strides_mut`].
    pub fn with_ndim(ndim: usize) -> (r: Self)
        requires
            ndim <= i32::MAX,
        ensures
            r.wf(),
            r.spec_shape().len() == ndim,
            r.spec_strides() matches Some(s) && s.len() == ndim,
    {
        let shape: Vec<i64> = vec![0i64; ndim];
        let strides: Vec<i64> = vec![0i64; ndim];
        StridedLayout { shape, strides }
    }

    /// The older name of [`StridedLayout::with_ndim`].
    pub fn new_with_ndim(ndim: usize) -> (r: Self)
        requires
            ndim <= i32::MAX,
        ensures
            r.wf(),
            r.spec_shape().len() == ndim,
            r.spec_strides() matches Some(s) && s.len() == ndim,
    {
        StridedLayout::with_ndim(ndim)
    }

    /// Mutable access to the shape array for filling in extents.
    pub fn shape_mut(&mut self) -> (r: &mut Vec<i64>)
        ensures
            (*r)@ == old(self).spec_shape(),
            final(self).spec_shape() == final(r)@,
            final(self).spec_strides() == old(self).spec_strides(),
            final(r)@.len() == old(self).spec_shape().len() && old(self).wf() ==> final(self).wf(),
    {
        &mut self.shape
    }

    /// Mutable access to the strides array for filling in strides.
    pub fn strides_mut(&mut self) -> (r: &mut Vec<i64>)
        ensures
            old(self).spec_strides() == Some((*r)@),
            final(self).spec_strides() == Some(final(r)@),
            final(self).spec_shape() == old(self).spec_shape(),
            final(r)@.len() == old(self).spec_shape().len() && old(self).wf() ==> final(self).wf(),
    {
        &mut self.strides
    }
}

impl MemoryLayout for StridedLayout {
    closed spec fn spec_shape(&self) -> Seq<i64> {
        self.shape@
    }

    closed spec fn spec_strides(&self) -> Option<Seq<i64>> {
        Some(self.strides@)
    }

    closed spec fn wf(&self) -> bool {
        self.shape@.len() <= i32::MAX && self.strides@.len() == self.shape@.len()
    }

    proof fn lemma_wf(&self) {
    }

    fn ndim(&self) -> (r: i32) {
        self.shape.len() as i32
    }

    fn shape(&self) -> (r: &[i64]) {
        self.shape.as_slice()
    }

    fn strides(&self) -> (r: Option<&[i64]>) {
        Some(self.strides.as_slice())
    }
}

/// A layout recording a snapshot of shape and optional strides arrays that a
/// caller owns.
#[derive(Debug)]
pub struct BorrowedLayout {
    shape: Vec<i64>,
    strides: Option<Vec<i64>>,
}

impl BorrowedLayout {
    /// Take ownership of the recorded arrays.
    pub fn new(shape: Vec<i64>, strides: Option<Vec<i64>>) -> (r: Self)
        requires
            shape@.len() <= i32::MAX,
            strides matches Some(s) ==> s@.len() == shape@.len(),
        ensures
            r.wf(),
            r.spec_shape() == shape@,
            r.spec_strides() == (match strides {
                Some(s) => Some(s@),
                None => None::<Seq<i64>>,
            }),
    {
        BorrowedLayout { shape, strides }
    }

    /// Record a snapshot of a caller's arrays.
    pub fn from_slice(shape: &[i64], strides: Option<&[i64]>) -> (r: Self)
        requires
            shape@.len() <= i32::MAX,
            strides matches Some(s) ==> s@.len() == shape@.len(),
        ensures
            r.wf(),
            r.spec_shape() == shape@,
            r.spec_strides() == (match strides {
                Some(s) => Some(s@),
                None => None::<Seq<i64>>,
            }),
    {
        let strides_vec: Option<Vec<i64>> = match strides {
            Some(s) => Some(vstd::slice::slice_to_vec(s)),
            None => None,
        };
        BorrowedLayout { shape: vstd::slice::slice_to_vec(shape), strides: strides_vec }
    }
}

impl MemoryLayout for BorrowedLayout {
    closed spec fn spec_shape(&self) -> Seq<i64> {
        self.shape@
    }

    closed spec fn spec_strides(&self) -> Option<Seq<i64>> {
        match self.strides {
            Some(s) => Some(s@),
            None => None,
        }
    }

    closed spec fn wf(&self) -> bool {
        &&& self.shape@.len() <= i32::MAX
        &&& match self.strides {
            Some(s) => s@.len() == self.shape@.len(),
            None => true,
        }
    }

    proof fn lemma_wf(&self) {
    }

    fn ndim(&self) -> (r: i32) {
        self.shape.len() as i32
    }

    fn shape(&self) -> (r: &[i64]) {
        self.shape.as_slice()
    }

    fn strides(&self) -> (r: Option<&[i64]>) {
        match &self.strides {
            Some(s) => Some(s.as_slice()),
            None => None,
        }
    }
}

} // verus!
