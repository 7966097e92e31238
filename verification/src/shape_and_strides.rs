//! The shape and optional strides arrays behind a tensor descriptor, in the
//! three forms an exporter produces them.

use vstd::prelude::*;

use crate::memory_order::suffix_product;

verus! {

/// The dimension arrays of one tensor. A gap-free row-major tensor records
/// its shape alone and no strides; a strided tensor packs shape and strides
/// into one buffer, shape in the first half and strides in the second; a
/// tensor described by arrays that the caller keeps alive records a snapshot
/// of them.
#[derive(Debug)]
pub enum ShapeAndStrides {
    /// Shape only; absent strides mean row-major and gap-free.
    Contiguous(Vec<i64>),
    /// Shape and strides packed into one even-length buffer: the first half
    /// is the shape, the second half the strides.
    WithStrides(Vec<i64>),
    /// Shape and optional strides taken over from a caller's arrays.
    Borrowed { shape: Vec<i64>, strides: Option<Vec<i64>> },
}


/// The strides lay `shape` out gap-free in row-major order with every
/// dimension taking part: dimension `i` strides by the product of all extents
/// after it, zero extents included.
pub open spec fn spec_dense_row_major(shape: Seq<i64>, strides: Seq<i64>) -> bool {
    forall|i: int|
        0 <= i < shape.len() ==> #[trigger] strides[i] == suffix_product(shape, i + 1)
}

impl ShapeAndStrides {
    /// Shape and strides are consistent and small enough for the ABI's
    /// 32-bit dimension count.
    pub open spec fn wf(self) -> bool {
        match self {
            ShapeAndStrides::Contiguous(v) => v@.len() <= i32::MAX,
            ShapeAndStrides::WithStrides(v) => v@.len() % 2 == 0 && v@.len() / 2 <= i32::MAX,
            ShapeAndStrides::Borrowed { shape, strides } => {
                &&& 1 <= shape@.len() <= i32::MAX
                &&& match strides {
                    Some(s) => s@.len() == shape@.len(),
                    None => true,
                }
            },
        }
    }

    /// Number of dimensions recorded.
    pub open spec fn spec_len(self) -> int {
        match self {
            ShapeAndStrides::Contiguous(v) => v@.len() as int,
            ShapeAndStrides::WithStrides(v) => v@.len() as int / 2,
            ShapeAndStrides::Borrowed { shape, .. } => shape@.len() as int,
        }
    }

    /// The shape array.
    pub open spec fn spec_shape(self) -> Seq<i64> {
        match self {
            ShapeAndStrides::Contiguous(v) => v@,
            ShapeAndStrides::WithStrides(v) => v@.subrange(0, v@.len() as int / 2),
            ShapeAndStrides::Borrowed { shape, .. } => shape@,
        }
    }

    /// The strides array, if one is recorded.
    pub open spec fn spec_strides(self) -> Option<Seq<i64>> {
        match self {
            ShapeAndStrides::Contiguous(_) => None,
            ShapeAndStrides::WithStrides(v) => Some(
                v@.subrange(v@.len() as int / 2, v@.len() as int),
            ),
            ShapeAndStrides::Borrowed { strides, .. } => match strides {
                Some(s) => Some(s@),
                None => None,
            },
        }
    }

    /// A well-formed value has matching array lengths within the ABI's
    /// 32-bit dimension bound.
    pub proof fn lemma_wf(self)
        requires
            self.wf(),
        ensures
            self.spec_shape().len() == self.spec_len(),
            self.spec_len() <= i32::MAX,
            self.spec_strides() matches Some(s) ==> s.len() == self.spec_len(),
    {
    }

    /// Record a shape alone; consumers take the absent strides as row-major
    /// and gap-free.
    pub fn new_contiguous(shape: &[i64]) -> (r: Self)
        requires
            shape@.len() <= i32::MAX,
        ensures
            r.wf(),
            r is Contiguous,
            r.spec_shape() == shape@,
            r.spec_strides() is None,
    {
        ShapeAndStrides::Contiguous(vstd::slice::slice_to_vec(shape))
    }

    /// Record a shape with explicit strides, packed into one buffer.
    pub fn new_with_strides(shape: &[i64], strides: &[i64]) -> (r: Self)
        requires
            shape@.len() == strides@.len(),
            shape@.len() <= i32::MAX,
        ensures
            r.wf(),
            r is WithStrides,
            r.spec_shape() == shape@,
            r.spec_strides() == Some(strides@),
    {
        let n: usize = shape.len();
        let mut buf: Vec<i64> = Vec::new();
        let mut i: usize = 0;
        while i < n
            invariant
                0 <= i <= n,
                n == shape@.len() == strides@.len(),
                buf@ == shape@.subrange(0, i as int),
            decreases n - i,
        {
            buf.push(shape[i]);
            i = i + 1;
        }
        assert(buf@ == shape@);
        let mut j: usize = 0;
        while j < n
            invariant
                0 <= j <= n,
                n == shape@.len() == strides@.len(),
                buf@ == shape@ + strides@.subrange(0, j as int),
            decreases n - j,
        {
            buf.push(strides[j]);
            j = j + 1;
        }
        assert(buf@ == shape@ + strides@);
        let r = ShapeAndStrides::WithStrides(buf);
        proof {
            assert(r.spec_shape() =~= shape@);
            assert(r.spec_strides() matches Some(s) && s =~= strides@);
        }
        r
    }

    /// Record a shape together with the row-major strides computed from it:
    /// the last dimension strides by one, and every other dimension by the
    /// combined extent of the dimensions after it.
    pub fn new_contiguous_with_strides(shape: &[i64]) -> (r: Self)
        requires
            shape@.len() <= i32::MAX,
            forall|k: int|
                1 <= k < shape@.len() ==> i64::MIN <= #[trigger] suffix_product(shape@, k)
                    <= i64::MAX,
        ensures
            r.wf(),
            r is WithStrides,
            r.spec_shape() == shape@,
            r.spec_strides() matches Some(s) && s.len() == shape@.len() && forall|i: int|
                0 <= i < shape@.len() ==> s[i] == suffix_product(shape@, i + 1),
    {
        let n: usize = shape.len();
        let mut buf: Vec<i64> = vec![0i64; 2 * n];
        let mut stride: i64 = 1;
        let mut i: usize = n;
        while i > 0
            invariant
                0 <= i <= n,
                n == shape@.len(),
                n <= i32::MAX,
                buf@.len() == 2 * n,
                forall|k: int|
                    1 <= k < n ==> i64::MIN <= #[trigger] suffix_product(shape@, k) <= i64::MAX,
                i > 0 ==> stride as int == suffix_product(shape@, i as int),
                forall|j: int| i <= j < n ==> buf@[j] == shape@[j],
                forall|j: int| i <= j < n ==> buf@[n + j] == #[trigger] suffix_product(
                    shape@,
                    j + 1,
                ),
            decreases i,
        {
            buf[i - 1] = shape[i - 1];
            buf[n + i - 1] = stride;
            if i > 1 {
                proof {
                    assert(suffix_product(shape@, i - 1) == shape@[i - 1] * suffix_product(
                        shape@,
                        i as int,
                    ));
                    assert(shape@[i - 1] * (stride as int) == suffix_product(shape@, i - 1))
                        by (nonlinear_arith)
                        requires
                            stride as int == suffix_product(shape@, i as int),
                            suffix_product(shape@, i - 1) == shape@[i - 1] * suffix_product(
                                shape@,
                                i as int,
                            ),
                    ;
                }
                stride = shape[i - 1] * stride;
            }
            i = i - 1;
        }
        let r = ShapeAndStrides::WithStrides(buf);
        proof {
            assert(r.spec_shape() =~= shape@);
        }
        r
    }

    /// Record a snapshot of a caller's shape and optional strides arrays.
    pub fn new_borrowed(shape: &[i64], strides: Option<&[i64]>) -> (r: Self)
        requires
            1 <= shape@.len() <= i32::MAX,
            strides matches Some(s) ==> s@.len() == shape@.len(),
        ensures
            r.wf(),
            r is Borrowed,
            r.spec_shape() == shape@,
            r.spec_strides() == (match strides {
                Some(s) => Some(s@),
                None => None::<Seq<i64>>,
            }),
    {
        let strides_vec: Option<Vec<i64>> = match strides {
            Some(s) => Some(vstd::slice::slice_to_vec(s)),
            None => None,
        };
        ShapeAndStrides::Borrowed { shape: vstd::slice::slice_to_vec(shape), strides: strides_vec }
    }

    /// Number of dimensions recorded.
    pub fn len(&self) -> (r: usize)
        ensures
            r == self.spec_len(),
    {
        match self {
            ShapeAndStrides::Contiguous(v) => v.len(),
            ShapeAndStrides::WithStrides(v) => v.len() / 2,
            ShapeAndStrides::Borrowed { shape, .. } => shape.len(),
        }
    }

    /// Number of dimensions as the ABI's 32-bit count.
    pub fn ndim(&self) -> (r: i32)
        requires
            self.wf(),
        ensures
            r == self.spec_len(),
    {
        self.len() as i32
    }

    /// Whether no dimensions are recorded.
    pub fn is_empty(&self) -> (r: bool)
        ensures
            r == (self.spec_len() == 0),
    {
        self.len() == 0
    }

    /// The shape array.
    pub fn shape(&self) -> (r: &[i64])
        requires
            self.wf(),
        ensures
            r@ == self.spec_shape(),
    {
        match self {
            ShapeAndStrides::Contiguous(v) => v.as_slice(),
            ShapeAndStrides::WithStrides(v) => &v[0..v.len() / 2],
            ShapeAndStrides::Borrowed { shape, .. } => shape.as_slice(),
        }
    }

    /// The strides array, if one is recorded; a tensor without one is
    /// row-major and gap-free by convention.
    pub fn strides(&self) -> (r: Option<&[i64]>)
        requires
            self.wf(),
        ensures
            r matches Some(s) ==> self.spec_strides() == Some(s@),
            r is None <==> self.spec_strides() is None,
    {
        match self {
            ShapeAndStrides::Contiguous(_) => None,
            ShapeAndStrides::WithStrides(v) => Some(&v[v.len() / 2..v.len()]),
            ShapeAndStrides::Borrowed { strides, .. } => match strides {
                Some(s) => Some(s.as_slice()),
                None => None,
            },
        }
    }

    /// Whether the recorded strides lay the shape out gap-free in row-major
    /// order, every dimension included: dimension `i` must stride by the
    /// product of all extents after it. Absent strides count as contiguous.
    pub open spec fn spec_is_contiguous(self) -> bool {
        match self.spec_strides() {
            None => true,
            Some(strides) => spec_dense_row_major(self.spec_shape(), strides),
        }
    }

    /// Decide whether the recorded strides are row-major and gap-free,
    /// scanning dimensions from last to first. Absent strides are contiguous
    /// by convention.
    pub fn is_contiguous(&self) -> (r: bool)
        requires
            self.wf(),
        ensures
            r == self.spec_is_contiguous(),
    {
        let strides = match self.strides() {
            None => {
                return true;
            },
            Some(s) => s,
        };
        let shape = self.shape();
        let n: usize = shape.len();
        assert(strides@.len() == n);
        let mut expected: i64 = 1;
        let mut i: usize = n;
        while i > 0
            invariant
                0 <= i <= n,
                n == shape@.len() == strides@.len(),
                shape@ == self.spec_shape(),
                self.spec_strides() == Some(strides@),
                expected as int == suffix_product(shape@, i as int),
                forall|j: int| i <= j < n ==> strides@[j] == suffix_product(shape@, j + 1),
            decreases i,
        {
            proof {
                assert(suffix_product(shape@, i - 1) == shape@[i - 1] * suffix_product(
                    shape@,
                    i as int,
                ));
            }
            if strides[i - 1] != expected {
                proof {
                    assert(strides@[i - 1] != suffix_product(shape@, (i - 1) + 1));
                    assert(!spec_dense_row_major(shape@, strides@));
                }
                return false;
            }
            match expected.checked_mul(shape[i - 1]) {
                Some(next) => {
                    expected = next;
                },
                None => {
                    // The true running product has left the i64 range; the
                    // dimension before this one, if any, would have to stride
                    // by it, which no i64 can.
                    proof {
                        assert((expected as int) * shape@[i - 1] == suffix_product(shape@, i - 1))
                            by (nonlinear_arith)
                            requires
                                expected as int == suffix_product(shape@, i as int),
                                suffix_product(shape@, i - 1) == shape@[i - 1] * suffix_product(
                                    shape@,
                                    i as int,
                                ),
                        ;
                    }
                    if i - 1 == 0 {
                        return true;
                    }
                    proof {
                        assert(strides@[i - 2] != suffix_product(shape@, (i - 2) + 1));
                        assert(!spec_dense_row_major(shape@, strides@));
                    }
                    return false;
                },
            }
            i = i - 1;
        }
        true
    }
}

} // verus!
