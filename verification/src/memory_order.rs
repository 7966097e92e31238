//! Classification of tensor layouts from shape and strides, and construction
//! of the canonical row-major and column-major stride vectors.

use vstd::prelude::*;

verus! {

/// How a tensor's elements are laid out in its buffer: gap-free in row-major
/// order, gap-free in column-major order, or neither.
#[derive(Debug, PartialEq, Eq, Structural)]
pub enum MemoryOrder {
    RowMajorContiguous,
    ColumnMajorContiguous,
    NonContiguous,
}

/// Product of the nonzero extents of `shape` at positions `i` and beyond.
/// Dimensions of extent zero are invisible to the contiguity scan, so they do
/// not take part in the expected-stride product.
pub open spec fn nonzero_suffix_product(shape: Seq<i64>, i: int) -> int
    decreases shape.len() - i when i <= shape.len()
{
    if i < 0 || i >= shape.len() {
        1
    } else if shape[i] == 0 {
        nonzero_suffix_product(shape, i + 1)
    } else {
        shape[i] * nonzero_suffix_product(shape, i + 1)
    }
}

/// Product of the nonzero extents of `shape` at positions before `i`.
pub open spec fn nonzero_prefix_product(shape: Seq<i64>, i: int) -> int
    decreases i when 0 <= i
{
    if i <= 0 || i > shape.len() {
        1
    } else if shape[i - 1] == 0 {
        nonzero_prefix_product(shape, i - 1)
    } else {
        shape[i - 1] * nonzero_prefix_product(shape, i - 1)
    }
}

/// Product of all extents of `shape` at positions `i` and beyond.
pub open spec fn suffix_product(shape: Seq<i64>, i: int) -> int
    decreases shape.len() - i when i <= shape.len()
{
    if i < 0 || i >= shape.len() {
        1
    } else {
        shape[i] * suffix_product(shape, i + 1)
    }
}

/// Product of all extents of `shape` at positions before `i`.
pub open spec fn prefix_product(shape: Seq<i64>, i: int) -> int
    decreases i when 0 <= i
{
    if i <= 0 || i > shape.len() {
        1
    } else {
        shape[i - 1] * prefix_product(shape, i - 1)
    }
}

/// The strides describe a row-major, gap-free layout: every dimension of
/// nonzero extent strides by the combined nonzero extent of the dimensions
/// after it.
pub open spec fn spec_row_major_contiguous(shape: Seq<i64>, strides: Seq<i64>) -> bool {
    forall|i: int|
        0 <= i < shape.len() && shape[i] != 0 ==> strides[i] == nonzero_suffix_product(
            shape,
            i + 1,
        )
}

/// The strides describe a column-major, gap-free layout: every dimension of
/// nonzero extent strides by the combined nonzero extent of the dimensions
/// before it.
pub open spec fn spec_column_major_contiguous(shape: Seq<i64>, strides: Seq<i64>) -> bool {
    forall|i: int|
        0 <= i < shape.len() && shape[i] != 0 ==> strides[i] == nonzero_prefix_product(shape, i)
}

/// Zero-extent dimensions are transparent to the running product.
proof fn lemma_nonzero_suffix_product_over_zeros(shape: Seq<i64>, a: int, b: int)
    requires
        0 <= a <= b <= shape.len(),
        forall|j: int| a <= j < b ==> shape[j] == 0,
    ensures
        nonzero_suffix_product(shape, a) == nonzero_suffix_product(shape, b),
    decreases b - a,
{
    if a < b {
        lemma_nonzero_suffix_product_over_zeros(shape, a + 1, b);
    }
}

/// Zero-extent dimensions are transparent to the running product.
proof fn lemma_nonzero_prefix_product_over_zeros(shape: Seq<i64>, a: int, b: int)
    requires
        0 <= a <= b <= shape.len(),
        forall|j: int| a <= j < b ==> shape[j] == 0,
    ensures
        nonzero_prefix_product(shape, a) == nonzero_prefix_product(shape, b),
    decreases b - a,
{
    if a < b {
        lemma_nonzero_prefix_product_over_zeros(shape, a, b - 1);
    }
}

/// With no zero extents, the skipping suffix product is the full one.
proof fn lemma_nonzero_suffix_product_agrees(shape: Seq<i64>, i: int)
    requires
        0 <= i <= shape.len(),
        forall|j: int| 0 <= j < shape.len() ==> shape[j] != 0,
    ensures
        nonzero_suffix_product(shape, i) == suffix_product(shape, i),
    decreases shape.len() - i,
{
    if 0 <= i < shape.len() {
        lemma_nonzero_suffix_product_agrees(shape, i + 1);
    }
}

/// With no zero extents, the skipping prefix product is the full one.
proof fn lemma_nonzero_prefix_product_agrees(shape: Seq<i64>, i: int)
    requires
        0 <= i <= shape.len(),
        forall|j: int| 0 <= j < shape.len() ==> shape[j] != 0,
    ensures
        nonzero_prefix_product(shape, i) == prefix_product(shape, i),
    decreases i,
{
    if 0 < i <= shape.len() {
        lemma_nonzero_prefix_product_agrees(shape, i - 1);
    }
}

/// The canonical row-major strides classify as row-major contiguous: for any
/// shape without zero extents, strides in which every dimension strides by
/// the combined extent of the dimensions after it — exactly what
/// [`make_row_major_strides`] builds — pass the row-major scan. A zero
/// extent breaks the statement, since the canonical strides multiply it in
/// while the scan leaves it out.
pub proof fn lemma_row_major_strides_contiguous(shape: Seq<i64>, strides: Seq<i64>)
    requires
        shape.len() == strides.len(),
        forall|j: int| 0 <= j < shape.len() ==> shape[j] != 0,
        forall|i: int| 0 <= i < strides.len() ==> strides[i] == suffix_product(shape, i + 1),
    ensures
        spec_row_major_contiguous(shape, strides),
{
    assert forall|i: int| 0 <= i < shape.len() && shape[i] != 0 implies strides[i]
        == nonzero_suffix_product(shape, i + 1) by {
        lemma_nonzero_suffix_product_agrees(shape, i + 1);
    }
}

/// The canonical column-major strides classify as column-major contiguous:
/// for any shape without zero extents, strides in which every dimension
/// strides by the combined extent of the dimensions before it — exactly what
/// [`make_column_major_strides`] builds — pass the column-major scan.
pub proof fn lemma_column_major_strides_contiguous(shape: Seq<i64>, strides: Seq<i64>)
    requires
        shape.len() == strides.len(),
        forall|j: int| 0 <= j < shape.len() ==> shape[j] != 0,
        forall|i: int| 0 <= i < strides.len() ==> strides[i] == prefix_product(shape, i),
    ensures
        spec_column_major_contiguous(shape, strides),
{
    assert forall|i: int| 0 <= i < shape.len() && shape[i] != 0 implies strides[i]
        == nonzero_prefix_product(shape, i) by {
        lemma_nonzero_prefix_product_agrees(shape, i);
    }
}

/// Decide whether `strides` lays `shape` out contiguously in row-major order,
/// scanning dimensions from last to first and skipping zero-extent dimensions.
pub fn is_row_major_contiguous(shape: &[i64], strides: &[i64]) -> (r: bool)
    requires
        shape@.len() == strides@.len(),
    ensures
        r == spec_row_major_contiguous(shape@, strides@),
{
    let n: usize = shape.len();
    let mut expected: i64 = 1;
    let mut i: usize = n;
    while i > 0
        invariant
            0 <= i <= n,
            n == shape@.len() == strides@.len(),
            expected as int == nonzero_suffix_product(shape@, i as int),
            forall|j: int|
                i <= j < n && shape@[j] != 0 ==> strides@[j] == nonzero_suffix_product(
                    shape@,
                    j + 1,
                ),
        decreases i,
    {
        let dim = shape[i - 1];
        if dim != 0 {
            if strides[i - 1] != expected {
                return false;
            }
            match expected.checked_mul(dim) {
                Some(next) => {
                    expected = next;
                }
                None => {
                    // The true running product has left the i64 range. The
                    // nearest remaining dimension of nonzero extent, if any,
                    // would have to stride by that product, which no i64 can.
                    let ghost overflowed: int = dim * expected as int;
                    assert(overflowed == nonzero_suffix_product(shape@, i - 1));
                    let mut k: usize = i - 1;
                    while k > 0
                        invariant
                            0 <= k <= i - 1 < n,
                            n == shape@.len() == strides@.len(),
                            forall|j: int| k <= j < i - 1 ==> shape@[j] == 0,
                            overflowed == nonzero_suffix_product(shape@, i - 1),
                            overflowed > i64::MAX || overflowed < i64::MIN,
                            shape@[i - 1] != 0,
                            strides@[i - 1] == nonzero_suffix_product(shape@, i as int),
                        decreases k,
                    {
                        if shape[k - 1] != 0 {
                            proof {
                                lemma_nonzero_suffix_product_over_zeros(
                                    shape@,
                                    k as int,
                                    i - 1,
                                );
                                assert(strides@[k - 1] != nonzero_suffix_product(shape@, k as int));
                            }
                            return false;
                        }
                        k = k - 1;
                    }
                    return true;
                },
            }
        }
        i = i - 1;
    }
    true
}

/// Decide whether `strides` lays `shape` out contiguously in column-major
/// order, scanning dimensions from first to last and skipping zero-extent
/// dimensions.
pub fn is_column_major_contiguous(shape: &[i64], strides: &[i64]) -> (r: bool)
    requires
        shape@.len() == strides@.len(),
    ensures
        r == spec_column_major_contiguous(shape@, strides@),
{
    let n: usize = shape.len();
    let mut expected: i64 = 1;
    let mut i: usize = 0;
    while i < n
        invariant
            0 <= i <= n,
            n == shape@.len() == strides@.len(),
            expected as int == nonzero_prefix_product(shape@, i as int),
            forall|j: int|
                0 <= j < i && shape@[j] != 0 ==> strides@[j] == nonzero_prefix_product(shape@, j),
        decreases n - i,
    {
        let dim = shape[i];
        proof {
            assert(nonzero_prefix_product(shape@, i + 1) == (if shape@[i as int] == 0 {
                nonzero_prefix_product(shape@, i as int)
            } else {
                shape@[i as int] * nonzero_prefix_product(shape@, i as int)
            }));
        }
        if dim != 0 {
            if strides[i] != expected {
                return false;
            }
            match expected.checked_mul(dim) {
                Some(next) => {
                    expected = next;
                }
                None => {
                    // Symmetric to the row-major scan: the running product has
                    // left the i64 range, so the nearest remaining dimension of
                    // nonzero extent cannot match it.
                    let ghost overflowed: int = expected as int * dim;
                    assert(overflowed == nonzero_prefix_product(shape@, i + 1));
                    let mut k: usize = i + 1;
                    while k < n
                        invariant
                            0 <= i < k <= n,
                            n == shape@.len() == strides@.len(),
                            forall|j: int| i + 1 <= j < k ==> shape@[j] == 0,
                            overflowed == nonzero_prefix_product(shape@, i + 1),
                            overflowed > i64::MAX || overflowed < i64::MIN,
                            shape@[i as int] != 0,
                            strides@[i as int] == nonzero_prefix_product(shape@, i as int),
                        decreases n - k,
                    {
                        if shape[k] != 0 {
                            proof {
                                lemma_nonzero_prefix_product_over_zeros(
                                    shape@,
                                    i + 1,
                                    k as int,
                                );
                                assert(strides@[k as int] != nonzero_prefix_product(
                                    shape@,
                                    k as int,
                                ));
                            }
                            return false;
                        }
                        k = k + 1;
                    }
                    return true;
                },
            }
        }
        i = i + 1;
    }
    true
}

impl MemoryOrder {
    /// Classify `shape` and `strides`: row-major contiguous wins over
    /// column-major contiguous where both scans succeed.
    pub fn new(shape: &[i64], strides: &[i64]) -> (r: Self)
        requires
            shape@.len() == strides@.len(),
        ensures
            r == (if spec_row_major_contiguous(shape@, strides@) {
                MemoryOrder::RowMajorContiguous
            } else if spec_column_major_contiguous(shape@, strides@) {
                MemoryOrder::ColumnMajorContiguous
            } else {
                MemoryOrder::NonContiguous
            }),
    {
        if is_row_major_contiguous(shape, strides) {
            MemoryOrder::RowMajorContiguous
        } else if is_column_major_contiguous(shape, strides) {
            MemoryOrder::ColumnMajorContiguous
        } else {
            MemoryOrder::NonContiguous
        }
    }

    /// Either contiguous classification counts as contiguous.
    pub fn is_contiguous(&self) -> (r: bool)
        ensures
            r == (self is RowMajorContiguous || self is ColumnMajorContiguous),
    {
        match self {
            MemoryOrder::RowMajorContiguous | MemoryOrder::ColumnMajorContiguous => true,
            MemoryOrder::NonContiguous => false,
        }
    }
}

/// Build the canonical row-major strides for `shape`: the last dimension
/// strides by one, and every other dimension strides by the combined extent of
/// the dimensions after it.
pub fn make_row_major_strides(shape: &[i64]) -> (r: Vec<i64>)
    requires
        shape@.len() >= 1,
        forall|k: int|
            1 <= k < shape@.len() ==> i64::MIN <= #[trigger] suffix_product(shape@, k)
                <= i64::MAX,
    ensures
        r@.len() == shape@.len(),
        forall|i: int| 0 <= i < r@.len() ==> r@[i] == suffix_product(shape@, i + 1),
{
    let rank: usize = shape.len();
    let mut strides: Vec<i64> = vec![1i64; rank];
    assert(forall|i: int| 0 <= i < rank ==> strides@[i] == 1i64);
    let mut i: usize = rank - 1;
    while i > 0
        invariant
            0 <= i <= rank - 1,
            rank == shape@.len(),
            strides@.len() == rank,
            forall|k: int|
                1 <= k < rank ==> i64::MIN <= #[trigger] suffix_product(shape@, k) <= i64::MAX,
            forall|j: int| i <= j < rank ==> strides@[j] == suffix_product(shape@, j + 1),
        decreases i,
    {
        proof {
            assert(suffix_product(shape@, i as int) == shape@[i as int] * suffix_product(
                shape@,
                i + 1,
            ));
            assert(strides@[i as int] == suffix_product(shape@, i + 1));
            assert(strides@[i as int] * shape@[i as int] == suffix_product(shape@, i as int))
                by (nonlinear_arith)
                requires
                    strides@[i as int] == suffix_product(shape@, i + 1),
                    suffix_product(shape@, i as int) == shape@[i as int] * suffix_product(
                        shape@,
                        i + 1,
                    ),
            ;
            assert(i64::MIN <= suffix_product(shape@, i as int) <= i64::MAX);
        }
        let next: i64 = strides[i] * shape[i];
        strides[i - 1] = next;
        i = i - 1;
    }
    strides
}

/// Build the canonical column-major strides for `shape`: the first dimension
/// strides by one, and every other dimension strides by the combined extent of
/// the dimensions before it.
pub fn make_column_major_strides(shape: &[i64]) -> (r: Vec<i64>)
    requires
        shape@.len() >= 1,
        forall|k: int|
            1 <= k < shape@.len() ==> i64::MIN <= #[trigger] prefix_product(shape@, k)
                <= i64::MAX,
    ensures
        r@.len() == shape@.len(),
        forall|i: int| 0 <= i < r@.len() ==> r@[i] == prefix_product(shape@, i),
{
    let rank: usize = shape.len();
    let mut strides: Vec<i64> = vec![1i64; rank];
    assert(forall|i: int| 0 <= i < rank ==> strides@[i] == 1i64);
    let mut i: usize = 0;
    while i < rank - 1
        invariant
            0 <= i <= rank - 1,
            rank == shape@.len(),
            strides@.len() == rank,
            forall|k: int|
                1 <= k < rank ==> i64::MIN <= #[trigger] prefix_product(shape@, k) <= i64::MAX,
            forall|j: int| 0 <= j <= i ==> strides@[j] == prefix_product(shape@, j),
        decreases rank - i,
    {
        proof {
            assert(prefix_product(shape@, i + 1) == shape@[i as int] * prefix_product(
                shape@,
                i as int,
            ));
            assert(strides@[i as int] == prefix_product(shape@, i as int));
            assert(strides@[i as int] * shape@[i as int] == prefix_product(shape@, i + 1))
                by (nonlinear_arith)
                requires
                    strides@[i as int] == prefix_product(shape@, i as int),
                    prefix_product(shape@, i + 1) == shape@[i as int] * prefix_product(
                        shape@,
                        i as int,
                    ),
            ;
            assert(i64::MIN <= prefix_product(shape@, i + 1) <= i64::MAX);
        }
        let next: i64 = strides[i] * shape[i];
        strides[i + 1] = next;
        i = i + 1;
    }
    strides
}

} // verus!
