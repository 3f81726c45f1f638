//! Shared shape arithmetic for contiguous row-major tensors.

use vstd::prelude::*;

use crate::util::text::dims_body;

verus! {

/// Whether `a * b * c`, computed left to right, fits in `usize`.
pub open spec fn fits3(a: int, b: int, c: int) -> bool {
    a * b <= usize::MAX && a * b * c <= usize::MAX
}

/// A rank-3 shape rendered as `(d0, d1, d2)`.
pub open spec fn shape3_text(d0: usize, d1: usize, d2: usize) -> Seq<char> {
    seq!['('] + dims_body(seq![d0, d1, d2]) + seq![')']
}

/// Offset of element `(i, j, k)` in a row-major tensor with dimensions
/// `(_, d1, d2)`.
pub open spec fn offset3(i: int, j: int, k: int, d1: int, d2: int) -> int {
    (i * d1 + j) * d2 + k
}

/// A contiguous row-major rank-3 tensor: its elements and dimensions.
pub struct Tensor3View<T> {
    pub data: Seq<T>,
    pub d0: nat,
    pub d1: nat,
    pub d2: nat,
}

/// An in-bounds element index lies inside the buffer, and each partial sum of the
/// offset computation stays below the element count.
pub proof fn lemma_offset3_in_bounds(i: int, j: int, k: int, d0: int, d1: int, d2: int)
    requires
        0 <= i < d0,
        0 <= j < d1,
        0 <= k < d2,
    ensures
        0 <= i * d1 <= i * d1 + j < d0 * d1,
        0 <= (i * d1 + j) * d2 <= (i * d1 + j) * d2 + k,
        offset3(i, j, k, d1, d2) < d0 * d1 * d2,
        d0 * d1 <= d0 * d1 * d2,
{
    assert(0 <= i * d1) by (nonlinear_arith)
        requires
            0 <= i,
            0 <= d1,
    ;
    assert(d0 * d1 <= d0 * d1 * d2) by (nonlinear_arith)
        requires
            0 <= d0,
            0 <= d1,
            1 <= d2,
    ;
    assert(0 <= i * d1 + j < d0 * d1) by (nonlinear_arith)
        requires
            0 <= i < d0,
            0 <= j < d1,
    ;
    assert((i * d1 + j) * d2 + k < d0 * d1 * d2) by (nonlinear_arith)
        requires
            0 <= i * d1 + j < d0 * d1,
            0 <= k < d2,
    ;
    assert(0 <= (i * d1 + j) * d2) by (nonlinear_arith)
        requires
            0 <= i * d1 + j,
            0 <= d2,
    ;
}

/// Whether `a * b * c * d`, computed left to right, fits in `usize`.
pub open spec fn fits4(a: int, b: int, c: int, d: int) -> bool {
    a * b <= usize::MAX && a * b * c <= usize::MAX && a * b * c * d <= usize::MAX
}

/// Offset of element `(i, j, k, l)` in a row-major tensor with dimensions
/// `(_, d1, d2, d3)`.
pub open spec fn offset4(i: int, j: int, k: int, l: int, d1: int, d2: int, d3: int) -> int {
    ((i * d1 + j) * d2 + k) * d3 + l
}

/// A contiguous row-major rank-4 tensor: its elements and dimensions.
pub struct Tensor4View<T> {
    pub data: Seq<T>,
    pub d0: nat,
    pub d1: nat,
    pub d2: nat,
    pub d3: nat,
}

/// Rank-4 counterpart of [`lemma_offset3_in_bounds`].
pub proof fn lemma_offset4_in_bounds(i: int, j: int, k: int, l: int, d0: int, d1: int, d2: int, d3: int)
    requires
        0 <= i < d0,
        0 <= j < d1,
        0 <= k < d2,
        0 <= l < d3,
    ensures
        0 <= i * d1 <= i * d1 + j < d0 * d1,
        0 <= (i * d1 + j) * d2 <= (i * d1 + j) * d2 + k < d0 * d1 * d2,
        0 <= ((i * d1 + j) * d2 + k) * d3 <= offset4(i, j, k, l, d1, d2, d3),
        offset4(i, j, k, l, d1, d2, d3) < d0 * d1 * d2 * d3,
        d0 * d1 <= d0 * d1 * d2 <= d0 * d1 * d2 * d3,
{
    lemma_offset3_in_bounds(i, j, k, d0, d1, d2);
    let m = (i * d1 + j) * d2 + k;
    assert(m * d3 + l < d0 * d1 * d2 * d3) by (nonlinear_arith)
        requires
            0 <= m < d0 * d1 * d2,
            0 <= l < d3,
    ;
    assert(0 <= m * d3) by (nonlinear_arith)
        requires
            0 <= m,
            0 <= d3,
    ;
    assert(d0 * d1 * d2 <= d0 * d1 * d2 * d3) by (nonlinear_arith)
        requires
            0 <= d0 * d1 * d2,
            1 <= d3,
    ;
}

} // verus!
