//! The boundary to dense linear-algebra kernels: which operands a
//! column-major matrix routine accepts, and the integer arguments it is then
//! called with. The numeric kernels themselves are not part of this crate.

use vstd::prelude::*;
use crate::array::Rearray;
use crate::dense::{DenseModel, DenseRearrayView, DenseRearrayViewMut};

verus! {

/// In-place operations on a vector `y`.
pub trait VectorInPlaceOps<T: Copy + 'static> {
    /// `y = alpha * A * x + beta * y`, for operands that
    /// [`gemv_args`] accepts untransposed.
    fn matrix_vector_mult(&mut self, alpha: T, a: Rearray<T>, x: Rearray<T>, beta: T);

    /// `y = alpha * A^T * x + beta * y`, for operands that
    /// [`gemv_args`] accepts transposed.
    fn transpose_matrix_vector_mult(&mut self, alpha: T, a: Rearray<T>, x: Rearray<T>, beta: T);
}

/// In-place operations on a matrix `Y`.
pub trait MatrixInPlaceOps<T: Copy + 'static> {
    /// `Y = alpha * A * B + beta * Y`, for operands that [`gemm_args`]
    /// accepts.
    fn matrix_mult(&mut self, alpha: T, a: Rearray<T>, b: Rearray<T>, beta: T);

    /// `Y = alpha * A^T * B + beta * Y`.
    fn left_transpose_matrix_mult(&mut self, alpha: T, a: Rearray<T>, b: Rearray<T>, beta: T);

    /// `Y = alpha * A * B^T + beta * Y`.
    fn right_transpose_matrix_mult(&mut self, alpha: T, a: Rearray<T>, b: Rearray<T>, beta: T);
}

/// Why a kernel cannot be called on the given operands.
#[derive(Debug, Clone, Copy, PartialEq, Eq)]
pub enum LinalgError {
    /// An operand has fewer axes than the operation reads.
    Rank,
    /// The extents of the operands do not fit together.
    Shape,
    /// The first axis of a matrix operand is not contiguous.
    Stride,
    /// An extent or a stride is larger than the kernel's integers hold.
    Range,
}

/// The integer arguments of a column-major matrix-vector product.
#[derive(Debug, Clone, Copy, PartialEq, Eq)]
pub struct GemvArgs {
    /// Whether the matrix is applied transposed.
    pub trans: bool,
    /// Rows of the matrix.
    pub m: i32,
    /// Columns of the matrix.
    pub n: i32,
    /// Step between the columns of the matrix.
    pub lda: i32,
    /// Step between the elements of the input vector.
    pub incx: i32,
    /// Step between the elements of the output vector.
    pub incy: i32,
}

/// The integer arguments of a column-major matrix-matrix product.
#[derive(Debug, Clone, Copy, PartialEq, Eq)]
pub struct GemmArgs {
    /// Rows of the result.
    pub m: i32,
    /// Columns of the result.
    pub n: i32,
    /// Columns of the left factor, and rows of the right one.
    pub k: i32,
    /// Step between the columns of the left factor.
    pub lda: i32,
    /// Step between the columns of the right factor.
    pub ldb: i32,
    /// Step between the columns of the result.
    pub ldc: i32,
}

/// The operand has at least `n` axes, each with an extent and a stride.
pub open spec fn has_axes<T>(d: DenseModel<T>, n: nat) -> bool {
    d.size.len() >= n && d.stride.len() >= n
}

/// What [`gemv_args`] returns for the output vector `y`, the matrix `a`
/// and the input vector `x`.
pub open spec fn gemv_outcome<T>(
    trans: bool,
    y: DenseModel<T>,
    a: DenseModel<T>,
    x: DenseModel<T>,
) -> Result<GemvArgs, LinalgError> {
    let (out_axis, in_axis) = if trans {
        (1int, 0int)
    } else {
        (0int, 1int)
    };
    if !(has_axes(a, 2) && has_axes(x, 1) && has_axes(y, 1)) {
        Err(LinalgError::Rank)
    } else if !(a.size[out_axis] == y.size[0] && a.size[in_axis] == x.size[0]) {
        Err(LinalgError::Shape)
    } else if a.stride[0] != 1 {
        Err(LinalgError::Stride)
    } else if !(a.size[0] <= i32::MAX && a.size[1] <= i32::MAX && a.stride[1] <= i32::MAX
        && x.stride[0] <= i32::MAX && y.stride[0] <= i32::MAX) {
        Err(LinalgError::Range)
    } else {
        Ok(
            GemvArgs {
                trans,
                m: a.size[0] as i32,
                n: a.size[1] as i32,
                lda: a.stride[1] as i32,
                incx: x.stride[0] as i32,
                incy: y.stride[0] as i32,
            },
        )
    }
}

/// What [`gemm_args`] returns for the result `y` and the factors `a` and
/// `b`.
pub open spec fn gemm_outcome<T>(y: DenseModel<T>, a: DenseModel<T>, b: DenseModel<T>) -> Result<
    GemmArgs,
    LinalgError,
> {
    if !(has_axes(y, 2) && has_axes(a, 2) && has_axes(b, 2)) {
        Err(LinalgError::Rank)
    } else if !(a.size[0] == y.size[0] && a.size[1] == b.size[0] && b.size[1] == y.size[1]) {
        Err(LinalgError::Shape)
    } else if !(a.stride[0] == 1 && b.stride[0] == 1 && y.stride[0] == 1) {
        Err(LinalgError::Stride)
    } else if !(y.size[0] <= i32::MAX && y.size[1] <= i32::MAX && a.size[1] <= i32::MAX
        && a.stride[1] <= i32::MAX && b.stride[1] <= i32::MAX && y.stride[1] <= i32::MAX) {
        Err(LinalgError::Range)
    } else {
        Ok(
            GemmArgs {
                m: y.size[0] as i32,
                n: y.size[1] as i32,
                k: a.size[1] as i32,
                lda: a.stride[1] as i32,
                ldb: b.stride[1] as i32,
                ldc: y.stride[1] as i32,
            },
        )
    }
}

/// Whether `sz` fits the kernel's integers.
fn fits_int(sz: usize) -> (b: bool)
    ensures
        b == (sz <= i32::MAX),
{
    sz <= 0x7fff_ffff
}

/// `sz` as one of the kernel's integers.
fn sz2int(sz: usize) -> (n: i32)
    requires
        sz <= i32::MAX,
    ensures
        n == sz,
{
    sz as i32
}

/// Checks the operands of a matrix-vector product `y = A * x` (or
/// `y = A^T * x` where `trans` is set) and gives the integer arguments of
/// the kernel call. The checks are made in this order: each operand has the
/// axes that are read; the extents fit together; the first axis of the
/// matrix is contiguous; every argument fits the kernel's integers.
pub fn gemv_args<T: Copy>(
    trans: bool,
    y: &DenseRearrayViewMut<T>,
    a: &DenseRearrayView<T>,
    x: &DenseRearrayView<T>,
) -> (res: Result<GemvArgs, LinalgError>)
    ensures
        res == gemv_outcome(trans, y@, a@, x@),
{
    if a.size.dim() < 2 || a.stride.dim() < 2 || x.size.dim() < 1 || x.stride.dim() < 1
        || y.size.dim() < 1 || y.stride.dim() < 1 {
        return Err(LinalgError::Rank);
    }
    let (out_len, in_len) = if trans {
        (a.size[1], a.size[0])
    } else {
        (a.size[0], a.size[1])
    };
    if out_len != y.size[0] || in_len != x.size[0] {
        return Err(LinalgError::Shape);
    }
    if a.stride[0] != 1 {
        return Err(LinalgError::Stride);
    }
    if !(fits_int(a.size[0]) && fits_int(a.size[1]) && fits_int(a.stride[1])
        && fits_int(x.stride[0]) && fits_int(y.stride[0])) {
        return Err(LinalgError::Range);
    }
    Ok(
        GemvArgs {
            trans,
            m: sz2int(a.size[0]),
            n: sz2int(a.size[1]),
            lda: sz2int(a.stride[1]),
            incx: sz2int(x.stride[0]),
            incy: sz2int(y.stride[0]),
        },
    )
}

/// Checks the operands of a matrix-matrix product `Y = A * B` and gives the
/// integer arguments of the kernel call. The checks are made in this order:
/// each operand has two axes; the extents fit together; the first axis of
/// each operand is contiguous; every argument fits the kernel's integers.
pub fn gemm_args<T: Copy>(
    y: &DenseRearrayViewMut<T>,
    a: &DenseRearrayView<T>,
    b: &DenseRearrayView<T>,
) -> (res: Result<GemmArgs, LinalgError>)
    ensures
        res == gemm_outcome(y@, a@, b@),
{
    if y.size.dim() < 2 || y.stride.dim() < 2 || a.size.dim() < 2 || a.stride.dim() < 2
        || b.size.dim() < 2 || b.stride.dim() < 2 {
        return Err(LinalgError::Rank);
    }
    let nrows = y.size[0];
    let ncols = y.size[1];
    if a.size[0] != nrows || a.size[1] != b.size[0] || b.size[1] != ncols {
        return Err(LinalgError::Shape);
    }
    if a.stride[0] != 1 || b.stride[0] != 1 || y.stride[0] != 1 {
        return Err(LinalgError::Stride);
    }
    if !(fits_int(nrows) && fits_int(ncols) && fits_int(a.size[1]) && fits_int(
        a.stride[1],
    ) && fits_int(b.stride[1]) && fits_int(y.stride[1])) {
        return Err(LinalgError::Range);
    }
    Ok(
        GemmArgs {
            m: sz2int(nrows),
            n: sz2int(ncols),
            k: sz2int(a.size[1]),
            lda: sz2int(a.stride[1]),
            ldb: sz2int(b.stride[1]),
            ldc: sz2int(y.stride[1]),
        },
    )
}

} // verus!
