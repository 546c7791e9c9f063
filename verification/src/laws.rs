//! Laws that relate the operations on array handles, stated over what the
//! handles are as mathematical values.

use vstd::prelude::*;
use crate::array::{RearrayModel, Scalar};
use crate::dense::lemma_packed_model;
use crate::index::{
    packed_stride, product, representable, zero_index, lemma_all_zero_unique,
    lemma_packed_stride_unique,
};
use crate::zero::ZeroBits;

verus! {

/// A handle made as zeros of a shape has that shape; once its elements are
/// stored the buffer has that shape too, and holds one zero for each
/// element of the shape.
pub proof fn law_zeros_shape_and_count<T: ZeroBits>(size: Seq<usize>)
    ensures
        (RearrayModel::Lazy { size, fill: Scalar::<T>::Zero }).size() == size,
        (RearrayModel::Lazy { size, fill: Scalar::<T>::Zero }).materialized().size == size,
        (RearrayModel::Lazy { size, fill: Scalar::<T>::Zero }).materialized().mem.len() == product(
            size,
        ),
        (RearrayModel::Lazy { size, fill: Scalar::<T>::Zero }).materialized().mem
            == Seq::new(product(size), |i: int| T::zero_value()),
{
}

/// Storing the elements keeps the shape and the elements, gives a packed
/// buffer, and gives a well-formed one where the handle was well-formed and
/// its shape fits the machine.
pub proof fn law_materialize_preserves<T: ZeroBits>(m: RearrayModel<T>)
    requires
        m.wf(),
        m.addressable(),
    ensures
        m.materialized().size == m.size(),
        m.materialized().stride == m.stride(),
        m.materialized().offset == m.offset(),
        m.materialized().mem == m.contents(),
        m.materialized().is_packed() == m.is_packed(),
        m.materialized().wf(),
{
    match m {
        RearrayModel::Lazy { size, fill } => {
            lemma_packed_model(size, Seq::new(product(size), |i: int| fill.value()));
        },
        RearrayModel::Dense(dense) => {},
    }
}

/// Storing the elements a second time changes nothing: a handle whose
/// elements are stored is its own materialization.
pub proof fn law_materialize_once<T: ZeroBits>(m: RearrayModel<T>)
    ensures
        RearrayModel::Dense(m.materialized()).is_dense(),
        RearrayModel::Dense(m.materialized()).materialized() == m.materialized(),
        m.is_dense() ==> RearrayModel::Dense(m.materialized()) == m,
{
}

/// Of two clones of a handle whose elements are only described, storing
/// the elements of one leaves the other as it was: still only described,
/// with the same shape and the same elements as the one that stores them.
pub proof fn law_clone_independent<T: ZeroBits>(kept: RearrayModel<T>, stored: RearrayModel<T>)
    requires
        !kept.is_dense(),
        stored == kept,
    ensures
        RearrayModel::Dense(stored.materialized()).is_dense(),
        !kept.is_dense(),
        kept.size() == RearrayModel::Dense(stored.materialized()).size(),
        kept.contents() == RearrayModel::Dense(stored.materialized()).contents(),
{
}

/// Writing through a mutable view changes the elements of the handle that
/// was borrowed and nothing else of it: shape, stride and offset stay, and
/// the handle stays well-formed where as many elements are left as were
/// found.
pub proof fn law_write_keeps_layout<T: ZeroBits>(m: RearrayModel<T>, written: Seq<T>)
    requires
        m.wf(),
        m.addressable(),
        written.len() == m.contents().len(),
    ensures
        RearrayModel::Dense(m.materialized().with_mem(written)).size() == m.size(),
        RearrayModel::Dense(m.materialized().with_mem(written)).stride() == m.stride(),
        RearrayModel::Dense(m.materialized().with_mem(written)).offset() == m.offset(),
        RearrayModel::Dense(m.materialized().with_mem(written)).is_packed() == m.is_packed(),
        RearrayModel::Dense(m.materialized().with_mem(written)).contents() == written,
        RearrayModel::Dense(m.materialized().with_mem(written)).wf(),
{
    law_materialize_preserves(m);
}

/// A well-formed handle is packed exactly when its stride is the packed
/// stride of its shape and its offset is zero; one whose elements are only
/// described always is.
pub proof fn law_is_packed<T>(m: RearrayModel<T>)
    requires
        m.wf(),
    ensures
        m.is_packed() <==> (m.stride() == packed_stride(m.size()) && m.offset() == zero_index(
            m.size().len(),
        )),
        !m.is_dense() ==> m.is_packed(),
{
    match m {
        RearrayModel::Lazy { size, fill } => {},
        RearrayModel::Dense(dense) => {
            lemma_packed_stride_unique(dense.size, dense.stride);
            lemma_all_zero_unique(dense.offset);
        },
    }
}

/// Reshaping a well-formed packed handle to a shape with as many elements
/// gives a well-formed packed handle of the new shape, with offset zero,
/// that is stored exactly if the old one was.
pub proof fn law_reshape_layout<T>(m: RearrayModel<T>, size: Seq<usize>)
    requires
        m.wf(),
        m.is_packed(),
        product(size) == product(m.size()),
        m.is_dense() ==> representable(size),
    ensures
        m.reshaped(size).size() == size,
        m.reshaped(size).is_packed(),
        m.reshaped(size).offset() == zero_index(size.len()),
        m.reshaped(size).wf(),
        m.reshaped(size).is_dense() == m.is_dense(),
{
    match m {
        RearrayModel::Lazy { size: old_size, fill } => {},
        RearrayModel::Dense(dense) => {
            lemma_packed_model(size, dense.mem);
        },
    }
}

/// Reshaping to a shape with as many elements keeps the elements, in the
/// same flat order.
pub proof fn law_reshape_contents<T: ZeroBits>(m: RearrayModel<T>, size: Seq<usize>)
    requires
        product(size) == product(m.size()),
    ensures
        m.reshaped(size).contents() == m.contents(),
{
}

} // verus!
