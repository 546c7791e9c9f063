//! Array handles: a description of an array that is turned into a stored
//! buffer on first access, and shares that buffer with its clones until one
//! of them is written to.

use std::rc::Rc;
use vstd::prelude::*;
use crate::dense::{DenseModel, DenseRearray, DenseRearrayView, DenseRearrayViewMut};
use crate::index::{packed_stride, product, representable, strides_fit, zero_index, IndexNd};
use crate::layout::Dense;
use crate::zero::ZeroBits;

verus! {

/// The value that every element of a described array has.
pub enum Scalar<T> {
    /// The zero of the element type.
    Zero,
    /// The given value.
    Constant(T),
}

impl<T: Copy> Clone for Scalar<T> {
    fn clone(&self) -> (res: Scalar<T>)
        ensures
            res == *self,
    {
        *self
    }
}

impl<T: Copy> Copy for Scalar<T> {

}

impl<T: ZeroBits> Scalar<T> {
    /// The element value that this stands for.
    pub open spec fn value(self) -> T {
        match self {
            Scalar::Zero => T::zero_value(),
            Scalar::Constant(value) => value,
        }
    }

    /// The element value that this stands for.
    pub fn get(self) -> (value: T)
        ensures
            value == self.value(),
    {
        match self {
            Scalar::Zero => T::zero_bits(),
            Scalar::Constant(value) => value,
        }
    }
}

/// What an array handle is, as mathematical values: either a description
/// of its elements, or a stored buffer.
pub enum RearrayModel<T> {
    /// Every element of the shape `size` has the value `fill`; nothing is
    /// stored.
    Lazy { size: Seq<usize>, fill: Scalar<T> },
    /// The elements are stored in a dense buffer.
    Dense(DenseModel<T>),
}

impl<T> RearrayModel<T> {
    /// Whether the elements are stored.
    pub open spec fn is_dense(self) -> bool {
        self is Dense
    }

    /// The shape.
    pub open spec fn size(self) -> Seq<usize> {
        match self {
            RearrayModel::Lazy { size, .. } => size,
            RearrayModel::Dense(dense) => dense.size,
        }
    }

    /// The stride: that of the buffer where the elements are stored, the
    /// packed stride of the shape where they are not.
    pub open spec fn stride(self) -> Seq<usize> {
        match self {
            RearrayModel::Lazy { size, .. } => packed_stride(size),
            RearrayModel::Dense(dense) => dense.stride,
        }
    }

    /// The offset: that of the buffer where the elements are stored, zero
    /// where they are not.
    pub open spec fn offset(self) -> Seq<usize> {
        match self {
            RearrayModel::Lazy { size, .. } => zero_index(size.len()),
            RearrayModel::Dense(dense) => dense.offset,
        }
    }

    /// Whether the layout is packed: always where the elements are only
    /// described, and by stride and offset where they are stored.
    pub open spec fn is_packed(self) -> bool {
        match self {
            RearrayModel::Lazy { .. } => true,
            RearrayModel::Dense(dense) => dense.is_packed(),
        }
    }

    /// A stored buffer is well-formed; a description always is.
    pub open spec fn wf(self) -> bool {
        match self {
            RearrayModel::Lazy { .. } => true,
            RearrayModel::Dense(dense) => dense.wf(),
        }
    }

    /// The packed layout of the shape and its element count fit the
    /// machine, so that the elements can be stored.
    pub open spec fn addressable(self) -> bool {
        representable(self.size())
    }

    /// The same elements under the shape `size`: a description of the new
    /// shape, or a packed buffer of it over the stored elements.
    pub open spec fn reshaped(self, size: Seq<usize>) -> RearrayModel<T> {
        match self {
            RearrayModel::Lazy { fill, .. } => RearrayModel::Lazy { size, fill },
            RearrayModel::Dense(dense) => RearrayModel::Dense(DenseModel::packed(size, dense.mem)),
        }
    }
}

impl<T: ZeroBits> RearrayModel<T> {
    /// The buffer that holds the elements once they are stored: the buffer
    /// itself where they already are, and else the packed buffer of the
    /// shape in which every element has the described value.
    pub open spec fn materialized(self) -> DenseModel<T> {
        match self {
            RearrayModel::Lazy { size, fill } => DenseModel::filled(size, fill.value()),
            RearrayModel::Dense(dense) => dense,
        }
    }

    /// The elements, in flat order, stored or not.
    pub open spec fn contents(self) -> Seq<T> {
        self.materialized().mem
    }
}

/// Another pointer to the buffer that `dense` points to, made by
/// `Rc::clone`: both point to one allocation, so what the result points to
/// is what `dense` points to.
#[verifier::external_body]
fn share<T: Copy>(dense: &Rc<DenseRearray<T>>) -> (res: Rc<DenseRearray<T>>)
    ensures
        *res == **dense,
{
    Rc::clone(dense)
}

/// Exclusive access to the buffer behind `dense`, by `Rc::make_mut`: where
/// other pointers share the allocation, `dense` is first pointed to a clone
/// of the buffer in an allocation of its own. So the result starts out as
/// what `dense` pointed to or as a clone of it, and `dense` ends up pointing
/// to what the result is left as.
#[verifier::external_body]
fn make_unique<T: Copy>(dense: &mut Rc<DenseRearray<T>>) -> (own: &mut DenseRearray<T>)
    ensures
        cloned(**old(dense), *own),
        **final(dense) == *final(own),
{
    Rc::make_mut(dense)
}

enum RearrayRepr<T: Copy> {
    Dense(Rc<DenseRearray<T>>),
    ScalarRep(IndexNd, Scalar<T>),
}

impl<T: Copy> RearrayRepr<T> {
    spec fn model(&self) -> RearrayModel<T> {
        match self {
            RearrayRepr::Dense(dense) => RearrayModel::Dense((**dense)@),
            RearrayRepr::ScalarRep(size, scalar) => RearrayModel::Lazy {
                size: size@,
                fill: *scalar,
            },
        }
    }

    fn size(&self) -> (size: &IndexNd)
        ensures
            size@ == self.model().size(),
    {
        match self {
            RearrayRepr::Dense(dense) => dense.size(),
            RearrayRepr::ScalarRep(size, _) => size,
        }
    }

    fn stride(&self) -> (stride: IndexNd)
        requires
            !self.model().is_dense() ==> strides_fit(self.model().size()),
        ensures
            stride@ == self.model().stride(),
    {
        match self {
            RearrayRepr::Dense(dense) => dense.stride().clone(),
            RearrayRepr::ScalarRep(size, _) => size.to_packed_stride(),
        }
    }

    fn is_packed(&self) -> (b: bool)
        ensures
            b == self.model().is_packed(),
    {
        match self {
            RearrayRepr::Dense(dense) => dense.is_packed(),
            RearrayRepr::ScalarRep(..) => true,
        }
    }

    fn reshape(&self, size: IndexNd) -> (res: RearrayRepr<T>)
        requires
            self.model().wf(),
            self.model().is_packed(),
            product(size@) == product(self.model().size()),
            self.model().is_dense() ==> strides_fit(size@),
        ensures
            res.model() == self.model().reshaped(size@),
    {
        match self {
            RearrayRepr::Dense(dense) => RearrayRepr::Dense(Rc::new(dense.reshape(size))),
            RearrayRepr::ScalarRep(_, scalar) => RearrayRepr::ScalarRep(size, *scalar),
        }
    }

    fn duplicate(&self) -> (res: RearrayRepr<T>)
        ensures
            res.model() == self.model(),
            self.model().is_dense() ==> res == *self,
    {
        match self {
            RearrayRepr::Dense(dense) => RearrayRepr::Dense(share(dense)),
            RearrayRepr::ScalarRep(size, scalar) => RearrayRepr::ScalarRep(size.clone(), *scalar),
        }
    }
}

impl<T: ZeroBits> RearrayRepr<T> {
    fn densify(&mut self)
        requires
            old(self).model().addressable(),
        ensures
            final(self).model() == RearrayModel::Dense(old(self).model().materialized()),
            old(self).model().is_dense() ==> *final(self) == *old(self),
            old(self).model().wf() ==> final(self).model().wf(),
    {
        match self {
            RearrayRepr::Dense(_) => {},
            RearrayRepr::ScalarRep(size, scalar) => {
                let new_dense = DenseRearray::filled(size.clone(), scalar.get());
                *self = RearrayRepr::Dense(Rc::new(new_dense));
            },
        }
    }
}

/// An array handle. It starts out as a description of its elements and
/// stores them on first access; its clones share the stored buffer until
/// one of them is borrowed for writing.
pub struct Rearray<T: Copy> {
    repr: RearrayRepr<T>,
}

impl<T: Copy> Clone for Rearray<T> {
    /// A handle on the same array: a description is copied, a stored buffer
    /// is shared, so that the clone holds the very buffer that this handle
    /// holds.
    fn clone(&self) -> (res: Rearray<T>)
        ensures
            res.model() == self.model(),
            self.model().is_dense() ==> res == *self,
    {
        Rearray { repr: self.repr.duplicate() }
    }
}

impl<T: Copy> Rearray<T> {
    /// What this handle is, as mathematical values.
    pub closed spec fn model(&self) -> RearrayModel<T> {
        self.repr.model()
    }

    /// The array of shape `size` whose every element is zero. Nothing is
    /// stored yet.
    pub fn zeros(size: IndexNd) -> (res: Rearray<T>)
        ensures
            res.model() == (RearrayModel::Lazy { size: size@, fill: Scalar::<T>::Zero }),
    {
        Rearray { repr: RearrayRepr::ScalarRep(size, Scalar::Zero) }
    }

    /// The array of shape `size` whose every element is `value`. Nothing is
    /// stored yet.
    pub fn constant(size: IndexNd, value: T) -> (res: Rearray<T>)
        ensures
            res.model() == (RearrayModel::Lazy { size: size@, fill: Scalar::Constant(value) }),
    {
        Rearray { repr: RearrayRepr::ScalarRep(size, Scalar::Constant(value)) }
    }

    /// The shape. Stores nothing.
    pub fn size(&self) -> (size: IndexNd)
        ensures
            size@ == self.model().size(),
    {
        self.repr.size().clone()
    }

    /// The stride: that of the stored buffer, or the packed stride of the
    /// shape where nothing is stored. Stores nothing.
    pub fn stride(&self) -> (stride: IndexNd)
        requires
            !self.model().is_dense() ==> strides_fit(self.model().size()),
        ensures
            stride@ == self.model().stride(),
    {
        self.repr.stride()
    }

    /// Whether the layout is packed: the stride is the packed stride of the
    /// shape and the offset is zero. Always so where nothing is stored.
    /// Stores nothing.
    pub fn is_packed(&self) -> (b: bool)
        ensures
            b == self.model().is_packed(),
    {
        self.repr.is_packed()
    }

    /// Borrows the stored elements for reading through a shared reference,
    /// where they are stored; `None` where they are only described. Any
    /// number of such views can be held at once. Stores nothing.
    pub fn stored_view<'a>(&'a self) -> (v: Option<DenseRearrayView<'a, T>>)
        ensures
            match v {
                Some(view) => self.model() == RearrayModel::Dense(view@),
                None => !self.model().is_dense(),
            },
    {
        match &self.repr {
            RearrayRepr::Dense(dense) => Some(dense.borrow()),
            RearrayRepr::ScalarRep(..) => None,
        }
    }

    /// A handle on the same elements, in the same flat order, under the
    /// shape `size`. This handle is packed, and the new shape has as many
    /// elements as the old one. The result is packed with offset zero, and
    /// shares no storage with this handle. Stores nothing that was only
    /// described.
    pub fn reshape(&self, size: IndexNd) -> (res: Rearray<T>)
        requires
            self.model().wf(),
            self.model().is_packed(),
            product(size@) == product(self.model().size()),
            self.model().is_dense() ==> strides_fit(size@),
        ensures
            res.model() == self.model().reshaped(size@),
    {
        Rearray { repr: self.repr.reshape(size) }
    }
}

impl<T: ZeroBits + 'static> Rearray<T> {
    /// Stores the elements where they were only described: a packed buffer
    /// of the same shape, every element with the described value. Where
    /// they are stored already, nothing changes and nothing is allocated.
    pub fn materialize(&mut self)
        requires
            old(self).model().addressable(),
        ensures
            final(self).model() == RearrayModel::Dense(old(self).model().materialized()),
            old(self).model().is_dense() ==> *final(self) == *old(self),
            old(self).model().wf() ==> final(self).model().wf(),
    {
        self.repr.densify();
    }

    /// Borrows the stored elements for reading, storing them first where
    /// they were only described.
    pub fn dense_view<'a>(&'a mut self) -> (v: DenseRearrayView<'a, T>)
        requires
            old(self).model().addressable(),
        ensures
            v@ == old(self).model().materialized(),
            final(self).model() == RearrayModel::Dense(old(self).model().materialized()),
            old(self).model().is_dense() ==> *final(self) == *old(self),
            old(self).model().wf() ==> final(self).model().wf(),
    {
        <Rearray<T> as crate::layout::View<'a, Dense>>::view(self)
    }

    /// Borrows the stored elements for writing, storing them first where
    /// they were only described, and copying them first where other handles
    /// share them: what is written is seen through this handle alone.
    pub fn dense_view_mut<'a>(&'a mut self) -> (vm: DenseRearrayViewMut<'a, T>)
        requires
            old(self).model().addressable(),
        ensures
            vm@ == old(self).model().materialized(),
            old(self).model().wf() ==> vm@.wf(),
            final(self).model() == RearrayModel::Dense(
                old(self).model().materialized().with_mem(final(vm.mem)@),
            ),
    {
        <Rearray<T> as crate::layout::ViewMut<'a, Dense>>::view_mut(self)
    }
}

impl<'a, T: ZeroBits + 'static> crate::layout::View<'a, Dense> for Rearray<T> {
    type V = DenseRearrayView<'a, T>;

    open spec fn viewable(&self) -> bool {
        self.model().addressable()
    }

    fn view(&'a mut self) -> (v: DenseRearrayView<'a, T>)
        ensures
            v@ == old(self).model().materialized(),
            final(self).model() == RearrayModel::Dense(old(self).model().materialized()),
            old(self).model().is_dense() ==> *final(self) == *old(self),
            old(self).model().wf() ==> final(self).model().wf(),
    {
        self.repr.densify();
        match &self.repr {
            RearrayRepr::Dense(dense) => dense.borrow(),
            RearrayRepr::ScalarRep(..) => unreached(),
        }
    }
}

impl<'a, T: ZeroBits + 'static> crate::layout::ViewMut<'a, Dense> for Rearray<T> {
    type VM = DenseRearrayViewMut<'a, T>;

    open spec fn viewable_mut(&self) -> bool {
        self.model().addressable()
    }

    fn view_mut(&'a mut self) -> (vm: DenseRearrayViewMut<'a, T>)
        ensures
            vm@ == old(self).model().materialized(),
            old(self).model().wf() ==> vm@.wf(),
            final(self).model() == RearrayModel::Dense(
                old(self).model().materialized().with_mem(final(vm.mem)@),
            ),
    {
        self.repr.densify();
        match &mut self.repr {
            RearrayRepr::Dense(dense) => make_unique(dense).borrow_mut(),
            RearrayRepr::ScalarRep(..) => unreached(),
        }
    }
}

} // verus!
