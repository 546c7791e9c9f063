//! Dense buffers: flat element storage together with the shape, stride and
//! offset that say how to address it.

use vstd::prelude::*;
use crate::index::{
    all_zero, is_packed_stride, packed_stride, product, representable, zero_index, IndexNd,
    lemma_all_zero_unique, lemma_packed_stride_unique,
};
use crate::zero::ZeroBits;

verus! {

/// What a dense buffer is, as mathematical values.
pub struct DenseModel<T> {
    /// Extent of each axis.
    pub size: Seq<usize>,
    /// Base displacement along each axis.
    pub offset: Seq<usize>,
    /// Step, in elements, along each axis.
    pub stride: Seq<usize>,
    /// The stored elements, in flat order.
    pub mem: Seq<T>,
}

impl<T> DenseModel<T> {
    /// Shape, stride and offset have one length, the layout of the shape
    /// fits the machine, and there is one stored element for each element
    /// of the shape.
    pub open spec fn wf(self) -> bool {
        &&& self.offset.len() == self.size.len()
        &&& self.stride.len() == self.size.len()
        &&& representable(self.size)
        &&& self.mem.len() == product(self.size)
    }

    /// The stride is the packed stride of the shape and the offset is zero.
    pub open spec fn is_packed(self) -> bool {
        is_packed_stride(self.size, self.stride) && all_zero(self.offset)
    }

    /// The packed buffer of shape `size` whose every element is `value`.
    pub open spec fn filled(size: Seq<usize>, value: T) -> DenseModel<T> {
        DenseModel {
            size,
            offset: zero_index(size.len()),
            stride: packed_stride(size),
            mem: Seq::new(product(size), |i: int| value),
        }
    }

    /// The packed buffer of shape `size` over the elements `mem`.
    pub open spec fn packed(size: Seq<usize>, mem: Seq<T>) -> DenseModel<T> {
        DenseModel { size, offset: zero_index(size.len()), stride: packed_stride(size), mem }
    }

    /// This buffer with its elements replaced by `mem`.
    pub open spec fn with_mem(self, mem: Seq<T>) -> DenseModel<T> {
        DenseModel { mem, ..self }
    }
}

/// A packed buffer over a shape that fits the machine is packed, and
/// well-formed where it holds one element for each element of the shape.
pub proof fn lemma_packed_model<T>(size: Seq<usize>, mem: Seq<T>)
    requires
        representable(size),
    ensures
        DenseModel::packed(size, mem).is_packed(),
        mem.len() == product(size) ==> DenseModel::packed(size, mem).wf(),
{
    lemma_packed_stride_unique(size, packed_stride(size));
    lemma_all_zero_unique(zero_index(size.len()));
}

/// Flat element storage with its own shape, stride and offset.
pub struct DenseRearray<T: Copy> {
    size: IndexNd,
    offset: IndexNd,
    stride: IndexNd,
    mem: Vec<T>,
}

impl<T: Copy> View for DenseRearray<T> {
    type V = DenseModel<T>;

    closed spec fn view(&self) -> DenseModel<T> {
        DenseModel {
            size: self.size@,
            offset: self.offset@,
            stride: self.stride@,
            mem: self.mem@,
        }
    }
}

/// A vector of `len` copies of `value`.
fn repeat<T: Copy>(value: T, len: usize) -> (mem: Vec<T>)
    ensures
        mem@ == Seq::new(len as nat, |i: int| value),
{
    let mut mem: Vec<T> = Vec::new();
    let mut i: usize = 0;
    while i < len
        invariant
            i <= len,
            mem@ == Seq::new(i as nat, |j: int| value),
        decreases len - i,
    {
        mem.push(value);
        assert(mem@ =~= Seq::new((i + 1) as nat, |j: int| value));
        i = i + 1;
    }
    mem
}

/// A vector with the elements of `src`, in order.
fn duplicate<T: Copy>(src: &Vec<T>) -> (mem: Vec<T>)
    ensures
        mem@ == src@,
{
    let n: usize = src.len();
    let mut mem: Vec<T> = Vec::new();
    let mut i: usize = 0;
    while i < n
        invariant
            n == src@.len(),
            i <= n,
            mem@ == src@.take(i as int),
        decreases n - i,
    {
        mem.push(src[i]);
        assert(mem@ =~= src@.take(i + 1));
        i = i + 1;
    }
    assert(src@.take(n as int) =~= src@);
    mem
}

impl<T: Copy> Clone for DenseRearray<T> {
    /// A buffer of its own with the same elements and the same layout:
    /// shape, stride and offset are kept as they are, not packed anew.
    fn clone(&self) -> (res: DenseRearray<T>)
        ensures
            res@ == self@,
    {
        DenseRearray {
            size: self.size.clone(),
            offset: self.offset.clone(),
            stride: self.stride.clone(),
            mem: duplicate(&self.mem),
        }
    }
}

impl<T: ZeroBits> DenseRearray<T> {
    /// The packed buffer of shape `size` whose every element is zero.
    pub fn zeros(size: IndexNd) -> (res: DenseRearray<T>)
        requires
            representable(size@),
        ensures
            res@ == DenseModel::filled(size@, T::zero_value()),
            res@.wf(),
            res@.is_packed(),
    {
        Self::filled(size, T::zero_bits())
    }
}

impl<T: Copy> DenseRearray<T> {
    /// The packed buffer of shape `size` whose every element is `value`.
    pub fn filled(size: IndexNd, value: T) -> (res: DenseRearray<T>)
        requires
            representable(size@),
        ensures
            res@ == DenseModel::filled(size@, value),
            res@.wf(),
            res@.is_packed(),
    {
        let mem = repeat(value, size.flat_len());
        proof {
            lemma_packed_model(size@, mem@);
        }
        Self::from_vec(size, mem)
    }

    /// The packed buffer of shape `size` over the storage `mem`, which the
    /// caller has allocated and filled with one element for each element of
    /// the shape.
    pub fn from_vec(size: IndexNd, mem: Vec<T>) -> (res: DenseRearray<T>)
        requires
            representable(size@),
            mem@.len() == product(size@),
        ensures
            res@ == DenseModel::packed(size@, mem@),
            res@.wf(),
            res@.is_packed(),
    {
        let offset = IndexNd::zero(size.dim());
        let stride = size.to_packed_stride();
        proof {
            lemma_packed_model(size@, mem@);
        }
        DenseRearray { size, offset, stride, mem }
    }

    /// Overwrites the stored elements with those of `src`, which holds as
    /// many. Shape, stride and offset of this buffer stay as they are.
    pub fn copy_from(&mut self, src: &DenseRearray<T>)
        requires
            old(self)@.mem.len() == src@.mem.len(),
        ensures
            final(self)@ == old(self)@.with_mem(src@.mem),
    {
        let n: usize = self.mem.len();
        let mut i: usize = 0;
        while i < n
            invariant
                n == src.mem@.len(),
                n == self.mem@.len(),
                i <= n,
                self.size == old(self).size,
                self.offset == old(self).offset,
                self.stride == old(self).stride,
                forall|j: int| 0 <= j < i ==> self.mem@[j] == src.mem@[j],
            decreases n - i,
        {
            self.mem.set(i, src.mem[i]);
            i = i + 1;
        }
        assert(self.mem@ =~= src.mem@);
    }
}

impl<T: Copy> DenseRearray<T> {
    /// The shape.
    pub fn size(&self) -> (size: &IndexNd)
        ensures
            size@ == self@.size,
    {
        &self.size
    }

    /// The stride.
    pub fn stride(&self) -> (stride: &IndexNd)
        ensures
            stride@ == self@.stride,
    {
        &self.stride
    }

    /// The offset.
    pub fn offset(&self) -> (offset: &IndexNd)
        ensures
            offset@ == self@.offset,
    {
        &self.offset
    }

    /// Whether the stride is the packed stride of the shape and the offset
    /// is zero.
    pub fn is_packed(&self) -> (b: bool)
        ensures
            b == self@.is_packed(),
    {
        self.size.is_packed(&self.stride) && self.offset.is_zero()
    }

    /// A packed buffer of shape `size` with the elements of this one, in
    /// the same flat order. This buffer is packed and holds as many
    /// elements as the new shape has.
    pub fn reshape(&self, size: IndexNd) -> (res: DenseRearray<T>)
        requires
            self@.is_packed(),
            representable(size@),
            product(size@) == self@.mem.len(),
        ensures
            res@ == DenseModel::packed(size@, self@.mem),
            res@.wf(),
            res@.is_packed(),
    {
        Self::from_vec(size, duplicate(&self.mem))
    }

    /// Borrows this buffer for reading, with a snapshot of its layout.
    pub fn borrow<'a>(&'a self) -> (v: DenseRearrayView<'a, T>)
        ensures
            v@ == self@,
    {
        DenseRearrayView {
            size: self.size.clone(),
            offset: self.offset.clone(),
            stride: self.stride.clone(),
            mem: self.mem.as_slice(),
        }
    }

    /// Borrows this buffer for writing, with a snapshot of its layout. What
    /// the borrower leaves in the elements is what the buffer then holds.
    pub fn borrow_mut<'a>(&'a mut self) -> (vm: DenseRearrayViewMut<'a, T>)
        ensures
            vm@ == old(self)@,
            final(self)@ == old(self)@.with_mem(final(vm.mem)@),
    {
        DenseRearrayViewMut {
            size: self.size.clone(),
            offset: self.offset.clone(),
            stride: self.stride.clone(),
            mem: self.mem.as_mut_slice(),
        }
    }
}

/// A read-only borrow of a dense buffer: a snapshot of its layout, and its
/// elements for as long as the borrow lasts.
pub struct DenseRearrayView<'a, T: Copy> {
    /// Extent of each axis.
    pub size: IndexNd,
    /// Base displacement along each axis.
    pub offset: IndexNd,
    /// Step, in elements, along each axis.
    pub stride: IndexNd,
    /// The elements of the borrowed buffer, in flat order.
    pub mem: &'a [T],
}

impl<'a, T: Copy> View for DenseRearrayView<'a, T> {
    type V = DenseModel<T>;

    open spec fn view(&self) -> DenseModel<T> {
        DenseModel {
            size: self.size@,
            offset: self.offset@,
            stride: self.stride@,
            mem: self.mem@,
        }
    }
}

impl<'a, T: Copy> DenseRearrayView<'a, T> {
    /// The number of elements of the shape.
    pub fn flat_size(&self) -> (len: usize)
        requires
            product(self@.size) <= usize::MAX,
        ensures
            len == product(self@.size),
    {
        self.size.flat_len()
    }

    /// The shape.
    pub fn size(&self) -> (size: &IndexNd)
        ensures
            size@ == self@.size,
    {
        &self.size
    }

    /// The stride.
    pub fn stride(&self) -> (stride: &IndexNd)
        ensures
            stride@ == self@.stride,
    {
        &self.stride
    }

    /// The offset.
    pub fn offset(&self) -> (offset: &IndexNd)
        ensures
            offset@ == self@.offset,
    {
        &self.offset
    }

    /// Whether the stride is the packed stride of the shape and the offset
    /// is zero.
    pub fn is_packed(&self) -> (b: bool)
        ensures
            b == self@.is_packed(),
    {
        self.size.is_packed(&self.stride) && self.offset.is_zero()
    }

    /// The elements of the borrowed buffer, in flat order, for reading.
    pub fn as_ptr(&self) -> (elems: &[T])
        ensures
            elems@ == self@.mem,
    {
        self.mem
    }
}

/// An exclusive borrow of a dense buffer: a snapshot of its layout, and its
/// elements, which can be overwritten for as long as the borrow lasts.
pub struct DenseRearrayViewMut<'a, T: Copy> {
    /// Extent of each axis.
    pub size: IndexNd,
    /// Base displacement along each axis.
    pub offset: IndexNd,
    /// Step, in elements, along each axis.
    pub stride: IndexNd,
    /// The elements of the borrowed buffer, in flat order.
    pub mem: &'a mut [T],
}

impl<'a, T: Copy> View for DenseRearrayViewMut<'a, T> {
    type V = DenseModel<T>;

    open spec fn view(&self) -> DenseModel<T> {
        DenseModel {
            size: self.size@,
            offset: self.offset@,
            stride: self.stride@,
            mem: self.mem@,
        }
    }
}

impl<'a, T: Copy> DenseRearrayViewMut<'a, T> {
    /// The number of elements of the shape.
    pub fn flat_size(&self) -> (len: usize)
        requires
            product(self@.size) <= usize::MAX,
        ensures
            len == product(self@.size),
    {
        self.size.flat_len()
    }

    /// The shape.
    pub fn size(&self) -> (size: &IndexNd)
        ensures
            size@ == self@.size,
    {
        &self.size
    }

    /// The stride.
    pub fn stride(&self) -> (stride: &IndexNd)
        ensures
            stride@ == self@.stride,
    {
        &self.stride
    }

    /// The offset.
    pub fn offset(&self) -> (offset: &IndexNd)
        ensures
            offset@ == self@.offset,
    {
        &self.offset
    }

    /// Whether the stride is the packed stride of the shape and the offset
    /// is zero.
    pub fn is_packed(&self) -> (b: bool)
        ensures
            b == self@.is_packed(),
    {
        self.size.is_packed(&self.stride) && self.offset.is_zero()
    }

    /// The elements of the borrowed buffer, in flat order, for reading.
    pub fn as_ptr(&self) -> (elems: &[T])
        ensures
            elems@ == self@.mem,
    {
        &*self.mem
    }

    /// The elements of the borrowed buffer, in flat order, for writing.
    /// What is written through the result is written to the buffer.
    pub fn as_ptr_mut(&mut self) -> (elems: &mut [T])
        ensures
            elems@ == old(self)@.mem,
            final(self)@ == old(self)@.with_mem(final(elems)@),
            final(final(self).mem)@ == final(old(self).mem)@,
    {
        &mut *self.mem
    }
}

} // verus!
