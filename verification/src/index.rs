//! Multi-dimensional index values, used for shapes, strides and offsets,
//! and the arithmetic that relates a shape to its packed layout.

use vstd::prelude::*;

verus! {

/// Product of all entries of `s`; the empty product is one.
pub open spec fn product(s: Seq<usize>) -> nat
    decreases s.len(),
{
    if s.len() == 0 {
        1
    } else {
        product(s.drop_last()) * (s.last() as nat)
    }
}

/// Every entry of the packed stride of shape `s` fits in a `usize`.
pub open spec fn strides_fit(s: Seq<usize>) -> bool {
    forall|k: int| 0 <= k < s.len() ==> #[trigger] product(s.take(k)) <= usize::MAX
}

/// The packed stride and the element count of shape `s` all fit in a `usize`.
pub open spec fn representable(s: Seq<usize>) -> bool {
    strides_fit(s) && product(s) <= usize::MAX
}

/// `stride` is the packed stride of shape `size`: axis `k` steps over the
/// product of the extents of the axes before it, so the first axis is
/// contiguous.
pub open spec fn is_packed_stride(size: Seq<usize>, stride: Seq<usize>) -> bool {
    stride.len() == size.len() && forall|k: int|
        0 <= k < size.len() ==> (#[trigger] stride[k]) as nat == product(size.take(k))
}

/// The packed stride of shape `size`, where it fits (see [`strides_fit`]).
pub open spec fn packed_stride(size: Seq<usize>) -> Seq<usize> {
    Seq::new(size.len(), |k: int| product(size.take(k)) as usize)
}

/// Every entry of `s` is zero.
pub open spec fn all_zero(s: Seq<usize>) -> bool {
    forall|k: int| 0 <= k < s.len() ==> #[trigger] s[k] == 0
}

/// The index of `dim` axes whose every entry is zero.
pub open spec fn zero_index(dim: nat) -> Seq<usize> {
    Seq::new(dim, |k: int| 0usize)
}

/// A shape whose stride entries fit has exactly one packed stride.
pub proof fn lemma_packed_stride_unique(size: Seq<usize>, stride: Seq<usize>)
    requires
        strides_fit(size),
    ensures
        is_packed_stride(size, stride) <==> stride == packed_stride(size),
{
    if is_packed_stride(size, stride) {
        assert(stride =~= packed_stride(size));
    }
    if stride == packed_stride(size) {
        assert forall|k: int| 0 <= k < size.len() implies (#[trigger] stride[k]) as nat == product(
            size.take(k),
        ) by {
            assert(product(size.take(k)) <= usize::MAX);
        }
    }
}

/// An index is all zero exactly when it is the zero index of its length.
pub proof fn lemma_all_zero_unique(s: Seq<usize>)
    ensures
        all_zero(s) <==> s == zero_index(s.len()),
{
    if all_zero(s) {
        assert(s =~= zero_index(s.len()));
    }
}

/// Extending a prefix by one axis multiplies its product by that axis' extent.
pub proof fn lemma_product_step(s: Seq<usize>, k: int)
    requires
        0 <= k < s.len(),
    ensures
        product(s.take(k + 1)) == product(s.take(k)) * (s[k] as nat),
{
    let t = s.take(k + 1);
    assert(t.drop_last() =~= s.take(k));
    assert(t.last() == s[k]);
}

/// The product over the whole sequence is the product of its full prefix.
pub proof fn lemma_product_full(s: Seq<usize>)
    ensures
        product(s.take(s.len() as int)) == product(s),
{
    assert(s.take(s.len() as int) =~= s);
}

/// A shape with a zero extent holds no elements.
pub proof fn lemma_product_zero(s: Seq<usize>, j: int)
    requires
        0 <= j < s.len(),
        s[j] == 0,
    ensures
        product(s) == 0,
    decreases s.len(),
{
    if j == s.len() - 1 {
        assert(product(s) == product(s.drop_last()) * 0) by (nonlinear_arith)
            requires
                product(s) == product(s.drop_last()) * (s.last() as nat),
                s.last() == 0,
        ;
    } else {
        lemma_product_zero(s.drop_last(), j);
        assert(product(s) == 0) by (nonlinear_arith)
            requires
                product(s) == product(s.drop_last()) * (s.last() as nat),
                product(s.drop_last()) == 0,
        ;
    }
}

/// Where no axis from `k` on is empty, a prefix product never exceeds the
/// product of the whole shape.
pub proof fn lemma_product_prefix_le(s: Seq<usize>, k: int)
    requires
        0 <= k <= s.len(),
        forall|j: int| k <= j < s.len() ==> #[trigger] s[j] >= 1,
    ensures
        product(s.take(k)) <= product(s),
    decreases s.len() - k,
{
    if k == s.len() {
        lemma_product_full(s);
    } else {
        lemma_product_step(s, k);
        lemma_product_prefix_le(s, k + 1);
        assert(product(s.take(k)) <= product(s.take(k)) * (s[k] as nat)) by (nonlinear_arith)
            requires
                s[k] >= 1,
        ;
    }
}

/// An ordered sequence of per-axis values: a shape, a stride or an offset.
#[derive(Debug, PartialEq, Eq)]
pub struct IndexNd {
    pub components: Vec<usize>,
}

impl View for IndexNd {
    type V = Seq<usize>;

    open spec fn view(&self) -> Seq<usize> {
        self.components@
    }
}

impl Clone for IndexNd {
    fn clone(&self) -> (res: IndexNd)
        ensures
            res@ == self@,
    {
        let mut components: Vec<usize> = Vec::new();
        let n: usize = self.components.len();
        let mut k: usize = 0;
        while k < n
            invariant
                n == self.components.len(),
                k <= n,
                components@ == self.components@.take(k as int),
            decreases n - k,
        {
            components.push(self.components[k]);
            assert(components@ =~= self.components@.take(k + 1));
            k = k + 1;
        }
        assert(self.components@.take(n as int) =~= self.components@);
        IndexNd { components }
    }
}

impl From<Vec<usize>> for IndexNd {
    fn from(components: Vec<usize>) -> (res: IndexNd) {
        IndexNd { components }
    }
}

impl vstd::std_specs::convert::FromSpecImpl<Vec<usize>> for IndexNd {
    open spec fn obeys_from_spec() -> bool {
        true
    }

    open spec fn from_spec(components: Vec<usize>) -> IndexNd {
        IndexNd { components }
    }
}

impl core::ops::Index<usize> for IndexNd {
    type Output = usize;

    /// The entry of axis `axis`.
    fn index(&self, axis: usize) -> (value: &usize)
        ensures
            *value == self@[axis as int],
    {
        &self.components[axis]
    }
}

impl vstd::std_specs::core::IndexSpecImpl<usize> for IndexNd {
    open spec fn index_req(&self, axis: &usize) -> bool {
        *axis < self@.len()
    }
}

impl IndexNd {
    /// The index of `dim` axes whose every entry is zero.
    pub fn zero(dim: usize) -> (res: IndexNd)
        ensures
            res@ == zero_index(dim as nat),
    {
        let mut components: Vec<usize> = Vec::new();
        let mut k: usize = 0;
        while k < dim
            invariant
                k <= dim,
                components@.len() == k,
                all_zero(components@),
            decreases dim - k,
        {
            components.push(0);
            k = k + 1;
        }
        proof {
            lemma_all_zero_unique(components@);
        }
        IndexNd { components }
    }

    /// Number of axes.
    pub fn dim(&self) -> (n: usize)
        ensures
            n == self@.len(),
    {
        self.components.len()
    }

    /// Whether every entry is zero.
    pub fn is_zero(&self) -> (b: bool)
        ensures
            b == all_zero(self@),
    {
        let n: usize = self.components.len();
        let mut k: usize = 0;
        while k < n
            invariant
                n == self@.len(),
                k <= n,
                forall|j: int| 0 <= j < k ==> #[trigger] self@[j] == 0,
            decreases n - k,
        {
            if self.components[k] != 0 {
                return false;
            }
            k = k + 1;
        }
        true
    }

    /// Whether some axis has extent zero.
    fn has_empty_axis(&self) -> (b: bool)
        ensures
            b == exists|j: int| 0 <= j < self@.len() && #[trigger] self@[j] == 0,
    {
        let n: usize = self.components.len();
        let mut k: usize = 0;
        while k < n
            invariant
                n == self@.len(),
                k <= n,
                forall|j: int| 0 <= j < k ==> #[trigger] self@[j] != 0,
            decreases n - k,
        {
            if self.components[k] == 0 {
                return true;
            }
            k = k + 1;
        }
        false
    }

    /// The number of elements of this shape, or `None` where that number
    /// does not fit in a `usize`.
    pub fn checked_flat_len(&self) -> (len: Option<usize>)
        ensures
            match len {
                Some(n) => n == product(self@),
                None => product(self@) > usize::MAX,
            },
    {
        if self.has_empty_axis() {
            proof {
                let j = choose|j: int| 0 <= j < self@.len() && #[trigger] self@[j] == 0;
                lemma_product_zero(self@, j);
            }
            return Some(0);
        }
        let n: usize = self.components.len();
        let mut acc: usize = 1;
        let mut k: usize = 0;
        assert(self@.take(0) =~= Seq::<usize>::empty());
        while k < n
            invariant
                n == self@.len(),
                k <= n,
                acc == product(self@.take(k as int)),
                forall|j: int| 0 <= j < self@.len() ==> #[trigger] self@[j] >= 1,
            decreases n - k,
        {
            proof {
                lemma_product_step(self@, k as int);
            }
            match acc.checked_mul(self.components[k]) {
                Some(next) => {
                    acc = next;
                },
                None => {
                    proof {
                        lemma_product_prefix_le(self@, k + 1);
                    }
                    return None;
                },
            }
            k = k + 1;
        }
        proof {
            lemma_product_full(self@);
        }
        Some(acc)
    }

    /// The number of elements of this shape.
    pub fn flat_len(&self) -> (len: usize)
        requires
            product(self@) <= usize::MAX,
        ensures
            len == product(self@),
    {
        match self.checked_flat_len() {
            Some(n) => n,
            None => 0,
        }
    }

    /// Whether the packed stride and the element count of this shape fit in
    /// a `usize`.
    pub fn is_representable(&self) -> (b: bool)
        ensures
            b == representable(self@),
    {
        let n: usize = self.components.len();
        let mut acc: usize = 1;
        let mut k: usize = 0;
        assert(self@.take(0) =~= Seq::<usize>::empty());
        while k < n
            invariant
                n == self@.len(),
                k <= n,
                acc == product(self@.take(k as int)),
                forall|j: int| 0 <= j < k ==> #[trigger] product(self@.take(j)) <= usize::MAX,
            decreases n - k,
        {
            proof {
                lemma_product_step(self@, k as int);
            }
            match acc.checked_mul(self.components[k]) {
                Some(next) => {
                    acc = next;
                },
                None => {
                    proof {
                        lemma_product_full(self@);
                        assert(product(self@.take(k + 1)) > usize::MAX);
                    }
                    return false;
                },
            }
            k = k + 1;
        }
        proof {
            lemma_product_full(self@);
        }
        true
    }

    /// The packed stride of this shape: the first axis is contiguous, and
    /// each later axis steps over everything the axes before it span.
    pub fn to_packed_stride(&self) -> (stride: IndexNd)
        requires
            strides_fit(self@),
        ensures
            stride@ == packed_stride(self@),
    {
        let n: usize = self.components.len();
        let mut components: Vec<usize> = Vec::new();
        let mut acc: usize = 1;
        let mut k: usize = 0;
        assert(self@.take(0) =~= Seq::<usize>::empty());
        while k < n
            invariant
                n == self@.len(),
                k <= n,
                strides_fit(self@),
                components@.len() == k,
                k < n ==> acc == product(self@.take(k as int)),
                forall|j: int| 0 <= j < k ==> (#[trigger] components@[j]) as nat == product(
                    self@.take(j),
                ),
            decreases n - k,
        {
            components.push(acc);
            if k + 1 < n {
                proof {
                    lemma_product_step(self@, k as int);
                    assert(product(self@.take(k + 1)) <= usize::MAX);
                }
                acc = acc * self.components[k];
            }
            k = k + 1;
        }
        proof {
            lemma_packed_stride_unique(self@, components@);
        }
        IndexNd { components }
    }

    /// Whether `stride` is the packed stride of this shape.
    pub fn is_packed(&self, stride: &IndexNd) -> (b: bool)
        ensures
            b == is_packed_stride(self@, stride@),
    {
        let n: usize = self.components.len();
        if stride.components.len() != n {
            return false;
        }
        let mut acc: usize = 1;
        let mut k: usize = 0;
        assert(self@.take(0) =~= Seq::<usize>::empty());
        while k < n
            invariant
                n == self@.len(),
                n == stride@.len(),
                k <= n,
                k < n ==> acc == product(self@.take(k as int)),
                forall|j: int| 0 <= j < k ==> (#[trigger] stride@[j]) as nat == product(
                    self@.take(j),
                ),
            decreases n - k,
        {
            if stride.components[k] != acc {
                return false;
            }
            if k + 1 < n {
                proof {
                    lemma_product_step(self@, k as int);
                }
                match acc.checked_mul(self.components[k]) {
                    Some(next) => {
                        acc = next;
                    },
                    None => {
                        assert(stride@[k + 1] as nat != product(self@.take(k + 1)));
                        return false;
                    },
                }
            }
            k = k + 1;
        }
        true
    }
}

} // verus!
