//! The owned tensor buffer: a flat, contiguous sequence of elements
//! tagged with its own runtime-ranked shape, holding the invariant
//! that the element count equals the product of the extents.

use vstd::prelude::*;

use crate::shape::extent_product;
use crate::shape::lemma_extent_product_prefix_bound;
use crate::shape::lemma_extent_product_take_succ;
use crate::shape::lemma_extent_product_zero;

verus! {

/// The element types a tensor buffer may hold, each with its zero
/// value for freshly allocated buffers.
pub trait TensorType: Sized {
    spec fn spec_zero() -> Self;

    fn zero() -> (r: Self)
        ensures
            r == Self::spec_zero(),
    ;
}

impl TensorType for bool {
    open spec fn spec_zero() -> bool {
        false
    }

    fn zero() -> bool {
        false
    }
}

impl TensorType for u8 {
    open spec fn spec_zero() -> u8 {
        0u8
    }

    fn zero() -> u8 {
        0
    }
}

impl TensorType for u16 {
    open spec fn spec_zero() -> u16 {
        0u16
    }

    fn zero() -> u16 {
        0
    }
}

impl TensorType for u32 {
    open spec fn spec_zero() -> u32 {
        0u32
    }

    fn zero() -> u32 {
        0
    }
}

impl TensorType for u64 {
    open spec fn spec_zero() -> u64 {
        0u64
    }

    fn zero() -> u64 {
        0
    }
}

impl TensorType for usize {
    open spec fn spec_zero() -> usize {
        0usize
    }

    fn zero() -> usize {
        0
    }
}

impl TensorType for i8 {
    open spec fn spec_zero() -> i8 {
        0i8
    }

    fn zero() -> i8 {
        0
    }
}

impl TensorType for i16 {
    open spec fn spec_zero() -> i16 {
        0i16
    }

    fn zero() -> i16 {
        0
    }
}

impl TensorType for i32 {
    open spec fn spec_zero() -> i32 {
        0i32
    }

    fn zero() -> i32 {
        0
    }
}

impl TensorType for i64 {
    open spec fn spec_zero() -> i64 {
        0i64
    }

    fn zero() -> i64 {
        0
    }
}

impl TensorType for isize {
    open spec fn spec_zero() -> isize {
        0isize
    }

    fn zero() -> isize {
        0
    }
}

/// A flat, exclusively owned buffer of elements together with its
/// shape: an ordered sequence of dimension extents of runtime rank.
pub struct TensorBuf<T: TensorType> {
    dims: Vec<usize>,
    data: Vec<T>,
}

impl<T: TensorType> TensorBuf<T> {
    /// The shape's extents, in order.
    pub closed spec fn spec_dims(&self) -> Seq<usize> {
        self.dims@
    }

    /// The buffer's elements, flat and in row-major order.
    pub closed spec fn spec_data(&self) -> Seq<T> {
        self.data@
    }

    /// The backing vector itself, for stating which storage a
    /// borrowed view aliases.
    pub closed spec fn spec_data_vec(&self) -> Vec<T> {
        self.data
    }

    /// The backing vector holds exactly the buffer's elements.
    pub proof fn lemma_data_vec(&self)
        ensures
            self.spec_data_vec()@ == self.spec_data(),
    {
    }

    /// The buffer holds exactly as many elements as its shape describes.
    pub open spec fn wf(&self) -> bool {
        self.spec_data().len() == extent_product(self.spec_dims())
    }

    /// The number of elements a well-formed buffer with these extents
    /// holds; zero extents make it zero.
    pub fn buffer_len(dims: &Vec<usize>) -> (n: usize)
        requires
            extent_product(dims@) <= usize::MAX,
        ensures
            n as int == extent_product(dims@),
    {
        let mut i: usize = 0;
        while i < dims.len()
            invariant
                i <= dims.len(),
                forall|j: int| 0 <= j < i ==> dims@[j] >= 1,
            decreases dims.len() - i,
        {
            if dims[i] == 0 {
                proof {
                    lemma_extent_product_zero(dims@, i as int);
                }
                return 0;
            }
            i += 1;
        }
        let mut n: usize = 1;
        let mut k: usize = 0;
        proof {
            assert(dims@.take(0) =~= Seq::<usize>::empty());
        }
        while k < dims.len()
            invariant
                k <= dims.len(),
                forall|j: int| 0 <= j < dims@.len() ==> dims@[j] >= 1,
                extent_product(dims@) <= usize::MAX,
                n as int == extent_product(dims@.take(k as int)),
            decreases dims.len() - k,
        {
            proof {
                lemma_extent_product_take_succ(dims@, k as int);
                lemma_extent_product_prefix_bound(dims@, k as int + 1);
            }
            n = n * dims[k];
            k += 1;
        }
        proof {
            assert(dims@.take(dims@.len() as int) =~= dims@);
        }
        n
    }

    /// Allocate a buffer of the given shape with every element set to
    /// the element type's zero value. Any shape whose element count
    /// fits in memory is acceptable; this path cannot fail.
    pub fn new(dims: Vec<usize>) -> (r: TensorBuf<T>)
        requires
            extent_product(dims@) <= usize::MAX,
        ensures
            r.wf(),
            r.spec_dims() == dims@,
            r.spec_data().len() == extent_product(dims@),
            forall|j: int| 0 <= j < r.spec_data().len() ==> r.spec_data()[j] == T::spec_zero(),
    {
        let n = Self::buffer_len(&dims);
        let mut data: Vec<T> = Vec::new();
        let mut i: usize = 0;
        while i < n
            invariant
                i <= n,
                data@.len() == i,
                forall|j: int| 0 <= j < i ==> data@[j] == T::spec_zero(),
            decreases n - i,
        {
            data.push(T::zero());
            i += 1;
        }
        TensorBuf { dims, data }
    }

    /// Whether a buffer of `n` elements matches the element count that
    /// these extents describe, whatever that count is.
    fn len_matches(dims: &Vec<usize>, n: usize) -> (b: bool)
        ensures
            b <==> n as int == extent_product(dims@),
    {
        let mut i: usize = 0;
        while i < dims.len()
            invariant
                i <= dims.len(),
                forall|j: int| 0 <= j < i ==> dims@[j] >= 1,
            decreases dims.len() - i,
        {
            if dims[i] == 0 {
                proof {
                    lemma_extent_product_zero(dims@, i as int);
                }
                return n == 0;
            }
            i += 1;
        }
        let mut acc: usize = 1;
        let mut k: usize = 0;
        proof {
            assert(dims@.take(0) =~= Seq::<usize>::empty());
        }
        while k < dims.len()
            invariant
                k <= dims.len(),
                forall|j: int| 0 <= j < dims@.len() ==> dims@[j] >= 1,
                acc as int == extent_product(dims@.take(k as int)),
            decreases dims.len() - k,
        {
            proof {
                lemma_extent_product_take_succ(dims@, k as int);
                lemma_extent_product_prefix_bound(dims@, k as int + 1);
            }
            match acc.checked_mul(dims[k]) {
                Some(a) => {
                    acc = a;
                },
                None => {
                    return false;
                },
            }
            k += 1;
        }
        proof {
            assert(dims@.take(dims@.len() as int) =~= dims@);
        }
        n == acc
    }

    /// Replace the buffer's contents with the given elements, keeping
    /// the shape. Succeeds exactly when the element count matches the
    /// shape; otherwise the buffer is dropped and nothing is returned.
    pub fn with_values(self, values: Vec<T>) -> (r: Option<TensorBuf<T>>)
        ensures
            r is Some <==> values@.len() == extent_product(self.spec_dims()),
            r is Some ==> {
                &&& r->Some_0.wf()
                &&& r->Some_0.spec_dims() == self.spec_dims()
                &&& r->Some_0.spec_data() == values@
            },
    {
        if Self::len_matches(&self.dims, values.len()) {
            Some(TensorBuf { dims: self.dims, data: values })
        } else {
            None
        }
    }

    /// The shape's extents, in order.
    pub fn dims(&self) -> (r: &Vec<usize>)
        ensures
            r@ == self.spec_dims(),
    {
        &self.dims
    }

    /// The buffer's elements, flat and in row-major order.
    pub fn data(&self) -> (r: &Vec<T>)
        ensures
            r@ == self.spec_data(),
            *r == self.spec_data_vec(),
    {
        &self.data
    }

    /// The number of elements the buffer holds.
    pub fn len(&self) -> (n: usize)
        ensures
            n == self.spec_data().len(),
    {
        self.data.len()
    }

    /// Overwrite the element at the given flat offset.
    pub fn set_flat(&mut self, i: usize, value: T)
        requires
            i < old(self).spec_data().len(),
        ensures
            final(self).spec_dims() == old(self).spec_dims(),
            final(self).spec_data() == old(self).spec_data().update(i as int, value),
            old(self).wf() ==> final(self).wf(),
    {
        self.data.set(i, value);
    }
}

} // verus!
