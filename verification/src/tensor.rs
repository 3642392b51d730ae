//! The adapter: an owned buffer paired with a reconciled shape,
//! handing out borrowed read views and an exclusive write view
//! over the same flat storage, without copying it.

use vstd::prelude::*;

use crate::buffer::TensorBuf;
use crate::buffer::TensorType;
use crate::index::flat_index;
use crate::index::flat_offset;
use crate::index::valid_index;
use crate::shape::extent_product;
use crate::shape::reconcile;
use crate::shape::spec_reconcile;
use crate::shape::ShapeError;
use crate::shape::TargetRank;

verus! {

/// A buffer wrapped together with the shape that reconciliation
/// produced for it. Owns the buffer exclusively; views only borrow.
pub struct NdTensor<T: TensorType> {
    inner: TensorBuf<T>,
    shape: Vec<usize>,
}

/// A borrowed, read-only, shape-aware view of a tensor's buffer.
/// Any number of read views may coexist.
pub struct TensorView<'a, T: TensorType> {
    shape: &'a Vec<usize>,
    data: &'a Vec<T>,
}

/// The exclusive write view: a checked-out token that owns the tensor
/// while writes happen and hands it back through `finish`. While the
/// token exists, no other view of the buffer can be formed.
pub struct TensorViewMut<T: TensorType> {
    pub tensor: NdTensor<T>,
}

impl<T: TensorType> NdTensor<T> {
    /// The wrapped buffer, with its own shape metadata intact.
    pub closed spec fn spec_inner(&self) -> TensorBuf<T> {
        self.inner
    }

    /// The reconciled shape's extents, in order.
    pub closed spec fn spec_shape(&self) -> Seq<usize> {
        self.shape@
    }

    /// The buffer's elements, flat and in row-major order.
    pub open spec fn spec_data(&self) -> Seq<T> {
        self.spec_inner().spec_data()
    }

    /// The wrapped buffer is well formed and the stored shape is the
    /// buffer's own, so the element count equals the extent product.
    pub open spec fn wf(&self) -> bool {
        &&& self.spec_inner().wf()
        &&& self.spec_shape() == self.spec_inner().spec_dims()
    }

    /// Wrap a buffer, reconciling its runtime rank against the target
    /// rank. Succeeds exactly when the target admits the buffer's
    /// rank; otherwise the one error kind comes back and the buffer is
    /// dropped.
    pub fn from_tensor(tensor: TensorBuf<T>, rank: &TargetRank) -> (r: Result<
        NdTensor<T>,
        ShapeError,
    >)
        requires
            tensor.wf(),
        ensures
            spec_reconcile(*rank, tensor.spec_dims()) is Some ==> {
                &&& r is Ok
                &&& r->Ok_0.wf()
                &&& r->Ok_0.spec_shape() == spec_reconcile(*rank, tensor.spec_dims())->Some_0
                &&& r->Ok_0.spec_inner() == tensor
            },
            spec_reconcile(*rank, tensor.spec_dims()) is None ==> r == Err::<
                NdTensor<T>,
                ShapeError,
            >(ShapeError),
    {
        match reconcile(rank, tensor.dims()) {
            Ok(shape) => Ok(NdTensor { inner: tensor, shape }),
            Err(e) => Err(e),
        }
    }

    /// A freshly allocated, zero-filled tensor of the given shape.
    /// A shape is always rank-compatible with itself, so this path
    /// cannot fail; only the machine's address space bounds it.
    pub fn zeros(shape: Vec<usize>) -> (r: NdTensor<T>)
        requires
            extent_product(shape@) <= usize::MAX,
        ensures
            r.wf(),
            r.spec_shape() == shape@,
            r.spec_data().len() == extent_product(shape@),
            forall|j: int| 0 <= j < r.spec_data().len() ==> r.spec_data()[j] == T::spec_zero(),
    {
        let dims = copy_extents(&shape);
        let inner = TensorBuf::<T>::new(dims);
        NdTensor { inner, shape }
    }

    /// Borrow the wrapped buffer.
    pub fn inner_ref(&self) -> (r: &TensorBuf<T>)
        ensures
            *r == self.spec_inner(),
    {
        &self.inner
    }

    /// Reclaim the wrapped buffer, consuming the adapter. The buffer
    /// comes back with its shape metadata and contents untouched.
    pub fn into_inner(self) -> (r: TensorBuf<T>)
        ensures
            r == self.spec_inner(),
    {
        self.inner
    }

    /// A read-only view of the tensor. Borrows the buffer in place.
    pub fn view<'a>(&'a self) -> (v: TensorView<'a, T>)
        ensures
            v.spec_shape() == self.spec_shape(),
            v.spec_data() == self.spec_data(),
            self.wf() ==> v.wf(),
    {
        TensorView { shape: &self.shape, data: self.inner.data() }
    }

    /// The exclusive write view. Taking it consumes the tensor, so no
    /// read view can coexist with it; `finish` gives the tensor back.
    pub fn view_mut(self) -> (w: TensorViewMut<T>)
        ensures
            w.tensor == self,
    {
        TensorViewMut { tensor: self }
    }
}

/// Copy a shape's extents into a fresh vector, in order.
fn copy_extents(dims: &Vec<usize>) -> (r: Vec<usize>)
    ensures
        r@ == dims@,
{
    let mut out: Vec<usize> = Vec::new();
    let mut i: usize = 0;
    while i < dims.len()
        invariant
            i <= dims.len(),
            out@ == dims@.take(i as int),
        decreases dims.len() - i,
    {
        out.push(dims[i]);
        proof {
            assert(out@ =~= dims@.take(i + 1));
        }
        i += 1;
    }
    proof {
        assert(out@ =~= dims@);
    }
    out
}

impl<'a, T: TensorType> TensorView<'a, T> {
    /// The view's per-dimension extents, in order.
    pub closed spec fn spec_shape(&self) -> Seq<usize> {
        self.shape@
    }

    /// The viewed elements, flat and in row-major order.
    pub closed spec fn spec_data(&self) -> Seq<T> {
        self.data@
    }

    /// The view covers exactly the elements its shape describes.
    pub open spec fn wf(&self) -> bool {
        self.spec_data().len() == extent_product(self.spec_shape())
    }

    /// The view's rank.
    pub fn ndim(&self) -> (n: usize)
        ensures
            n == self.spec_shape().len(),
    {
        self.shape.len()
    }

    /// The extent of one dimension.
    pub fn dim(&self, j: usize) -> (d: usize)
        requires
            j < self.spec_shape().len(),
        ensures
            d == self.spec_shape()[j as int],
    {
        self.shape[j]
    }

    /// All extents, in order.
    pub fn dims(&self) -> (r: &Vec<usize>)
        ensures
            r@ == self.spec_shape(),
    {
        self.shape
    }

    /// The flat row-major storage behind the view.
    pub fn data(&self) -> (r: &Vec<T>)
        ensures
            r@ == self.spec_data(),
    {
        self.data
    }

    /// The element at a multi-dimensional position, resolved by the
    /// row-major flat offset.
    pub fn at(&self, index: &Vec<usize>) -> (r: &'a T)
        requires
            self.wf(),
            valid_index(self.spec_shape(), index@),
        ensures
            *r == self.spec_data()[flat_index(self.spec_shape(), index@)],
    {
        proof {
            vstd::std_specs::vec::axiom_spec_len(self.data);
        }
        let f = flat_offset(self.shape, index);
        &self.data[f]
    }
}

impl<T: TensorType> TensorViewMut<T> {
    /// The write view's per-dimension extents, in order.
    pub open spec fn spec_shape(&self) -> Seq<usize> {
        self.tensor.spec_shape()
    }

    /// The elements behind the write view, flat and in row-major order.
    pub open spec fn spec_data(&self) -> Seq<T> {
        self.tensor.spec_data()
    }

    /// The checked-out tensor is well formed.
    pub open spec fn wf(&self) -> bool {
        self.tensor.wf()
    }

    /// The element at a multi-dimensional position.
    pub fn at(&self, index: &Vec<usize>) -> (r: &T)
        requires
            self.wf(),
            valid_index(self.spec_shape(), index@),
        ensures
            *r == self.spec_data()[flat_index(self.spec_shape(), index@)],
    {
        self.tensor.view().at(index)
    }

    /// Overwrite the element at a multi-dimensional position. Shape
    /// and every other element stay as they were.
    pub fn set(&mut self, index: &Vec<usize>, value: T)
        requires
            old(self).wf(),
            valid_index(old(self).spec_shape(), index@),
        ensures
            final(self).wf(),
            final(self).spec_shape() == old(self).spec_shape(),
            final(self).spec_data() == old(self).spec_data().update(
                flat_index(old(self).spec_shape(), index@),
                value,
            ),
    {
        let n = self.tensor.inner.len();
        proof {
            assert(n as int == extent_product(old(self).spec_shape()));
        }
        let f = flat_offset(&self.tensor.shape, index);
        self.tensor.inner.set_flat(f, value);
    }

    /// Hand the tensor back, ending the exclusive write access.
    pub fn finish(self) -> (t: NdTensor<T>)
        ensures
            t == self.tensor,
    {
        self.tensor
    }
}

impl<'a, T: TensorType> From<&'a NdTensor<T>> for TensorView<'a, T> {
    /// The coercion form of `view`: pure sugar, the same borrowed view.
    fn from(tensor: &'a NdTensor<T>) -> (v: TensorView<'a, T>) {
        TensorView { shape: &tensor.shape, data: tensor.inner.data() }
    }
}

impl<'a, T: TensorType> vstd::std_specs::convert::FromSpecImpl<&'a NdTensor<T>> for TensorView<'a, T> {
    open spec fn obeys_from_spec() -> bool {
        true
    }

    closed spec fn from_spec(tensor: &'a NdTensor<T>) -> TensorView<'a, T> {
        TensorView { shape: &tensor.shape, data: &tensor.inner.spec_data_vec() }
    }
}

/// What the read-view coercion yields: the same view that `view`
/// gives, over the same shape and storage.
pub proof fn lemma_read_view_coercion<'a, T: TensorType>(tensor: &'a NdTensor<T>)
    ensures
        (<TensorView<'a, T> as vstd::std_specs::convert::FromSpec<&'a NdTensor<T>>>::from_spec(
            tensor,
        )).spec_shape() == tensor.spec_shape(),
        (<TensorView<'a, T> as vstd::std_specs::convert::FromSpec<&'a NdTensor<T>>>::from_spec(
            tensor,
        )).spec_data() == tensor.spec_data(),
{
    tensor.inner.lemma_data_vec();
}

impl<T: TensorType> From<NdTensor<T>> for TensorViewMut<T> {
    /// The coercion form of `view_mut`: pure sugar, same behavior.
    fn from(tensor: NdTensor<T>) -> (w: TensorViewMut<T>) {
        tensor.view_mut()
    }
}

impl<T: TensorType> vstd::std_specs::convert::FromSpecImpl<NdTensor<T>> for TensorViewMut<T> {
    open spec fn obeys_from_spec() -> bool {
        true
    }

    open spec fn from_spec(tensor: NdTensor<T>) -> TensorViewMut<T> {
        TensorViewMut { tensor }
    }
}

/// A buffer wrapped with a fixed target rank equal to its own rank
/// yields a view whose per-dimension extents are the buffer's own,
/// exactly and in order.
pub proof fn lemma_matching_rank_keeps_extents<T: TensorType>(t: TensorBuf<T>, n: NdTensor<T>)
    requires
        t.spec_dims().len() <= usize::MAX,
        spec_reconcile(TargetRank::Fixed(t.spec_dims().len() as usize), t.spec_dims()) == Some(
            n.spec_shape(),
        ),
    ensures
        n.spec_shape() == t.spec_dims(),
{
}

/// Reclaiming the buffer of a tensor that construction accepted gives
/// back exactly the buffer that went in: same shape metadata, same
/// contents.
pub proof fn lemma_reclaim_round_trip<T: TensorType>(
    t: TensorBuf<T>,
    rank: TargetRank,
    n: NdTensor<T>,
    r: TensorBuf<T>,
)
    requires
        spec_reconcile(rank, t.spec_dims()) is Some,
        n.spec_inner() == t,
        r == n.spec_inner(),
    ensures
        r == t,
        r.spec_dims() == t.spec_dims(),
        r.spec_data() == t.spec_data(),
{
}

/// For every well-formed tensor, whatever its shape, the reclaimed
/// buffer holds exactly as many elements as the product of the
/// shape's extents.
pub proof fn lemma_reclaimed_len<T: TensorType>(n: NdTensor<T>, r: TensorBuf<T>)
    requires
        n.wf(),
        r == n.spec_inner(),
    ensures
        r.spec_data().len() == extent_product(n.spec_shape()),
{
}

} // verus!
