//! Row-major index arithmetic: mapping a multi-dimensional position
//! to its flat offset in the buffer, with the proof that every valid
//! position lands inside the buffer.

use vstd::prelude::*;

use crate::shape::extent_product;
use crate::shape::lemma_extent_product_prefix_bound;
use crate::shape::lemma_extent_product_take_succ;

verus! {

/// A position addresses one element: one coordinate per dimension,
/// each strictly below its extent.
pub open spec fn valid_index(dims: Seq<usize>, index: Seq<usize>) -> bool {
    &&& index.len() == dims.len()
    &&& forall|j: int| 0 <= j < index.len() ==> index[j] < dims[j]
}

/// The flat row-major offset of a position: the last coordinate varies
/// fastest. The empty position addresses the single element of a
/// scalar buffer.
pub open spec fn flat_index(dims: Seq<usize>, index: Seq<usize>) -> int
    decreases index.len(),
{
    if index.len() == 0 {
        0
    } else {
        flat_index(dims.drop_last(), index.drop_last()) * dims.last() + index.last()
    }
}

/// One more coordinate refines the offset by one row-major step.
pub proof fn lemma_flat_index_take_succ(dims: Seq<usize>, index: Seq<usize>, k: int)
    requires
        index.len() == dims.len(),
        0 <= k < dims.len(),
    ensures
        flat_index(dims.take(k + 1), index.take(k + 1)) == flat_index(dims.take(k), index.take(k))
            * dims[k] + index[k],
{
    assert(dims.take(k + 1).drop_last() =~= dims.take(k));
    assert(index.take(k + 1).drop_last() =~= index.take(k));
}

/// Every valid position maps to an offset inside the buffer: at least
/// zero and strictly below the element count.
pub proof fn lemma_flat_index_bound(dims: Seq<usize>, index: Seq<usize>)
    requires
        valid_index(dims, index),
    ensures
        0 <= flat_index(dims, index) < extent_product(dims),
    decreases index.len(),
{
    if index.len() == 0 {
    } else {
        let dims0 = dims.drop_last();
        let index0 = index.drop_last();
        lemma_flat_index_bound(dims0, index0);
        let f0 = flat_index(dims0, index0);
        let p0 = extent_product(dims0);
        let d = dims.last();
        let i = index.last();
        assert(0 <= f0 * d + i < p0 * d) by (nonlinear_arith)
            requires
                0 <= f0 < p0,
                0 <= i < d,
        ;
        assert(extent_product(dims) == p0 * d);
    }
}

/// Compute the flat row-major offset of a valid position. The offset
/// is exact and lies inside any buffer that the shape describes.
pub fn flat_offset(dims: &Vec<usize>, index: &Vec<usize>) -> (f: usize)
    requires
        valid_index(dims@, index@),
        extent_product(dims@) <= usize::MAX,
    ensures
        f as int == flat_index(dims@, index@),
        f < extent_product(dims@),
{
    proof {
        lemma_flat_index_bound(dims@, index@);
        assert(dims@.take(0) =~= Seq::<usize>::empty());
        assert(index@.take(0) =~= Seq::<usize>::empty());
    }
    let mut f: usize = 0;
    let mut k: usize = 0;
    while k < index.len()
        invariant
            valid_index(dims@, index@),
            extent_product(dims@) <= usize::MAX,
            k <= index.len(),
            f as int == flat_index(dims@.take(k as int), index@.take(k as int)),
        decreases index.len() - k,
    {
        proof {
            lemma_flat_index_take_succ(dims@, index@, k as int);
            assert(valid_index(dims@.take(k as int + 1), index@.take(k as int + 1)));
            lemma_flat_index_bound(dims@.take(k as int + 1), index@.take(k as int + 1));
            assert(forall|j: int| 0 <= j < dims@.len() ==> dims@[j] >= 1);
            lemma_extent_product_prefix_bound(dims@, k as int + 1);
        }
        f = f * dims[k] + index[k];
        k += 1;
    }
    proof {
        assert(dims@.take(index@.len() as int) =~= dims@);
        assert(index@.take(index@.len() as int) =~= index@);
    }
    f
}

} // verus!
