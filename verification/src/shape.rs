//! Shape reconciliation: translating a source buffer's runtime-ranked
//! shape into a target shape whose rank may be fixed or dynamic.

use vstd::prelude::*;

verus! {

/// Mismatch between a source shape's rank and the target rank.
#[derive(Clone, Copy, Debug, Eq, PartialEq, Structural)]
pub struct ShapeError;

impl ShapeError {
    /// A human-readable description of the error.
    pub fn message(&self) -> (m: &'static str)
        ensures
            m@ == "Mismatch between the tensor shape dimensionality and the shape type"@,
    {
        "Mismatch between the tensor shape dimensionality and the shape type"
    }
}

/// The rank a target shape declares: a fixed arity known up front,
/// or a dynamic arity taken from the source.
#[derive(Clone, Copy, Debug, Eq, PartialEq, Structural)]
pub enum TargetRank {
    Fixed(usize),
    Dynamic,
}

/// The number of elements a shape describes: the product of its extents.
/// The empty shape describes a scalar, hence one element.
pub open spec fn extent_product(dims: Seq<usize>) -> int
    decreases dims.len(),
{
    if dims.len() == 0 {
        1
    } else {
        extent_product(dims.drop_last()) * dims.last()
    }
}

pub proof fn lemma_extent_product_nonneg(dims: Seq<usize>)
    ensures
        extent_product(dims) >= 0,
    decreases dims.len(),
{
    if dims.len() > 0 {
        lemma_extent_product_nonneg(dims.drop_last());
        assert(extent_product(dims.drop_last()) * dims.last() >= 0) by (nonlinear_arith)
            requires
                extent_product(dims.drop_last()) >= 0,
                dims.last() >= 0,
        ;
    }
}

/// Taking one more leading extent multiplies the partial product.
pub proof fn lemma_extent_product_take_succ(dims: Seq<usize>, i: int)
    requires
        0 <= i < dims.len(),
    ensures
        extent_product(dims.take(i + 1)) == extent_product(dims.take(i)) * dims[i],
{
    assert(dims.take(i + 1).drop_last() =~= dims.take(i));
    assert(dims.take(i + 1).last() == dims[i]);
}

/// A shape with a zero extent describes no elements at all.
pub proof fn lemma_extent_product_zero(dims: Seq<usize>, j: int)
    requires
        0 <= j < dims.len(),
        dims[j] == 0,
    ensures
        extent_product(dims) == 0,
    decreases dims.len(),
{
    if j == dims.len() - 1 {
        assert(extent_product(dims) == extent_product(dims.drop_last()) * 0);
    } else {
        lemma_extent_product_zero(dims.drop_last(), j);
    }
}

/// With every extent positive, a prefix never describes more elements
/// than the whole shape.
pub proof fn lemma_extent_product_prefix_bound(dims: Seq<usize>, i: int)
    requires
        0 <= i <= dims.len(),
        forall|j: int| 0 <= j < dims.len() ==> dims[j] >= 1,
    ensures
        extent_product(dims.take(i)) <= extent_product(dims),
    decreases dims.len() - i,
{
    if i == dims.len() {
        assert(dims.take(i) =~= dims);
    } else {
        lemma_extent_product_take_succ(dims, i);
        lemma_extent_product_nonneg(dims.take(i));
        assert(extent_product(dims.take(i)) <= extent_product(dims.take(i + 1))) by (nonlinear_arith)
            requires
                extent_product(dims.take(i + 1)) == extent_product(dims.take(i)) * dims[i],
                extent_product(dims.take(i)) >= 0,
                dims[i] >= 1,
        ;
        lemma_extent_product_prefix_bound(dims, i + 1);
    }
}

/// What reconciliation yields: the source extents, kept in order, when
/// the target rank admits them; nothing when a fixed rank disagrees.
pub open spec fn spec_reconcile(rank: TargetRank, dims: Seq<usize>) -> Option<Seq<usize>> {
    match rank {
        TargetRank::Fixed(k) => if dims.len() == k {
            Some(dims)
        } else {
            None
        },
        TargetRank::Dynamic => Some(dims),
    }
}

/// A fixed target rank that matches the source rank always reconciles,
/// and the reconciled shape keeps every extent, in order.
pub proof fn lemma_rank_match_keeps_extents(dims: Seq<usize>)
    requires
        dims.len() <= usize::MAX,
    ensures
        spec_reconcile(TargetRank::Fixed(dims.len() as usize), dims) == Some(dims),
{
}

/// Populate a target shape from the source extents, positionally and in
/// order, after checking that the target rank admits the source rank.
/// Zero extents are legal and propagate unchanged.
pub fn reconcile(rank: &TargetRank, dims: &Vec<usize>) -> (r: Result<Vec<usize>, ShapeError>)
    ensures
        spec_reconcile(*rank, dims@) is Some ==> r is Ok && r->Ok_0@ == spec_reconcile(
            *rank,
            dims@,
        )->Some_0,
        spec_reconcile(*rank, dims@) is None ==> r == Err::<Vec<usize>, ShapeError>(ShapeError),
{
    if let TargetRank::Fixed(k) = rank {
        if dims.len() != *k {
            return Err(ShapeError);
        }
    }
    let mut out: Vec<usize> = Vec::new();
    let mut i: usize = 0;
    while i < dims.len()
        invariant
            i <= dims.len(),
            out@ == dims@.take(i as int),
        decreases dims.len() - i,
    {
        out.push(dims[i]);
        proof {
            assert(out@ =~= dims@.take(i + 1));
        }
        i += 1;
    }
    proof {
        assert(out@ =~= dims@);
    }
    Ok(out)
}

} // verus!
