//! Partial results of classification and how two of them merge.
use vstd::prelude::*;
use vstd::seq_lib::lemma_multiset_commutative;
use crate::medium::{Medium, MediumView, OsmNode, mediums_view};

verus! {

/// What a batch of records contributes: the drafted mediums, the number of
/// groupings seen, and the point records from the plain and the dense encodings.
pub struct PartialResult {
    pub mediums: Vec<Medium>,
    pub relations: u64,
    pub nodes: Vec<OsmNode>,
    pub dense_nodes: Vec<OsmNode>,
}

/// The mathematical form of a `PartialResult`.
pub struct PartialView {
    pub mediums: Seq<MediumView>,
    pub relations: int,
    pub nodes: Seq<OsmNode>,
    pub dense_nodes: Seq<OsmNode>,
}

impl View for PartialResult {
    type V = PartialView;

    open spec fn view(&self) -> PartialView {
        PartialView {
            mediums: mediums_view(self.mediums@),
            relations: self.relations as int,
            nodes: self.nodes@,
            dense_nodes: self.dense_nodes@,
        }
    }
}

/// The identity of the merge: nothing drafted, nothing counted.
pub open spec fn empty_partial() -> PartialView {
    PartialView {
        mediums: Seq::empty(),
        relations: 0,
        nodes: Seq::empty(),
        dense_nodes: Seq::empty(),
    }
}

/// Two partial results combined: lists concatenated, counts summed.
pub open spec fn merge_spec(a: PartialView, b: PartialView) -> PartialView {
    PartialView {
        mediums: a.mediums + b.mediums,
        relations: a.relations + b.relations,
        nodes: a.nodes + b.nodes,
        dense_nodes: a.dense_nodes + b.dense_nodes,
    }
}

impl PartialResult {
    pub fn new() -> (r: PartialResult)
        ensures
            r@ == empty_partial(),
    {
        let r = PartialResult {
            mediums: Vec::new(),
            relations: 0,
            nodes: Vec::new(),
            dense_nodes: Vec::new(),
        };
        assert(r@.mediums =~= Seq::<MediumView>::empty());
        r
    }
}

/// Combines two partial results; the grouping count must fit in a `u64`.
pub fn merge(a: PartialResult, b: PartialResult) -> (r: PartialResult)
    requires
        a.relations + b.relations <= u64::MAX,
    ensures
        r@ == merge_spec(a@, b@),
{
    let mut a = a;
    let mut b = b;
    let ghost am = a.mediums@;
    let ghost bm = b.mediums@;
    a.mediums.append(&mut b.mediums);
    a.nodes.append(&mut b.nodes);
    a.dense_nodes.append(&mut b.dense_nodes);
    a.relations = a.relations + b.relations;
    assert(mediums_view(am + bm) =~= mediums_view(am) + mediums_view(bm));
    a
}

/// Merging is associative: how partial results are grouped does not change
/// the outcome.
pub proof fn lemma_merge_associative(a: PartialView, b: PartialView, c: PartialView)
    ensures
        merge_spec(merge_spec(a, b), c) == merge_spec(a, merge_spec(b, c)),
{
    assert(merge_spec(merge_spec(a, b), c).mediums =~= merge_spec(a, merge_spec(b, c)).mediums);
    assert(merge_spec(merge_spec(a, b), c).nodes =~= merge_spec(a, merge_spec(b, c)).nodes);
    assert(merge_spec(merge_spec(a, b), c).dense_nodes =~= merge_spec(
        a,
        merge_spec(b, c),
    ).dense_nodes);
}

/// The empty partial result is the identity of merging, on both sides.
pub proof fn lemma_merge_identity(a: PartialView)
    ensures
        merge_spec(empty_partial(), a) == a,
        merge_spec(a, empty_partial()) == a,
{
    assert(merge_spec(empty_partial(), a).mediums =~= a.mediums);
    assert(merge_spec(empty_partial(), a).nodes =~= a.nodes);
    assert(merge_spec(empty_partial(), a).dense_nodes =~= a.dense_nodes);
    assert(merge_spec(a, empty_partial()).mediums =~= a.mediums);
    assert(merge_spec(a, empty_partial()).nodes =~= a.nodes);
    assert(merge_spec(a, empty_partial()).dense_nodes =~= a.dense_nodes);
}

/// Merging is commutative up to order: either way round, the same mediums and
/// points are held, each as many times, and the grouping count is the same.
pub proof fn lemma_merge_commutative(a: PartialView, b: PartialView)
    ensures
        merge_spec(a, b).mediums.to_multiset() == merge_spec(b, a).mediums.to_multiset(),
        merge_spec(a, b).relations == merge_spec(b, a).relations,
        merge_spec(a, b).nodes.to_multiset() == merge_spec(b, a).nodes.to_multiset(),
        merge_spec(a, b).dense_nodes.to_multiset() == merge_spec(b, a).dense_nodes.to_multiset(),
{
    lemma_multiset_commutative(a.mediums, b.mediums);
    lemma_multiset_commutative(b.mediums, a.mediums);
    lemma_multiset_commutative(a.nodes, b.nodes);
    lemma_multiset_commutative(b.nodes, a.nodes);
    lemma_multiset_commutative(a.dense_nodes, b.dense_nodes);
    lemma_multiset_commutative(b.dense_nodes, a.dense_nodes);
}

} // verus!
