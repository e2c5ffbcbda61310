//! The point index and the resolution of reference lists into positions.
use std::collections::HashMap;
use vstd::prelude::*;
use crate::medium::{Medium, MediumView, OsmNode, Position, mediums_view, position_of};
use crate::partial::PartialResult;

verus! {

broadcast use vstd::std_specs::hash::group_hash_axioms;

/// The lookup that a list of point records gives: each identifier maps to the
/// position of the last record that carries it.
pub open spec fn index_of(points: Seq<OsmNode>) -> Map<i64, Position>
    decreases points.len(),
{
    if points.len() == 0 {
        Map::empty()
    } else {
        index_of(points.drop_last()).insert(points.last().osm_id, position_of(points.last()))
    }
}

/// The positions of the referenced points, in reference order; references
/// with no point are skipped.
pub open spec fn resolve_spec(index: Map<i64, Position>, refs: Seq<i64>) -> Seq<Position>
    decreases refs.len(),
{
    if refs.len() == 0 {
        Seq::empty()
    } else {
        let prev = resolve_spec(index, refs.drop_last());
        if index.contains_key(refs.last()) {
            prev.push(index[refs.last()])
        } else {
            prev
        }
    }
}

/// A medium after resolution: a named medium gets the positions of its
/// references; an unnamed one is left as it is.
pub open spec fn resolved(m: MediumView, index: Map<i64, Position>) -> MediumView {
    if m.name is Some {
        MediumView { positions: resolve_spec(index, m.refs), ..m }
    } else {
        m
    }
}

/// All mediums of a list, resolved.
pub open spec fn resolved_all(ms: Seq<MediumView>, index: Map<i64, Position>) -> Seq<MediumView> {
    ms.map_values(|m: MediumView| resolved(m, index))
}

/// Resolution keeps reference order: where every reference has a point, the
/// positions are those of the references one for one, repeats included; in
/// any case no more positions come out than references went in.
pub proof fn lemma_resolve_in_order(index: Map<i64, Position>, refs: Seq<i64>)
    ensures
        resolve_spec(index, refs).len() <= refs.len(),
        (forall|i: int| 0 <= i < refs.len() ==> index.contains_key(#[trigger] refs[i]))
            ==> resolve_spec(index, refs) == refs.map_values(|r: i64| index[r]),
    decreases refs.len(),
{
    if refs.len() > 0 {
        let init = refs.drop_last();
        lemma_resolve_in_order(index, init);
        if forall|i: int| 0 <= i < refs.len() ==> index.contains_key(#[trigger] refs[i]) {
            assert(forall|i: int| 0 <= i < init.len() ==> init[i] == refs[i]);
            assert(refs.last() == refs[refs.len() - 1]);
            assert(refs.map_values(|r: i64| index[r]) =~= init.map_values(|r: i64| index[r]).push(
                index[refs.last()],
            ));
        }
    }
}

/// Every identifier of a point record is in the index, and a point whose
/// identifier no other record carries is found at its own position.
pub proof fn lemma_index_finds_points(points: Seq<OsmNode>, i: int)
    requires
        0 <= i < points.len(),
    ensures
        index_of(points).contains_key(points[i].osm_id),
        (forall|j: int| 0 <= j < points.len() && j != i ==> (#[trigger] points[j]).osm_id
            != points[i].osm_id) ==> index_of(points)[points[i].osm_id] == position_of(points[i]),
    decreases points.len(),
{
    let init = points.drop_last();
    if i < points.len() - 1 {
        lemma_index_finds_points(init, i);
        assert(init[i] == points[i]);
        if forall|j: int| 0 <= j < points.len() && j != i ==> (#[trigger] points[j]).osm_id
            != points[i].osm_id {
            assert(points[points.len() - 1] == points.last());
            assert forall|j: int| 0 <= j < init.len() && j != i implies (#[trigger] init[j]).osm_id
                != init[i].osm_id by {
                assert(init[j] == points[j]);
            }
        }
    }
}

/// An identifier-keyed lookup of point positions.
pub struct PointIndex {
    map: HashMap<i64, Position>,
}

impl View for PointIndex {
    type V = Map<i64, Position>;

    closed spec fn view(&self) -> Map<i64, Position> {
        self.map@
    }
}

impl PointIndex {
    /// Indexes the points; where identifiers repeat, the later record wins.
    pub fn build(points: &Vec<OsmNode>) -> (r: PointIndex)
        ensures
            r@ == index_of(points@),
    {
        let mut map: HashMap<i64, Position> = HashMap::new();
        let mut i: usize = 0;
        while i < points.len()
            invariant
                i <= points@.len(),
                map@ == index_of(points@.take(i as int)),
            decreases points@.len() - i,
        {
            let n = points[i];
            proof {
                assert(points@.take(i + 1).drop_last() =~= points@.take(i as int));
            }
            map.insert(n.osm_id, Position::from_osm_node(&n));
            i = i + 1;
        }
        assert(points@.take(i as int) =~= points@);
        PointIndex { map }
    }

    /// The position recorded for an identifier, if any.
    pub fn get(&self, id: i64) -> (r: Option<Position>)
        ensures
            r == (if self@.contains_key(id) {
                Some(self@[id])
            } else {
                None
            }),
    {
        match self.map.get(&id) {
            Some(p) => Some(*p),
            None => None,
        }
    }
}

/// Resolves a reference list against the index.
pub fn resolve_positions(index: &PointIndex, refs: &Vec<i64>) -> (r: Vec<Position>)
    ensures
        r@ == resolve_spec(index@, refs@),
{
    let mut out: Vec<Position> = Vec::new();
    let mut i: usize = 0;
    while i < refs.len()
        invariant
            i <= refs@.len(),
            out@ == resolve_spec(index@, refs@.take(i as int)),
        decreases refs@.len() - i,
    {
        proof {
            assert(refs@.take(i + 1).drop_last() =~= refs@.take(i as int));
        }
        match index.get(refs[i]) {
            Some(p) => out.push(p),
            None => {},
        }
        i = i + 1;
    }
    assert(refs@.take(i as int) =~= refs@);
    out
}

/// Fills a named medium's positions from its references.
pub fn resolve_medium(m: &mut Medium, index: &PointIndex)
    ensures
        final(m)@ == resolved(old(m)@, index@),
{
    if m.medium_osm_name.is_some() {
        let positions = resolve_positions(index, &m.osm_node_refs);
        m.medium_positions = positions;
    }
}

/// Resolves every medium of a list, each in its own slot.
pub fn resolve_all(mediums: &mut Vec<Medium>, index: &PointIndex)
    ensures
        mediums_view(final(mediums)@) == resolved_all(mediums_view(old(mediums)@), index@),
{
    let ghost start = mediums_view(mediums@);
    let mut i: usize = 0;
    while i < mediums.len()
        invariant
            i <= mediums@.len(),
            mediums@.len() == start.len(),
            forall|j: int| 0 <= j < i ==> (#[trigger] mediums@[j])@ == resolved(start[j], index@),
            forall|j: int| i <= j < mediums@.len() ==> (#[trigger] mediums@[j])@ == start[j],
        decreases mediums@.len() - i,
    {
        let mut m = Medium::new();
        mediums.set_and_swap(i, &mut m);
        resolve_medium(&mut m, index);
        mediums.set(i, m);
        i = i + 1;
    }
    assert(mediums_view(mediums@) =~= resolved_all(start, index@));
}

/// All point records of a partial result, plain ones first.
pub fn all_points(nodes: Vec<OsmNode>, dense_nodes: Vec<OsmNode>) -> (r: Vec<OsmNode>)
    ensures
        r@ == nodes@ + dense_nodes@,
{
    let mut nodes = nodes;
    let mut dense_nodes = dense_nodes;
    nodes.append(&mut dense_nodes);
    nodes
}

/// Finishes a run: indexes every point of the merged result and resolves each
/// medium against that index.
pub fn build_mediums(partial: PartialResult) -> (r: Vec<Medium>)
    ensures
        mediums_view(r@) == resolved_all(
            mediums_view(partial.mediums@),
            index_of(partial.nodes@ + partial.dense_nodes@),
        ),
{
    let PartialResult { mediums, relations: _, nodes, dense_nodes } = partial;
    let points = all_points(nodes, dense_nodes);
    let index = PointIndex::build(&points);
    let mut mediums = mediums;
    resolve_all(&mut mediums, &index);
    mediums
}

} // verus!
