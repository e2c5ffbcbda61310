//! The record classifier: from one primitive record to a partial result.
use vstd::prelude::*;
use crate::medium::{Medium, MediumType, MediumTypeView, MediumView, OsmNode, StreetCategory, text_view};
use crate::partial::{
    PartialResult, PartialView, empty_partial, lemma_merge_associative, lemma_merge_identity, merge,
    merge_spec,
};
use crate::tags::{category_of, street_category, text_eq};

verus! {

/// A path record: its identifier, the points it references in order, and its
/// attributes as key/value pairs.
#[derive(Clone, Debug)]
pub struct PathRecord {
    pub id: i64,
    pub refs: Vec<i64>,
    pub tags: Vec<(String, String)>,
}

/// The categories named by the `highway` attributes, in attribute order;
/// values outside the table add nothing.
pub open spec fn categories_of(tags: Seq<(String, String)>) -> Seq<StreetCategory>
    decreases tags.len(),
{
    if tags.len() == 0 {
        Seq::empty()
    } else {
        let prev = categories_of(tags.drop_last());
        let t = tags.last();
        if t.0@ == "highway"@ {
            match category_of(t.1@) {
                Some(c) => prev.push(c),
                None => prev,
            }
        } else {
            prev
        }
    }
}

/// The one-way flag: the last `oneway` attribute reading "yes" or "no" decides;
/// other values change nothing, and the default is false.
pub open spec fn one_way_of(tags: Seq<(String, String)>) -> bool
    decreases tags.len(),
{
    if tags.len() == 0 {
        false
    } else {
        let prev = one_way_of(tags.drop_last());
        let t = tags.last();
        if t.0@ == "oneway"@ {
            if t.1@ == "yes"@ {
                true
            } else if t.1@ == "no"@ {
                false
            } else {
                prev
            }
        } else {
            prev
        }
    }
}

/// The display name: the value of the last `name` attribute.
pub open spec fn name_of(tags: Seq<(String, String)>) -> Option<Seq<char>>
    decreases tags.len(),
{
    if tags.len() == 0 {
        None
    } else {
        let t = tags.last();
        if t.0@ == "name"@ {
            Some(t.1@)
        } else {
            name_of(tags.drop_last())
        }
    }
}

/// A path qualifies when one of its attributes has the key `highway`.
pub open spec fn qualifies(tags: Seq<(String, String)>) -> bool {
    exists|i: int| 0 <= i < tags.len() && (#[trigger] tags[i]).0@ == "highway"@
}

/// The medium that a qualifying path becomes before its positions are resolved.
pub open spec fn draft_of(p: PathRecord) -> MediumView {
    MediumView {
        osm_id: Some(p.id),
        name: name_of(p.tags@),
        medium_type: MediumTypeView::Highway(categories_of(p.tags@)),
        is_one_way: one_way_of(p.tags@),
        refs: p.refs@,
        positions: Seq::empty(),
    }
}

/// Whether some attribute has the key `highway`.
pub fn has_highway_key(tags: &Vec<(String, String)>) -> (r: bool)
    ensures
        r == qualifies(tags@),
{
    let mut i: usize = 0;
    while i < tags.len()
        invariant
            i <= tags@.len(),
            forall|j: int| 0 <= j < i ==> (#[trigger] tags@[j]).0@ != "highway"@,
        decreases tags@.len() - i,
    {
        if text_eq(tags[i].0.as_str(), "highway") {
            return true;
        }
        i = i + 1;
    }
    false
}

/// Walks the attributes once, collecting the categories, the one-way flag and
/// the name.
pub fn read_tags(tags: &Vec<(String, String)>) -> (r: (Vec<StreetCategory>, bool, Option<String>))
    ensures
        r.0@ == categories_of(tags@),
        r.1 == one_way_of(tags@),
        text_view(r.2) == name_of(tags@),
{
    let mut categories: Vec<StreetCategory> = Vec::new();
    let mut one_way = false;
    let mut name: Option<String> = None;
    let mut i: usize = 0;
    while i < tags.len()
        invariant
            i <= tags@.len(),
            categories@ == categories_of(tags@.take(i as int)),
            one_way == one_way_of(tags@.take(i as int)),
            text_view(name) == name_of(tags@.take(i as int)),
        decreases tags@.len() - i,
    {
        let key = tags[i].0.as_str();
        let value = tags[i].1.as_str();
        assert(tags@.take(i + 1).drop_last() =~= tags@.take(i as int));
        assert(tags@.take(i + 1).last() == tags@[i as int]);
        if text_eq(key, "highway") {
            match street_category(value) {
                Some(c) => categories.push(c),
                None => {},
            }
        }
        if text_eq(key, "oneway") {
            if text_eq(value, "yes") {
                one_way = true;
            } else if text_eq(value, "no") {
                one_way = false;
            }
        }
        if text_eq(key, "name") {
            name = Some(tags[i].1.clone());
        }
        i = i + 1;
    }
    assert(tags@.take(i as int) =~= tags@);
    (categories, one_way, name)
}

/// Builds the medium for a path of interest; a path without a `highway`
/// attribute gives none.
pub fn classify_path(p: &PathRecord) -> (r: Option<Medium>)
    ensures
        r is Some <==> qualifies(p.tags@),
        r matches Some(m) ==> m@ == draft_of(*p),
{
    if !has_highway_key(&p.tags) {
        return None;
    }
    let (categories, one_way, name) = read_tags(&p.tags);
    let refs = p.refs.clone();
    assert(refs@ =~= p.refs@);
    let m = Medium {
        osm_id: Some(p.id),
        medium_osm_name: name,
        medium_type: MediumType::Highway(categories),
        is_one_way: one_way,
        osm_node_refs: refs,
        medium_positions: Vec::new(),
    };
    Some(m)
}

/// One primitive record of the extract.
#[derive(Clone, Debug)]
pub enum Record {
    /// A point in the plain encoding.
    Node(OsmNode),
    /// A point from a dense batch.
    DenseNode(OsmNode),
    /// A path over points.
    Way(PathRecord),
    /// A grouping of other records; only counted.
    Relation,
}

/// What one record contributes to the result.
pub open spec fn classify_spec(r: Record) -> PartialView {
    match r {
        Record::Node(n) => PartialView { nodes: seq![n], ..empty_partial() },
        Record::DenseNode(n) => PartialView { dense_nodes: seq![n], ..empty_partial() },
        Record::Way(p) => PartialView {
            mediums: if qualifies(p.tags@) { seq![draft_of(p)] } else { Seq::empty() },
            ..empty_partial()
        },
        Record::Relation => PartialView { relations: 1, ..empty_partial() },
    }
}

/// What a sequence of records contributes, taken as one batch.
pub open spec fn classify_all_spec(rs: Seq<Record>) -> PartialView
    decreases rs.len(),
{
    if rs.len() == 0 {
        empty_partial()
    } else {
        merge_spec(classify_all_spec(rs.drop_last()), classify_spec(rs.last()))
    }
}

/// Classifies one record.
pub fn classify(record: &Record) -> (r: PartialResult)
    ensures
        r@ == classify_spec(*record),
{
    let mut r = PartialResult::new();
    match record {
        Record::Node(n) => {
            r.nodes.push(*n);
        },
        Record::DenseNode(n) => {
            r.dense_nodes.push(*n);
        },
        Record::Way(p) => {
            match classify_path(p) {
                Some(m) => {
                    r.mediums.push(m);
                    assert(r@.mediums =~= seq![draft_of(*p)]);
                },
                None => {},
            }
        },
        Record::Relation => {
            r.relations = 1;
        },
    }
    r
}

/// The grouping count of a batch never exceeds its number of records.
pub proof fn lemma_relations_bounded(rs: Seq<Record>)
    ensures
        0 <= classify_all_spec(rs).relations <= rs.len(),
    decreases rs.len(),
{
    if rs.len() > 0 {
        lemma_relations_bounded(rs.drop_last());
    }
}

/// Classifies a batch of records in order and merges what each contributes.
pub fn classify_all(records: &Vec<Record>) -> (r: PartialResult)
    requires
        records@.len() <= u64::MAX,
    ensures
        r@ == classify_all_spec(records@),
{
    let mut acc = PartialResult::new();
    let mut i: usize = 0;
    while i < records.len()
        invariant
            i <= records@.len(),
            records@.len() <= u64::MAX,
            acc@ == classify_all_spec(records@.take(i as int)),
        decreases records@.len() - i,
    {
        let part = classify(&records[i]);
        proof {
            lemma_relations_bounded(records@.take(i as int));
            assert(records@.take(i + 1).drop_last() =~= records@.take(i as int));
        }
        acc = merge(acc, part);
        i = i + 1;
    }
    assert(records@.take(i as int) =~= records@);
    acc
}

/// Splitting a batch anywhere and merging the two halves' results gives the
/// result of the whole batch.
pub proof fn lemma_classify_split(rs: Seq<Record>, k: int)
    requires
        0 <= k <= rs.len(),
    ensures
        classify_all_spec(rs) == merge_spec(
            classify_all_spec(rs.take(k)),
            classify_all_spec(rs.skip(k)),
        ),
    decreases rs.len(),
{
    if k == rs.len() {
        assert(rs.take(k) =~= rs);
        assert(rs.skip(k) =~= Seq::<Record>::empty());
        lemma_merge_identity(classify_all_spec(rs));
    } else {
        let init = rs.drop_last();
        lemma_classify_split(init, k);
        assert(init.take(k) =~= rs.take(k));
        assert(init.skip(k) =~= rs.skip(k).drop_last());
        assert(rs.skip(k).last() == rs.last());
        lemma_merge_associative(
            classify_all_spec(rs.take(k)),
            classify_all_spec(init.skip(k)),
            classify_spec(rs.last()),
        );
    }
}

/// Merges a list of partial results from the front.
pub open spec fn merge_all(parts: Seq<PartialView>) -> PartialView
    decreases parts.len(),
{
    if parts.len() == 0 {
        empty_partial()
    } else {
        merge_spec(parts.first(), merge_all(parts.drop_first()))
    }
}

/// However the records are partitioned into consecutive batches, classifying
/// each batch and merging the batch results gives the single-batch result.
pub proof fn lemma_classify_batches(batches: Seq<Seq<Record>>)
    ensures
        merge_all(batches.map_values(|b: Seq<Record>| classify_all_spec(b)))
            == classify_all_spec(batches.flatten()),
    decreases batches.len(),
{
    let parts = batches.map_values(|b: Seq<Record>| classify_all_spec(b));
    if batches.len() == 0 {
        assert(batches.flatten() =~= Seq::<Record>::empty());
    } else {
        let first = batches.first();
        let rest = batches.drop_first();
        lemma_classify_batches(rest);
        assert(parts.drop_first() =~= rest.map_values(|b: Seq<Record>| classify_all_spec(b)));
        let all = batches.flatten();
        assert(all == first + rest.flatten());
        lemma_classify_split(all, first.len() as int);
        assert(all.take(first.len() as int) =~= first);
        assert(all.skip(first.len() as int) =~= rest.flatten());
    }
}

/// Where no `highway` value of a path is in the category table, its category
/// list is empty.
pub proof fn lemma_unrecognized_categories(tags: Seq<(String, String)>)
    requires
        forall|i: int|
            0 <= i < tags.len() && (#[trigger] tags[i]).0@ == "highway"@ ==> category_of(
                tags[i].1@,
            ) is None,
    ensures
        categories_of(tags) == Seq::<StreetCategory>::empty(),
    decreases tags.len(),
{
    if tags.len() > 0 {
        let init = tags.drop_last();
        assert forall|i: int|
            0 <= i < init.len() && (#[trigger] init[i]).0@ == "highway"@ implies category_of(
                init[i].1@,
            ) is None by {
            assert(init[i] == tags[i]);
        }
        lemma_unrecognized_categories(init);
        assert(tags.last() == tags[tags.len() - 1]);
    }
}

/// A path without a `highway` attribute yields no medium; a path with one
/// yields exactly one, and where none of its `highway` values is in the table,
/// that medium's category list is empty.
pub proof fn lemma_classification_filtering(p: PathRecord)
    ensures
        !qualifies(p.tags@) ==> classify_spec(Record::Way(p)).mediums.len() == 0,
        qualifies(p.tags@) ==> classify_spec(Record::Way(p)).mediums == seq![draft_of(p)],
        qualifies(p.tags@) && (forall|i: int|
            0 <= i < p.tags@.len() && (#[trigger] p.tags@[i]).0@ == "highway"@ ==> category_of(
                p.tags@[i].1@,
            ) is None) ==> classify_spec(Record::Way(p)).mediums[0].medium_type
            == MediumTypeView::Highway(Seq::<StreetCategory>::empty()),
{
    if qualifies(p.tags@) && (forall|i: int|
        0 <= i < p.tags@.len() && (#[trigger] p.tags@[i]).0@ == "highway"@ ==> category_of(
            p.tags@[i].1@,
        ) is None) {
        lemma_unrecognized_categories(p.tags@);
    }
}

/// The direction of a path: a later `oneway` attribute reading "yes" makes it
/// one-way, one reading "no" makes it two-way, any other value or any other key
/// leaves the flag as it was; with no `oneway` attribute reading "yes" at all,
/// the flag keeps its default, false.
pub proof fn lemma_one_way_parsing(tags: Seq<(String, String)>, t: (String, String))
    ensures
        t.0@ == "oneway"@ && t.1@ == "yes"@ ==> one_way_of(tags.push(t)),
        t.0@ == "oneway"@ && t.1@ == "no"@ ==> !one_way_of(tags.push(t)),
        !(t.0@ == "oneway"@ && (t.1@ == "yes"@ || t.1@ == "no"@)) ==> one_way_of(tags.push(t))
            == one_way_of(tags),
        (forall|i: int|
            0 <= i < tags.len() && (#[trigger] tags[i]).0@ == "oneway"@ ==> tags[i].1@ != "yes"@)
            ==> !one_way_of(tags),
    decreases tags.len(),
{
    assert(tags.push(t).drop_last() =~= tags);
    reveal_strlit("yes");
    reveal_strlit("no");
    assert("yes"@.len() != "no"@.len());
    if tags.len() > 0 {
        let init = tags.drop_last();
        lemma_one_way_parsing(init, tags.last());
        assert(init.push(tags.last()) =~= tags);
        assert(tags.last() == tags[tags.len() - 1]);
        assert(forall|i: int| 0 <= i < init.len() ==> init[i] == tags[i]);
    }
}

} // verus!
