use osm_mediums::counts::{ElementCounts, RecordKind};
use osm_mediums::classify::{classify, classify_all, classify_path, read_tags, PathRecord, Record};
use osm_mediums::medium::{Medium, MediumType, OsmNode, Position, StreetCategory};
use osm_mediums::partial::{merge, PartialResult};
use osm_mediums::resolve::{all_points, build_mediums, resolve_medium, resolve_positions, PointIndex};
use osm_mediums::tags::{street_category, text_eq};

const DEG: i64 = 1_000_000_000;

fn tag(k: &str, v: &str) -> (String, String) {
    (k.to_string(), v.to_string())
}

fn node(id: i64, lon: i64, lat: i64) -> OsmNode {
    OsmNode { osm_id: id, longitude: lon, latitude: lat }
}

fn pos(lon: i64, lat: i64) -> Position {
    Position { longitude: lon, latitude: lat }
}

fn way(id: i64, refs: Vec<i64>, tags: Vec<(String, String)>) -> PathRecord {
    PathRecord { id, refs, tags }
}

fn categories(m: &Medium) -> Vec<StreetCategory> {
    match &m.medium_type {
        MediumType::Highway(c) => c.clone(),
        _ => panic!("not a highway"),
    }
}

#[test]
fn reference_order_is_kept() {
    let idx = PointIndex::build(&vec![node(5, 1, 1), node(7, 2, 2), node(9, 3, 3)]);
    let r = resolve_positions(&idx, &vec![5, 7, 5, 9]);
    assert_eq!(r, vec![pos(1, 1), pos(2, 2), pos(1, 1), pos(3, 3)]);
}

#[test]
fn missing_reference_is_skipped() {
    let idx = PointIndex::build(&vec![node(5, 1, 1)]);
    let r = resolve_positions(&idx, &vec![5, 99]);
    assert_eq!(r, vec![pos(1, 1)]);
    assert_eq!(r.len(), 1);
}

#[test]
fn empty_references_resolve_to_nothing() {
    let idx = PointIndex::build(&vec![node(5, 1, 1)]);
    assert!(resolve_positions(&idx, &vec![]).is_empty());
}

#[test]
fn later_duplicate_point_wins() {
    let idx = PointIndex::build(&vec![node(5, 1, 1), node(5, 8, 8)]);
    assert_eq!(idx.get(5), Some(pos(8, 8)));
    assert_eq!(idx.get(6), None);
}

#[test]
fn path_without_highway_gives_no_medium() {
    let p = way(3, vec![1, 2], vec![tag("building", "yes"), tag("name", "Hall")]);
    assert!(classify_path(&p).is_none());
    let r = classify(&Record::Way(p));
    assert!(r.mediums.is_empty());
    assert_eq!(r.relations, 0);
}

#[test]
fn unrecognized_highway_value_gives_empty_categories() {
    let p = way(4, vec![1], vec![tag("highway", "bus_stop")]);
    let r = classify(&Record::Way(p));
    assert_eq!(r.mediums.len(), 1);
    assert!(categories(&r.mediums[0]).is_empty());
}

#[test]
fn two_highway_tags_give_two_categories() {
    let p = way(4, vec![1], vec![tag("highway", "track"), tag("highway", "road")]);
    let m = classify_path(&p).unwrap();
    assert_eq!(categories(&m), vec![StreetCategory::Track, StreetCategory::Road]);
}

#[test]
fn oneway_yes_sets_flag() {
    let (_, one_way, _) = read_tags(&vec![tag("highway", "primary"), tag("oneway", "yes")]);
    assert!(one_way);
}

#[test]
fn oneway_no_clears_flag() {
    let (_, one_way, _) = read_tags(&vec![tag("oneway", "yes"), tag("oneway", "no")]);
    assert!(!one_way);
}

#[test]
fn oneway_other_value_keeps_default() {
    let (_, one_way, _) = read_tags(&vec![tag("oneway", "-1")]);
    assert!(!one_way);
    let (_, absent, _) = read_tags(&vec![tag("highway", "primary")]);
    assert!(!absent);
    let (_, kept, _) = read_tags(&vec![tag("oneway", "yes"), tag("oneway", "reversible")]);
    assert!(kept);
}

#[test]
fn last_name_wins() {
    let (_, _, name) = read_tags(&vec![tag("name", "Old"), tag("name", "New")]);
    assert_eq!(name, Some("New".to_string()));
}

#[test]
fn category_table() {
    let table = [
        ("residential", StreetCategory::Residential),
        ("service", StreetCategory::Service),
        ("track", StreetCategory::Track),
        ("footway", StreetCategory::Footway),
        ("unclassified", StreetCategory::Unclassified),
        ("path", StreetCategory::Path),
        ("crossing", StreetCategory::Crossing),
        ("tertiary", StreetCategory::Tertiary),
        ("secondary", StreetCategory::Secondary),
        ("primary", StreetCategory::Primary),
        ("living_street", StreetCategory::LivingStreet),
        ("cycleway", StreetCategory::Cycleway),
        ("trunk", StreetCategory::Trunk),
        ("motorway", StreetCategory::Motorway),
        ("motorway_link", StreetCategory::MotorwayLink),
        ("pedestrian", StreetCategory::Pedestrian),
        ("trunk_link", StreetCategory::TrunkLink),
        ("primary_link", StreetCategory::PrimaryLink),
        ("secondary_link", StreetCategory::SecondaryLink),
        ("tertiary_link", StreetCategory::TertiaryLink),
        ("road", StreetCategory::Road),
    ];
    for (v, c) in table {
        assert_eq!(street_category(v), Some(c));
    }
    assert_eq!(street_category("Residential"), None);
    assert_eq!(street_category(""), None);
}

#[test]
fn text_comparison() {
    assert!(text_eq("oneway", "oneway"));
    assert!(!text_eq("oneway", "onewa"));
    assert!(!text_eq("yes", "yex"));
    assert!(text_eq("", ""));
    assert!(text_eq("Straße", "Straße"));
    assert!(!text_eq("Straße", "Strasse"));
}

fn sample_records() -> Vec<Record> {
    vec![
        Record::Node(node(10, 0, 0)),
        Record::Way(way(1, vec![10, 11], vec![tag("highway", "residential"), tag("name", "Elm St")])),
        Record::Relation,
        Record::DenseNode(node(11, DEG, DEG)),
        Record::Way(way(2, vec![11], vec![tag("surface", "asphalt")])),
        Record::Relation,
        Record::Way(way(3, vec![10], vec![tag("highway", "track")])),
    ]
}

fn summary(r: &PartialResult) -> (Vec<Option<i64>>, u64, Vec<i64>, Vec<i64>) {
    let mut ms: Vec<Option<i64>> = r.mediums.iter().map(|m| m.osm_id).collect();
    let mut ns: Vec<i64> = r.nodes.iter().map(|n| n.osm_id).collect();
    let mut ds: Vec<i64> = r.dense_nodes.iter().map(|n| n.osm_id).collect();
    ms.sort();
    ns.sort();
    ds.sort();
    (ms, r.relations, ns, ds)
}

#[test]
fn batches_merge_to_single_batch_result() {
    let records = sample_records();
    let whole = classify_all(&records);
    for k in 0..=records.len() {
        let left = classify_all(&records[..k].to_vec());
        let right = classify_all(&records[k..].to_vec());
        let joined = merge(left, right);
        assert_eq!(summary(&joined), summary(&whole));
        let left = classify_all(&records[..k].to_vec());
        let right = classify_all(&records[k..].to_vec());
        let swapped = merge(right, left);
        assert_eq!(summary(&swapped), summary(&whole));
    }
    assert_eq!(whole.relations, 2);
    assert_eq!(whole.mediums.len(), 2);
}

#[test]
fn merge_is_associative_on_records() {
    let rs = sample_records();
    let a = || classify_all(&rs[..2].to_vec());
    let b = || classify_all(&rs[2..5].to_vec());
    let c = || classify_all(&rs[5..].to_vec());
    let left = merge(merge(a(), b()), c());
    let right = merge(a(), merge(b(), c()));
    let ids = |r: &PartialResult| r.mediums.iter().map(|m| m.osm_id).collect::<Vec<_>>();
    assert_eq!(ids(&left), ids(&right));
    assert_eq!(left.nodes, right.nodes);
    assert_eq!(left.dense_nodes, right.dense_nodes);
    assert_eq!(left.relations, right.relations);
}

#[test]
fn empty_partial_is_identity() {
    let r = merge(PartialResult::new(), classify(&Record::Relation));
    assert_eq!(r.relations, 1);
    let r = merge(classify(&Record::Node(node(1, 2, 3))), PartialResult::new());
    assert_eq!(r.nodes, vec![node(1, 2, 3)]);
    assert!(r.mediums.is_empty());
}

#[test]
fn point_records_go_to_their_slots() {
    let plain = classify(&Record::Node(node(1, 2, 3)));
    assert_eq!(plain.nodes, vec![node(1, 2, 3)]);
    assert!(plain.dense_nodes.is_empty());
    let dense = classify(&Record::DenseNode(node(4, 5, 6)));
    assert_eq!(dense.dense_nodes, vec![node(4, 5, 6)]);
    assert!(dense.nodes.is_empty());
    assert_eq!(all_points(plain.nodes, dense.dense_nodes), vec![node(1, 2, 3), node(4, 5, 6)]);
}

#[test]
fn unnamed_medium_is_not_resolved() {
    let idx = PointIndex::build(&vec![node(10, 1, 1)]);
    let mut m = classify_path(&way(3, vec![10], vec![tag("highway", "track")])).unwrap();
    resolve_medium(&mut m, &idx);
    assert!(m.medium_positions.is_empty());
    let mut named = classify_path(&way(3, vec![10], vec![tag("highway", "track"), tag("name", "T")])).unwrap();
    resolve_medium(&mut named, &idx);
    assert_eq!(named.medium_positions, vec![pos(1, 1)]);
}

#[test]
fn end_to_end_scenario() {
    let records = vec![
        Record::Way(way(1, vec![10, 11], vec![tag("highway", "residential"), tag("name", "Elm St")])),
        Record::Node(node(10, 0, 0)),
        Record::Node(node(11, DEG, DEG)),
        Record::Relation,
    ];
    let partial = classify_all(&records);
    assert_eq!(partial.relations, 1);
    let mediums = build_mediums(partial);
    assert_eq!(mediums.len(), 1);
    let m = &mediums[0];
    assert_eq!(m.osm_id, Some(1));
    assert_eq!(m.medium_osm_name, Some("Elm St".to_string()));
    assert_eq!(categories(m), vec![StreetCategory::Residential]);
    assert!(!m.is_one_way);
    assert_eq!(m.osm_node_refs, vec![10, 11]);
    assert_eq!(m.medium_positions, vec![pos(0, 0), pos(DEG, DEG)]);
}

#[test]
fn new_medium_is_blank() {
    let m = Medium::new();
    assert_eq!(m.osm_id, None);
    assert_eq!(m.medium_osm_name, None);
    assert!(matches!(m.medium_type, MediumType::Default));
    assert!(!m.is_one_way);
    assert!(m.osm_node_refs.is_empty() && m.medium_positions.is_empty());
    let d = Medium::default();
    assert!(matches!(d.medium_type, MediumType::Default));
}

#[test]
fn position_from_point() {
    assert_eq!(Position::from_osm_node(&node(9, -5, 7)), pos(-5, 7));
}

#[test]
fn element_tallies_add_up() {
    let kinds = [RecordKind::Point, RecordKind::Path, RecordKind::Point, RecordKind::Grouping];
    let mut total = ElementCounts::zero();
    for k in kinds {
        total = total.combine(ElementCounts::of_kind(k));
    }
    assert_eq!(total, ElementCounts { nodes: 2, ways: 1, relations: 1 });
    let full = ElementCounts { nodes: u64::MAX, ways: 0, relations: 0 };
    assert!(!full.fits_with(&ElementCounts::of_kind(RecordKind::Point)));
    assert!(full.fits_with(&ElementCounts::of_kind(RecordKind::Path)));
}
