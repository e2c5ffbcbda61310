//! Reading a path's attributes: its categories, its direction and its name.
use vstd::prelude::*;
use vstd::string::StringSliceAdditionalSpecFns;
use vstd::utf8::encode_utf8_decode_utf8;
use crate::medium::StreetCategory;

verus! {

/// Whether two strings hold the same characters, compared by their bytes.
pub fn text_eq(a: &str, b: &str) -> (r: bool)
    ensures
        r == (a@ == b@),
{
    let x = a.as_bytes();
    let y = b.as_bytes();
    proof {
        encode_utf8_decode_utf8(a@);
        encode_utf8_decode_utf8(b@);
    }
    if x.len() != y.len() {
        return false;
    }
    let mut i: usize = 0;
    while i < x.len()
        invariant
            x@ == a.spec_bytes(),
            y@ == b.spec_bytes(),
            x@.len() == y@.len(),
            i <= x@.len(),
            x@.subrange(0, i as int) == y@.subrange(0, i as int),
        decreases x@.len() - i,
    {
        if x[i] != y[i] {
            assert(x@[i as int] != y@[i as int]);
            return false;
        }
        assert(x@.subrange(0, i + 1) =~= x@.subrange(0, i as int).push(x@[i as int]));
        assert(y@.subrange(0, i + 1) =~= y@.subrange(0, i as int).push(y@[i as int]));
        i = i + 1;
    }
    assert(x@ =~= x@.subrange(0, i as int));
    assert(y@ =~= y@.subrange(0, i as int));
    true
}

/// The category that a `highway` value names, if it names one.
pub open spec fn category_of(v: Seq<char>) -> Option<StreetCategory> {
    if v == "residential"@ {
        Some(StreetCategory::Residential)
    } else if v == "service"@ {
        Some(StreetCategory::Service)
    } else if v == "track"@ {
        Some(StreetCategory::Track)
    } else if v == "footway"@ {
        Some(StreetCategory::Footway)
    } else if v == "unclassified"@ {
        Some(StreetCategory::Unclassified)
    } else if v == "path"@ {
        Some(StreetCategory::Path)
    } else if v == "crossing"@ {
        Some(StreetCategory::Crossing)
    } else if v == "tertiary"@ {
        Some(StreetCategory::Tertiary)
    } else if v == "secondary"@ {
        Some(StreetCategory::Secondary)
    } else if v == "primary"@ {
        Some(StreetCategory::Primary)
    } else if v == "living_street"@ {
        Some(StreetCategory::LivingStreet)
    } else if v == "cycleway"@ {
        Some(StreetCategory::Cycleway)
    } else if v == "trunk"@ {
        Some(StreetCategory::Trunk)
    } else if v == "motorway"@ {
        Some(StreetCategory::Motorway)
    } else if v == "motorway_link"@ {
        Some(StreetCategory::MotorwayLink)
    } else if v == "pedestrian"@ {
        Some(StreetCategory::Pedestrian)
    } else if v == "trunk_link"@ {
        Some(StreetCategory::TrunkLink)
    } else if v == "primary_link"@ {
        Some(StreetCategory::PrimaryLink)
    } else if v == "secondary_link"@ {
        Some(StreetCategory::SecondaryLink)
    } else if v == "tertiary_link"@ {
        Some(StreetCategory::TertiaryLink)
    } else if v == "road"@ {
        Some(StreetCategory::Road)
    } else {
        None
    }
}

/// Looks a `highway` value up in the category table.
pub fn street_category(v: &str) -> (r: Option<StreetCategory>)
    ensures
        r == category_of(v@),
{
    if text_eq(v, "residential") {
        Some(StreetCategory::Residential)
    } else if text_eq(v, "service") {
        Some(StreetCategory::Service)
    } else if text_eq(v, "track") {
        Some(StreetCategory::Track)
    } else if text_eq(v, "footway") {
        Some(StreetCategory::Footway)
    } else if text_eq(v, "unclassified") {
        Some(StreetCategory::Unclassified)
    } else if text_eq(v, "path") {
        Some(StreetCategory::Path)
    } else if text_eq(v, "crossing") {
        Some(StreetCategory::Crossing)
    } else if text_eq(v, "tertiary") {
        Some(StreetCategory::Tertiary)
    } else if text_eq(v, "secondary") {
        Some(StreetCategory::Secondary)
    } else if text_eq(v, "primary") {
        Some(StreetCategory::Primary)
    } else if text_eq(v, "living_street") {
        Some(StreetCategory::LivingStreet)
    } else if text_eq(v, "cycleway") {
        Some(StreetCategory::Cycleway)
    } else if text_eq(v, "trunk") {
        Some(StreetCategory::Trunk)
    } else if text_eq(v, "motorway") {
        Some(StreetCategory::Motorway)
    } else if text_eq(v, "motorway_link") {
        Some(StreetCategory::MotorwayLink)
    } else if text_eq(v, "pedestrian") {
        Some(StreetCategory::Pedestrian)
    } else if text_eq(v, "trunk_link") {
        Some(StreetCategory::TrunkLink)
    } else if text_eq(v, "primary_link") {
        Some(StreetCategory::PrimaryLink)
    } else if text_eq(v, "secondary_link") {
        Some(StreetCategory::SecondaryLink)
    } else if text_eq(v, "tertiary_link") {
        Some(StreetCategory::TertiaryLink)
    } else if text_eq(v, "road") {
        Some(StreetCategory::Road)
    } else {
        None
    }
}

} // verus!
