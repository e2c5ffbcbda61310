//! The data model: points, positions, street categories and mediums.
use vstd::prelude::*;

verus! {

/// A coordinate pair in nanodegrees, as the map extract stores it.
#[derive(Clone, Copy, Debug, PartialEq, Eq)]
pub struct Position {
    pub longitude: i64,
    pub latitude: i64,
}

/// A point record, normalized from either a plain or a dense encoding.
#[derive(Clone, Copy, Debug, PartialEq, Eq)]
pub struct OsmNode {
    pub osm_id: i64,
    pub longitude: i64,
    pub latitude: i64,
}

/// The position that a point record stands for.
pub open spec fn position_of(n: OsmNode) -> Position {
    Position { longitude: n.longitude, latitude: n.latitude }
}

impl Position {
    pub fn from_osm_node(osm_node: &OsmNode) -> (r: Position)
        ensures
            r == position_of(*osm_node),
    {
        Position { longitude: osm_node.longitude, latitude: osm_node.latitude }
    }
}

/// The kind of road that a `highway` attribute names.
#[derive(Clone, Copy, Debug, PartialEq, Eq)]
pub enum StreetCategory {
    /// High capacity highways designed to safely carry fast motor traffic.
    Motorway,
    /// The link roads (sliproads / ramps) leading to and from a motorway.
    MotorwayLink,
    /// Important roads that are not motorways.
    Trunk,
    /// The link road (sliproad / ramp) leading to and from a trunk highway.
    TrunkLink,
    /// A highway linking large towns.
    Primary,
    /// Connecting slip roads/ramps of primary highways.
    PrimaryLink,
    /// A highway linking towns.
    Secondary,
    /// Connecting slip roads/ramps of secondary highways.
    SecondaryLink,
    /// A road linking small settlements, or the local centres of a large town or city.
    Tertiary,
    /// Connecting slip road/ramp of a tertiary highway.
    TertiaryLink,
    /// Public access road, non-residential.
    Unclassified,
    /// Road in a residential area.
    Residential,
    /// Road with very low speed limits and other pedestrian friendly traffic rules.
    LivingStreet,
    /// Access to a building, service station, beach, campsite, industrial estate, business park.
    Service,
    /// A minor land-access road like a farm or forest track.
    Track,
    /// Road with unknown classification.
    Road,
    /// For designated cycleways.
    Cycleway,
    /// Roads mainly or exclusively for pedestrians.
    Pedestrian,
    /// A generic path used by pedestrians, small vehicles, riders or livestock.
    Path,
    /// A path mainly or exclusively for pedestrians.
    Footway,
    /// The location of a street crossing for pedestrians, cyclists, or equestrians.
    Crossing,
    /// The street category has not been set.
    Default,
}

/// What kind of linear feature a medium is.
#[derive(Clone, Debug)]
pub enum MediumType {
    Default,
    Highway(Vec<StreetCategory>),
    Railway,
    Waterway,
    Airway,
    SpaceTrajectory,
}

/// The mathematical form of a `MediumType`.
pub enum MediumTypeView {
    Default,
    Highway(Seq<StreetCategory>),
    Railway,
    Waterway,
    Airway,
    SpaceTrajectory,
}

impl View for MediumType {
    type V = MediumTypeView;

    open spec fn view(&self) -> MediumTypeView {
        match self {
            MediumType::Default => MediumTypeView::Default,
            MediumType::Highway(c) => MediumTypeView::Highway(c@),
            MediumType::Railway => MediumTypeView::Railway,
            MediumType::Waterway => MediumTypeView::Waterway,
            MediumType::Airway => MediumTypeView::Airway,
            MediumType::SpaceTrajectory => MediumTypeView::SpaceTrajectory,
        }
    }
}

/// A named linear feature with its referenced points and resolved positions.
#[derive(Clone, Debug)]
pub struct Medium {
    pub osm_id: Option<i64>,
    pub medium_osm_name: Option<String>,
    pub medium_type: MediumType,
    pub is_one_way: bool,
    pub osm_node_refs: Vec<i64>,
    pub medium_positions: Vec<Position>,
}

/// The mathematical form of a `Medium`.
pub struct MediumView {
    pub osm_id: Option<i64>,
    pub name: Option<Seq<char>>,
    pub medium_type: MediumTypeView,
    pub is_one_way: bool,
    pub refs: Seq<i64>,
    pub positions: Seq<Position>,
}

/// The characters of an optional string.
pub open spec fn text_view(s: Option<String>) -> Option<Seq<char>> {
    match s {
        Some(t) => Some(t@),
        None => None,
    }
}

impl View for Medium {
    type V = MediumView;

    open spec fn view(&self) -> MediumView {
        MediumView {
            osm_id: self.osm_id,
            name: text_view(self.medium_osm_name),
            medium_type: self.medium_type@,
            is_one_way: self.is_one_way,
            refs: self.osm_node_refs@,
            positions: self.medium_positions@,
        }
    }
}

/// The views of a sequence of mediums.
pub open spec fn mediums_view(s: Seq<Medium>) -> Seq<MediumView> {
    s.map_values(|m: Medium| m@)
}

/// A medium that carries nothing yet.
pub open spec fn blank_medium() -> MediumView {
    MediumView {
        osm_id: None,
        name: None,
        medium_type: MediumTypeView::Default,
        is_one_way: false,
        refs: Seq::empty(),
        positions: Seq::empty(),
    }
}

impl Medium {
    pub fn new() -> (r: Medium)
        ensures
            r@ == blank_medium(),
    {
        Medium {
            osm_id: None,
            medium_osm_name: None,
            medium_type: MediumType::Default,
            is_one_way: false,
            osm_node_refs: Vec::new(),
            medium_positions: Vec::new(),
        }
    }
}

impl Default for Medium {
    fn default() -> (r: Medium)
        ensures
            r@ == blank_medium(),
    {
        Self::new()
    }
}

} // verus!
