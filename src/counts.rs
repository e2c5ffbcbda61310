//! Tallies of the record kinds in an extract.
use vstd::prelude::*;

verus! {

/// The kinds of primitive record, as far as a tally tells them apart: dense
/// points count as points.
#[derive(Clone, Copy, Debug, PartialEq, Eq)]
pub enum RecordKind {
    Point,
    Path,
    Grouping,
}

/// How many points, paths and groupings were seen.
#[derive(Clone, Copy, Debug, PartialEq, Eq)]
pub struct ElementCounts {
    pub nodes: u64,
    pub ways: u64,
    pub relations: u64,
}

impl ElementCounts {
    /// No records seen.
    pub fn zero() -> (r: ElementCounts)
        ensures
            r.nodes == 0 && r.ways == 0 && r.relations == 0,
    {
        ElementCounts { nodes: 0, ways: 0, relations: 0 }
    }

    /// The tally of one record.
    pub fn of_kind(kind: RecordKind) -> (r: ElementCounts)
        ensures
            r.nodes == (if kind == RecordKind::Point { 1u64 } else { 0u64 }),
            r.ways == (if kind == RecordKind::Path { 1u64 } else { 0u64 }),
            r.relations == (if kind == RecordKind::Grouping { 1u64 } else { 0u64 }),
    {
        match kind {
            RecordKind::Point => ElementCounts { nodes: 1, ways: 0, relations: 0 },
            RecordKind::Path => ElementCounts { nodes: 0, ways: 1, relations: 0 },
            RecordKind::Grouping => ElementCounts { nodes: 0, ways: 0, relations: 1 },
        }
    }

    /// Two tallies summed, kind by kind; each sum must fit in a `u64`.
    pub fn combine(self, other: ElementCounts) -> (r: ElementCounts)
        requires
            self.nodes + other.nodes <= u64::MAX,
            self.ways + other.ways <= u64::MAX,
            self.relations + other.relations <= u64::MAX,
        ensures
            r.nodes == self.nodes + other.nodes,
            r.ways == self.ways + other.ways,
            r.relations == self.relations + other.relations,
    {
        ElementCounts {
            nodes: self.nodes + other.nodes,
            ways: self.ways + other.ways,
            relations: self.relations + other.relations,
        }
    }

    /// Whether adding another tally would overflow none of the counts.
    pub fn fits_with(&self, other: &ElementCounts) -> (r: bool)
        ensures
            r == (self.nodes + other.nodes <= u64::MAX && self.ways + other.ways <= u64::MAX
                && self.relations + other.relations <= u64::MAX),
    {
        self.nodes <= u64::MAX - other.nodes && self.ways <= u64::MAX - other.ways
            && self.relations <= u64::MAX - other.relations
    }
}

} // verus!
