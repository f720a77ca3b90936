use vstd::prelude::*;

verus! {

/// The non-recursive base point layouts.
///
/// `Circle` spreads points evenly on the unit circle; `Random` draws them
/// uniformly from a centered unit square.  Both layouts produce exactly
/// `length` points; their coordinates are floating-point and are computed by
/// the embedding application, which the point-count contracts here govern.
#[derive(Debug, PartialEq, Eq, Clone, Copy)]
pub enum PointKind {
    Circle,
    Random,
}

/// A request for a base point layout: which layout and how many points.
pub struct PointsConfig {
    pub kind: PointKind,
    pub length: u64,
}

/// Marker type for the base point layout generator.  Its coordinate-level
/// output is floating-point and lives with the embedding application; every
/// layout yields `config.length` points.
pub struct PointsGeneratorImpl;

impl PointsGeneratorImpl {
    /// The number of points any layout produces for `config`.
    pub fn point_count(config: &PointsConfig) -> (r: u64)
        ensures
            r == config.length,
    {
        config.length
    }
}

} // verus!
