use vstd::prelude::*;

verus! {

/// One edge of a chart: a pair of indices into the generated point sequence.
///
/// An order carries no identity beyond the pair; duplicate edges and
/// self-loops are legitimate output for some connectivity kinds.
#[derive(Debug, PartialEq, Eq, Clone, Copy)]
pub struct Order {
    pub link: (u64, u64),
}

/// The closed catalog of chart kinds.
#[derive(Debug, PartialEq, Eq, Clone, Copy)]
pub enum ChartKind {
    BinaryTree,
    Clover,
    FoldCCurve,
    FoldDragon,
    KochCurve,
    KochTriangleInner,
    KochTriangleOuter,
    Star,
    Starmine,
    Sunrise,
    Sunset,
    TriCis,
    TriTrans,
}

} // verus!
