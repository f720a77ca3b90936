//! Geometric skeletons for decorative line-art charts.
//!
//! A chart is a pair of parallel artifacts: a sequence of 2-D points and a
//! sequence of orders, edges over point indices that describe how a pen
//! visits the points.  This crate holds the index-level core: the order
//! generators, the per-kind point-count formulas, and the index bookkeeping
//! of the two recursive engines (fractal fold subdivision and binary-tree
//! subdivision).  Every function here carries a contract that pins its
//! output down exactly; in particular every generated order is proved to
//! stay within the matching point count.
//!
//! The floating-point half of the system (the actual coordinates) cannot be
//! verified and lives with the embedding application; it consumes the counts
//! and orders produced here.

mod arith;
mod binarytree;
mod catalog;
mod clover;
mod fold_curve;
mod fold_generator;
mod koch_curve;
mod koch_triangle;
mod orders;
mod points;
mod shape;
mod star;
mod starmine;
mod sunrise;
mod tri_curve;

pub use binarytree::BinaryTree;
pub use catalog::chart_orders;
pub use catalog::chart_point_count;
pub use clover::Clover;
pub use fold_curve::FoldCurve;
pub use fold_generator::FoldCurveGenerator;
pub use koch_curve::KochCurve;
pub use koch_triangle::KochTriangle;
pub use orders::OrderConfig;
pub use orders::OrderKind;
pub use orders::OrdersGenerator;
pub use orders::OrdersGeneratorImpl;
pub use points::PointKind;
pub use points::PointsConfig;
pub use points::PointsGeneratorImpl;
pub use shape::ChartKind;
pub use shape::Order;
pub use star::Star;
pub use starmine::Starmine;
pub use sunrise::Sunrise;
pub use tri_curve::TriCurve;
