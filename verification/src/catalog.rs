use vstd::prelude::*;

use crate::arith::lemma_pow2_fits_u64;
use crate::arith::pow2_u64;
use crate::binarytree::binarytree_point_count;
use crate::binarytree::BinaryTree;
use crate::clover::Clover;
use crate::fold_curve::fold_curve_point_count;
use crate::fold_curve::FoldCurve;
use crate::koch_curve::koch_curve_point_count;
use crate::koch_curve::KochCurve;
use crate::koch_triangle::koch_triangle_point_count;
use crate::koch_triangle::KochTriangle;
use crate::orders::lemma_links_bounded;
use crate::orders::links_match;
use crate::orders::OrderKind;
use crate::shape::ChartKind;
use crate::shape::Order;
use crate::star::Star;
use crate::starmine::Starmine;
use crate::sunrise::Sunrise;
use crate::tri_curve::tri_curve_point_count;
use crate::tri_curve::TriCurve;

verus! {

/// Whether the catalog can generate a chart of `kind` at `complexity`: the
/// recursive kinds need a complexity of at least 2 and small enough that
/// their point count fits in a `u64`; the circle-based kinds only need their
/// point count (and its doubling, where edges skip ahead) to fit.  The
/// catalog holds no generator for `Sunset`.
pub open spec fn supported_config(kind: ChartKind, complexity: u64) -> bool {
    match kind {
        ChartKind::BinaryTree => true,
        ChartKind::Clover => complexity <= u64::MAX / 40,
        ChartKind::FoldCCurve | ChartKind::FoldDragon => 2 <= complexity <= 64,
        ChartKind::KochCurve | ChartKind::KochTriangleInner | ChartKind::KochTriangleOuter => 2
            <= complexity <= 32,
        ChartKind::Star | ChartKind::Sunrise => complexity <= u64::MAX / 2,
        ChartKind::Starmine => complexity <= u64::MAX / 2,
        ChartKind::Sunset => false,
        ChartKind::TriCis | ChartKind::TriTrans => 2 <= complexity <= 32,
    }
}

/// The number of points the chart of `kind` holds at `complexity`.
pub open spec fn spec_point_count(kind: ChartKind, complexity: u64) -> int {
    match kind {
        ChartKind::BinaryTree => binarytree_point_count(complexity),
        ChartKind::Clover => 40 * complexity,
        ChartKind::FoldCCurve | ChartKind::FoldDragon => fold_curve_point_count(complexity),
        ChartKind::KochCurve => koch_curve_point_count(complexity),
        ChartKind::KochTriangleInner | ChartKind::KochTriangleOuter => koch_triangle_point_count(
            complexity,
        ),
        ChartKind::Star | ChartKind::Sunrise => complexity as int,
        ChartKind::Starmine => 2 * complexity,
        ChartKind::Sunset => 0,
        ChartKind::TriCis | ChartKind::TriTrans => tri_curve_point_count(complexity),
    }
}

/// The number of orders the chart of `kind` holds at `complexity`: the open
/// chains (the fold curves and the binary tree) hold one edge fewer than
/// they hold points; every closed kind holds one edge per point.
pub open spec fn spec_orders_len(kind: ChartKind, complexity: u64) -> int {
    match kind {
        ChartKind::BinaryTree
        | ChartKind::FoldCCurve
        | ChartKind::FoldDragon
        | ChartKind::KochCurve
        | ChartKind::KochTriangleInner
        | ChartKind::KochTriangleOuter
        | ChartKind::TriCis
        | ChartKind::TriTrans => spec_point_count(kind, complexity) - 1,
        _ => spec_point_count(kind, complexity),
    }
}

/// The connectivity topology each kind visits its points with.  The binary
/// tree is not listed: its edges follow the implicit heap's parent/child
/// arithmetic rather than an order-generator kind.
pub open spec fn chart_order_topology(kind: ChartKind) -> OrderKind {
    match kind {
        ChartKind::Clover | ChartKind::Starmine => OrderKind::Loop,
        ChartKind::Star => OrderKind::StartEnd2xFaster,
        ChartKind::Sunrise => OrderKind::End2xFaster,
        _ => OrderKind::Linear,
    }
}

/// Every edge of `orders` is exactly the edge the chart of `kind` prescribes
/// for its position: heap parent/child pairs for the binary tree, and the
/// matching order-generator topology for every other generated kind.
pub open spec fn chart_links_match(orders: Seq<Order>, kind: ChartKind, complexity: u64) -> bool {
    match kind {
        ChartKind::BinaryTree => forall|i: int|
            0 <= i < orders.len() ==> {
                &&& (#[trigger] orders[i]).link.0 as int == (i + 1) / 2
                &&& orders[i].link.1 as int == i + 1
            },
        ChartKind::Sunset => orders.len() == 0,
        _ => links_match(orders, chart_order_topology(kind), spec_point_count(kind, complexity)),
    }
}

/// The number of points the chart of `kind` holds at `complexity`, as the
/// matching adapter computes it.
pub fn chart_point_count(kind: ChartKind, complexity: u64) -> (r: u64)
    requires
        supported_config(kind, complexity),
    ensures
        r as int == spec_point_count(kind, complexity),
{
    match kind {
        ChartKind::BinaryTree => BinaryTree::point_count(complexity),
        ChartKind::Clover => Clover::point_count(complexity),
        ChartKind::FoldCCurve | ChartKind::FoldDragon => {
            proof {
                lemma_pow2_fits_u64((complexity - 1) as nat);
            }
            pow2_u64(complexity - 1) + 1
        },
        ChartKind::KochCurve => {
            proof {
                lemma_pow2_fits_u64((2 * (complexity - 1)) as nat);
            }
            pow2_u64(2 * (complexity - 1)) + 1
        },
        ChartKind::KochTriangleInner | ChartKind::KochTriangleOuter => {
            proof {
                lemma_pow2_fits_u64((2 * (complexity - 1)) as nat);
                vstd::arithmetic::power2::lemma2_to64_rest();
                if 2 * (complexity - 1) < 62 {
                    vstd::arithmetic::power2::lemma_pow2_strictly_increases(
                        (2 * (complexity - 1)) as nat,
                        62,
                    );
                }
            }
            3 * (pow2_u64(2 * (complexity - 1)) + 1)
        },
        ChartKind::Star | ChartKind::Sunrise => complexity,
        ChartKind::Starmine => Starmine::point_count(complexity),
        ChartKind::Sunset => 0,
        ChartKind::TriCis | ChartKind::TriTrans => {
            proof {
                lemma_pow2_fits_u64((2 * (complexity - 1)) as nat);
            }
            pow2_u64(2 * (complexity - 1)) + 1
        },
    }
}

/// The connectivity of the chart of `kind` at `complexity`, from the
/// matching adapter.  The output stays index-consistent with the point
/// count: every order links two valid point indices, whichever adapter
/// produced it.
pub fn chart_orders(kind: ChartKind, complexity: u64) -> (r: Vec<Order>)
    requires
        supported_config(kind, complexity),
    ensures
        r@.len() == spec_orders_len(kind, complexity),
        chart_links_match(r@, kind, complexity),
        forall|i: int|
            0 <= i < r@.len() ==> {
                &&& ((#[trigger] r@[i]).link.0 as int) < spec_point_count(kind, complexity)
                &&& (r@[i].link.1 as int) < spec_point_count(kind, complexity)
            },
{
    let ghost n = spec_point_count(kind, complexity);
    match kind {
        ChartKind::BinaryTree => {
            let chart = BinaryTree;
            chart.generate_orders(complexity)
        },
        ChartKind::Clover => {
            let chart = Clover;
            let r = chart.generate_orders(complexity);
            proof {
                lemma_links_bounded(r@, OrderKind::Loop, n);
            }
            r
        },
        ChartKind::FoldCCurve | ChartKind::FoldDragon => {
            let chart = FoldCurve;
            let r = chart.generate_orders(complexity);
            proof {
                lemma_links_bounded(r@, OrderKind::Linear, n);
            }
            r
        },
        ChartKind::KochCurve => {
            let chart = KochCurve;
            let r = chart.generate_orders(complexity);
            proof {
                lemma_links_bounded(r@, OrderKind::Linear, n);
            }
            r
        },
        ChartKind::KochTriangleInner | ChartKind::KochTriangleOuter => {
            let chart = KochTriangle;
            let r = chart.generate_orders(complexity);
            proof {
                lemma_links_bounded(r@, OrderKind::Linear, n);
            }
            r
        },
        ChartKind::Star => {
            let chart = Star;
            let r = chart.generate_orders(complexity);
            proof {
                lemma_links_bounded(r@, OrderKind::StartEnd2xFaster, n);
            }
            r
        },
        ChartKind::Starmine => {
            let chart = Starmine;
            let r = chart.generate_orders(complexity);
            proof {
                lemma_links_bounded(r@, OrderKind::Loop, n);
            }
            r
        },
        ChartKind::Sunrise => {
            let chart = Sunrise;
            let r = chart.generate_orders(complexity);
            proof {
                lemma_links_bounded(r@, OrderKind::End2xFaster, n);
            }
            r
        },
        ChartKind::Sunset => Vec::new(),
        ChartKind::TriCis | ChartKind::TriTrans => {
            let chart = TriCurve;
            let r = chart.generate_orders(complexity);
            proof {
                lemma_links_bounded(r@, OrderKind::Linear, n);
            }
            r
        },
    }
}

} // verus!
