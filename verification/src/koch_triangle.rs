use vstd::arithmetic::power2::pow2;
use vstd::prelude::*;

use crate::arith::lemma_pow2_fits_u64;
use crate::arith::pow2_u64;
use crate::fold_generator::fold_point_count;
use crate::koch_curve::koch_curve_point_count;
use crate::koch_curve::lemma_koch_curve_count_agrees;
use crate::orders::links_match;
use crate::orders::OrderConfig;
use crate::orders::OrderKind;
use crate::orders::OrdersGenerator;
use crate::orders::OrdersGeneratorImpl;
use crate::shape::Order;

verus! {

/// The number of points a koch triangle holds: three rotated copies of a
/// koch curve, `3 * (2^(2 (complexity - 1)) + 1)`.
pub open spec fn koch_triangle_point_count(c: u64) -> int {
    3 * (pow2((2 * (c - 1)) as nat) as int + 1)
}

/// The koch triangle: three copies of the koch curve, each rotated by a
/// third of a turn about the origin after a vertical offset, with the inner
/// variant mirrored about the horizontal axis first.
pub struct KochTriangle;

impl KochTriangle {
    /// The triangle's connectivity: a single open chain over the points of
    /// all three copies.
    pub fn generate_orders(&self, complexity: u64) -> (r: Vec<Order>)
        requires
            1 <= complexity <= 32,
        ensures
            r@.len() == koch_triangle_point_count(complexity) - 1,
            links_match(r@, OrderKind::Linear, koch_triangle_point_count(complexity)),
    {
        proof {
            lemma_pow2_fits_u64((2 * (complexity - 1)) as nat);
            vstd::arithmetic::power2::lemma2_to64_rest();
            if 2 * (complexity - 1) < 62 {
                vstd::arithmetic::power2::lemma_pow2_strictly_increases(
                    (2 * (complexity - 1)) as nat,
                    62,
                );
            }
        }
        let point_count = 3 * (pow2_u64(2 * (complexity - 1)) + 1);
        OrdersGeneratorImpl::generate(OrderConfig { kind: OrderKind::Linear, point_count })
    }
}

/// The orders' point-count formula agrees with what the fold engine emits:
/// three copies of the koch curve's traversal.
pub proof fn lemma_koch_triangle_count_agrees(c: u64)
    requires
        2 <= c <= 32,
    ensures
        koch_triangle_point_count(c) == 3 * fold_point_count(3, c),
{
    lemma_koch_curve_count_agrees(c);
    assert(koch_triangle_point_count(c) == 3 * koch_curve_point_count(c));
}

} // verus!
