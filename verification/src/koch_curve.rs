use vstd::arithmetic::power::lemma_pow_multiplies;
use vstd::arithmetic::power2::lemma2_to64;
use vstd::arithmetic::power2::lemma_pow2;
use vstd::arithmetic::power2::pow2;
use vstd::prelude::*;

use crate::arith::lemma_pow2_fits_u64;
use crate::arith::pow2_u64;
use crate::fold_generator::fold_point_count;
use crate::orders::links_match;
use crate::orders::OrderConfig;
use crate::orders::OrderKind;
use crate::orders::OrdersGenerator;
use crate::orders::OrdersGeneratorImpl;
use crate::shape::Order;

verus! {

/// The number of points a koch curve traversal emits:
/// `2^(2 (complexity - 1)) + 1`.
pub open spec fn koch_curve_point_count(c: u64) -> int {
    pow2((2 * (c - 1)) as nat) as int + 1
}

/// The koch curve: a three-fold rule (a flat step, a peak at sixty degrees
/// and its mirror) that replaces each segment by four, so each recursion
/// level quadruples the segment count.
pub struct KochCurve;

impl KochCurve {
    /// The curve's connectivity: a single open chain over all points.
    pub fn generate_orders(&self, complexity: u64) -> (r: Vec<Order>)
        requires
            1 <= complexity <= 32,
        ensures
            r@.len() == koch_curve_point_count(complexity) - 1,
            links_match(r@, OrderKind::Linear, koch_curve_point_count(complexity)),
    {
        proof {
            lemma_pow2_fits_u64((2 * (complexity - 1)) as nat);
        }
        let point_count = pow2_u64(2 * (complexity - 1)) + 1;
        OrdersGeneratorImpl::generate(OrderConfig { kind: OrderKind::Linear, point_count })
    }
}

/// The orders' point-count formula agrees with what the fold engine emits
/// for the koch rule of three folds: `4^(c - 1) + 1 == 2^(2 (c - 1)) + 1`.
pub proof fn lemma_koch_curve_count_agrees(c: u64)
    requires
        2 <= c <= 32,
    ensures
        koch_curve_point_count(c) == fold_point_count(3, c),
{
    lemma_pow2((2 * (c - 1)) as nat);
    lemma_pow_multiplies(2, 2nat, (c - 1) as nat);
    assert(vstd::arithmetic::power::pow(2, 2nat) == 4) by {
        lemma_pow2(2nat);
        lemma2_to64();
    }
}

} // verus!
