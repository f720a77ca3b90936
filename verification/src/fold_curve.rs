use vstd::arithmetic::power2::lemma_pow2;
use vstd::arithmetic::power2::pow2;
use vstd::prelude::*;

use crate::arith::lemma_pow2_fits_u64;
use crate::arith::pow2_u64;
use crate::fold_generator::fold_point_count;
use crate::orders::links_match;
use crate::orders::OrderConfig;
use crate::orders::OrderKind;
use crate::orders::OrdersGenerator;
use crate::orders::OrdersGeneratorImpl;
use crate::shape::Order;

verus! {

/// The number of points a single-fold curve traversal emits:
/// `2^(complexity - 1) + 1`.
pub open spec fn fold_curve_point_count(c: u64) -> int {
    pow2((c - 1) as nat) as int + 1
}

/// The single-fold curves (the C curve and the dragon curve): each fold rule
/// derives one point per segment, so each recursion level doubles the
/// segment count.  The dragon curve alternates a left and a right rule
/// across sibling branches; both rules hold one fold, so the two curves
/// share one point-count formula.
pub struct FoldCurve;

impl FoldCurve {
    /// The curves' connectivity: a single open chain over all points.
    pub fn generate_orders(&self, complexity: u64) -> (r: Vec<Order>)
        requires
            1 <= complexity <= 64,
        ensures
            r@.len() == fold_curve_point_count(complexity) - 1,
            links_match(r@, OrderKind::Linear, fold_curve_point_count(complexity)),
    {
        proof {
            lemma_pow2_fits_u64((complexity - 1) as nat);
        }
        let point_count = pow2_u64(complexity - 1) + 1;
        OrdersGeneratorImpl::generate(OrderConfig { kind: OrderKind::Linear, point_count })
    }
}

/// The orders' point-count formula agrees with what the fold engine emits
/// for a one-fold rule: `2^(c - 1) + 1` points either way.
pub proof fn lemma_fold_curve_count_agrees(c: u64)
    requires
        2 <= c <= 64,
    ensures
        fold_curve_point_count(c) == fold_point_count(1, c),
{
    lemma_pow2((c - 1) as nat);
}

} // verus!
