use vstd::prelude::*;

use crate::orders::links_match;
use crate::orders::OrderConfig;
use crate::orders::OrderKind;
use crate::orders::OrdersGenerator;
use crate::orders::OrdersGeneratorImpl;
use crate::shape::Order;

verus! {

/// The clover chart: a closed petal curve sampled on `40 * complexity`
/// points, visited as a single loop.
pub struct Clover;

impl Clover {
    /// The number of points a clover of the given complexity is sampled on.
    pub fn point_count(complexity: u64) -> (r: u64)
        requires
            complexity <= u64::MAX / 40,
        ensures
            r == 40 * complexity,
    {
        40 * complexity
    }

    /// The clover's connectivity: one loop over all of its points.
    pub fn generate_orders(&self, complexity: u64) -> (r: Vec<Order>)
        requires
            complexity <= u64::MAX / 40,
        ensures
            r@.len() == 40 * complexity,
            links_match(r@, OrderKind::Loop, 40 * (complexity as int)),
    {
        let point_count = Clover::point_count(complexity);
        OrdersGeneratorImpl::generate(OrderConfig { kind: OrderKind::Loop, point_count })
    }
}

} // verus!
