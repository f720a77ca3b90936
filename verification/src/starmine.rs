use vstd::prelude::*;

use crate::orders::links_match;
use crate::orders::OrderConfig;
use crate::orders::OrderKind;
use crate::orders::OrdersGenerator;
use crate::orders::OrdersGeneratorImpl;
use crate::shape::Order;

verus! {

/// The starmine chart: `2 * complexity` points alternating between the unit
/// circle and an inner ring, visited as a single loop.
pub struct Starmine;

impl Starmine {
    /// The number of points a starmine of the given complexity uses: one
    /// outer and one inner point per spike.
    pub fn point_count(complexity: u64) -> (r: u64)
        requires
            complexity <= u64::MAX / 2,
        ensures
            r == 2 * complexity,
    {
        2 * complexity
    }

    /// The starmine's connectivity: one loop over all of its points.
    pub fn generate_orders(&self, complexity: u64) -> (r: Vec<Order>)
        requires
            complexity <= u64::MAX / 2,
        ensures
            r@.len() == 2 * complexity,
            links_match(r@, OrderKind::Loop, 2 * (complexity as int)),
    {
        let point_count = Starmine::point_count(complexity);
        OrdersGeneratorImpl::generate(OrderConfig { kind: OrderKind::Loop, point_count })
    }
}

} // verus!
