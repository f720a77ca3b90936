use vstd::prelude::*;

use crate::orders::links_match;
use crate::orders::OrderConfig;
use crate::orders::OrderKind;
use crate::orders::OrdersGenerator;
use crate::orders::OrdersGeneratorImpl;
use crate::shape::Order;

verus! {

/// The star chart: `complexity` points on the unit circle, visited with both
/// edge endpoints skipping ahead at double rate, which draws a star polygon.
pub struct Star;

impl Star {
    /// The star's connectivity: `complexity` skip edges over `complexity`
    /// circle points.
    pub fn generate_orders(&self, complexity: u64) -> (r: Vec<Order>)
        requires
            complexity <= u64::MAX / 2,
        ensures
            r@.len() == complexity,
            links_match(r@, OrderKind::StartEnd2xFaster, complexity as int),
    {
        OrdersGeneratorImpl::generate(
            OrderConfig { kind: OrderKind::StartEnd2xFaster, point_count: complexity },
        )
    }
}

} // verus!
