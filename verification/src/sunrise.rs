use vstd::prelude::*;

use crate::orders::links_match;
use crate::orders::OrderConfig;
use crate::orders::OrderKind;
use crate::orders::OrdersGenerator;
use crate::orders::OrdersGeneratorImpl;
use crate::shape::Order;

verus! {

/// The sunrise chart: `complexity` points on the unit circle, visited with
/// the far endpoint of each edge advancing at double rate.  For even point
/// counts this can yield self-loop edges; that is accepted output.
pub struct Sunrise;

impl Sunrise {
    /// The sunrise's connectivity: `complexity` edges whose far endpoints
    /// skip ahead at double rate over `complexity` circle points.
    pub fn generate_orders(&self, complexity: u64) -> (r: Vec<Order>)
        requires
            complexity <= u64::MAX / 2,
        ensures
            r@.len() == complexity,
            links_match(r@, OrderKind::End2xFaster, complexity as int),
    {
        OrdersGeneratorImpl::generate(
            OrderConfig { kind: OrderKind::End2xFaster, point_count: complexity },
        )
    }
}

} // verus!
