use vstd::prelude::*;

use crate::shape::Order;

verus! {

/// The connectivity topologies an order generator can produce.
#[derive(Debug, PartialEq, Eq, Clone, Copy)]
pub enum OrderKind {
    Loop,
    StartEnd2xFaster,
    End2xFaster,
    Linear,
}

/// A request for connectivity: a topology and the number of points it spans.
pub struct OrderConfig {
    pub kind: OrderKind,
    pub point_count: u64,
}

/// How many orders a generator produces for `kind` over `n` points.
///
/// `Linear` chains `n` points with `n - 1` edges (and treats `n == 0` as an
/// empty chart rather than underflowing); every other kind closes over the
/// points with one edge per point.
pub open spec fn orders_len(kind: OrderKind, n: int) -> int {
    match kind {
        OrderKind::Linear => if n == 0 {
            0
        } else {
            n - 1
        },
        _ => n,
    }
}

/// The pair of point indices that edge `i` of a generated order list links,
/// for a chart of `n` points.
///
/// `Loop` closes the chain back to point 0; the two `2xFaster` kinds advance
/// one or both endpoints at double rate modulo `n`, which for even `n` may
/// legitimately produce self-loop edges.
pub open spec fn order_link(kind: OrderKind, n: int, i: int) -> (int, int) {
    match kind {
        OrderKind::Linear => (i, i + 1),
        OrderKind::Loop => (i, (i + 1) % n),
        OrderKind::StartEnd2xFaster => ((2 * i) % n, (2 * (i + 1)) % n),
        OrderKind::End2xFaster => (i, (2 * (i + 1)) % n),
    }
}

/// Every edge of `orders` links exactly the indices that `order_link`
/// prescribes for its position.
pub open spec fn links_match(orders: Seq<Order>, kind: OrderKind, n: int) -> bool {
    forall|i: int|
        0 <= i < orders.len() ==> {
            &&& (#[trigger] orders[i]).link.0 as int == order_link(kind, n, i).0
            &&& orders[i].link.1 as int == order_link(kind, n, i).1
        }
}

/// The two `2xFaster` kinds double an index before reducing it modulo `n`,
/// so their point counts must leave room for the doubling.
pub open spec fn kind_doubles_indices(kind: OrderKind) -> bool {
    kind is StartEnd2xFaster || kind is End2xFaster
}

/// Produces connectivity lists.
pub trait OrdersGenerator {
    /// Generates the full order list for `config`: `orders_len` edges, each
    /// linking exactly the indices that `order_link` prescribes.
    fn generate(config: OrderConfig) -> (r: Vec<Order>) where Self: Sized
        requires
            kind_doubles_indices(config.kind) ==> config.point_count <= u64::MAX / 2,
        ensures
            r@.len() == orders_len(config.kind, config.point_count as int),
            links_match(r@, config.kind, config.point_count as int),
    ;
}

pub struct OrdersGeneratorImpl;

impl OrdersGenerator for OrdersGeneratorImpl {
    fn generate(config: OrderConfig) -> (r: Vec<Order>) {
        let OrderConfig { kind, point_count } = config;
        let ghost n = point_count as int;
        let mut orders: Vec<Order> = Vec::new();
        match kind {
            OrderKind::Linear => {
                let edge_count = if point_count == 0 {
                    0
                } else {
                    point_count - 1
                };
                let mut i: u64 = 0;
                while i < edge_count
                    invariant
                        i <= edge_count,
                        edge_count == orders_len(OrderKind::Linear, n),
                        n == point_count as int,
                        orders@.len() == i,
                        links_match(orders@, OrderKind::Linear, n),
                    decreases edge_count - i,
                {
                    orders.push(Order { link: (i, i + 1) });
                    i = i + 1;
                }
            },
            OrderKind::Loop => {
                let mut i: u64 = 0;
                while i < point_count
                    invariant
                        i <= point_count,
                        n == point_count as int,
                        orders@.len() == i,
                        links_match(orders@, OrderKind::Loop, n),
                    decreases point_count - i,
                {
                    orders.push(Order { link: (i, (i + 1) % point_count) });
                    i = i + 1;
                }
            },
            OrderKind::StartEnd2xFaster => {
                let mut i: u64 = 0;
                while i < point_count
                    invariant
                        i <= point_count,
                        point_count <= u64::MAX / 2,
                        n == point_count as int,
                        orders@.len() == i,
                        links_match(orders@, OrderKind::StartEnd2xFaster, n),
                    decreases point_count - i,
                {
                    orders.push(Order { link: ((2 * i) % point_count, (2 * (i + 1)) % point_count) });
                    i = i + 1;
                }
            },
            OrderKind::End2xFaster => {
                let mut i: u64 = 0;
                while i < point_count
                    invariant
                        i <= point_count,
                        point_count <= u64::MAX / 2,
                        n == point_count as int,
                        orders@.len() == i,
                        links_match(orders@, OrderKind::End2xFaster, n),
                    decreases point_count - i,
                {
                    orders.push(Order { link: (i, (2 * (i + 1)) % point_count) });
                    i = i + 1;
                }
            },
        }
        orders
    }
}

/// Every generated order stays within the `n` points it was generated for:
/// both endpoints of every edge are valid indices.
pub proof fn lemma_links_bounded(orders: Seq<Order>, kind: OrderKind, n: int)
    requires
        n >= 0,
        orders.len() == orders_len(kind, n),
        links_match(orders, kind, n),
    ensures
        forall|i: int|
            0 <= i < orders.len() ==> {
                &&& (#[trigger] orders[i]).link.0 < n
                &&& orders[i].link.1 < n
            },
{
    assert forall|i: int| 0 <= i < orders.len() implies {
        &&& (#[trigger] orders[i]).link.0 < n
        &&& orders[i].link.1 < n
    } by {
        let l = order_link(kind, n, i);
        match kind {
            OrderKind::Linear => {
                assert(l.1 == i + 1 <= orders.len() < n);
            },
            _ => {
                assert(n >= 1) by {
                    assert(orders.len() == n);
                };
            },
        }
    }
}

} // verus!
