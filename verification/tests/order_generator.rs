use linework::Order;
use linework::OrderConfig;
use linework::OrderKind;
use linework::OrdersGenerator;
use linework::OrdersGeneratorImpl;

#[test]
fn test_order_linear_generation() {
    let expect: Vec<Order> = vec![
        Order { link: (0, 1) },
        Order { link: (1, 2) },
        Order { link: (2, 3) },
        Order { link: (3, 4) },
        Order { link: (4, 5) },
        Order { link: (5, 6) },
        Order { link: (6, 7) },
    ];
    let actual = OrdersGeneratorImpl::generate(OrderConfig {
        kind: OrderKind::Linear,
        point_count: 8,
    });

    assert_eq!(expect, actual);
}

#[test]
fn test_order_loop_generation() {
    let expect: Vec<Order> = vec![
        Order { link: (0, 1) },
        Order { link: (1, 2) },
        Order { link: (2, 3) },
        Order { link: (3, 4) },
        Order { link: (4, 5) },
        Order { link: (5, 0) },
    ];
    let actual = OrdersGeneratorImpl::generate(OrderConfig {
        kind: OrderKind::Loop,
        point_count: 6,
    });

    assert_eq!(expect, actual);
}

#[test]
fn test_order_start_end_2x_faster_even_generation() {
    let expect: Vec<Order> = vec![
        Order { link: (0, 2) },
        Order { link: (2, 4) },
        Order { link: (4, 0) },
        Order { link: (0, 2) },
        Order { link: (2, 4) },
        Order { link: (4, 0) },
    ];
    let actual = OrdersGeneratorImpl::generate(OrderConfig {
        kind: OrderKind::StartEnd2xFaster,
        point_count: 6,
    });

    assert_eq!(expect, actual);
}

#[test]
fn test_order_start_end_2x_faster_odd_generation() {
    let expect: Vec<Order> = vec![
        Order { link: (0, 2) },
        Order { link: (2, 4) },
        Order { link: (4, 6) },
        Order { link: (6, 1) },
        Order { link: (1, 3) },
        Order { link: (3, 5) },
        Order { link: (5, 0) },
    ];
    let actual = OrdersGeneratorImpl::generate(OrderConfig {
        kind: OrderKind::StartEnd2xFaster,
        point_count: 7,
    });

    assert_eq!(expect, actual);
}

#[test]
fn test_order_end_2x_faster_even_generation() {
    let expect: Vec<Order> = vec![
        Order { link: (0, 2) },
        Order { link: (1, 4) },
        Order { link: (2, 6) },
        Order { link: (3, 0) },
        Order { link: (4, 2) },
        Order { link: (5, 4) },
        Order { link: (6, 6) },
        Order { link: (7, 0) },
    ];
    let actual = OrdersGeneratorImpl::generate(OrderConfig {
        kind: OrderKind::End2xFaster,
        point_count: 8,
    });

    assert_eq!(expect, actual);
}

#[test]
fn test_order_end_2x_faster_odd_generation() {
    let expect: Vec<Order> = vec![
        Order { link: (0, 2) },
        Order { link: (1, 4) },
        Order { link: (2, 6) },
        Order { link: (3, 1) },
        Order { link: (4, 3) },
        Order { link: (5, 5) },
        Order { link: (6, 0) },
    ];
    let actual = OrdersGeneratorImpl::generate(OrderConfig {
        kind: OrderKind::End2xFaster,
        point_count: 7,
    });

    assert_eq!(expect, actual);
}

#[test]
fn test_order_empty_point_counts() {
    for kind in [
        OrderKind::Linear,
        OrderKind::Loop,
        OrderKind::StartEnd2xFaster,
        OrderKind::End2xFaster,
    ] {
        let actual = OrdersGeneratorImpl::generate(OrderConfig {
            kind,
            point_count: 0,
        });
        assert_eq!(actual, Vec::new());
    }
}

#[test]
fn test_order_linear_single_point() {
    let actual = OrdersGeneratorImpl::generate(OrderConfig {
        kind: OrderKind::Linear,
        point_count: 1,
    });
    assert_eq!(actual, Vec::new());
}

#[test]
fn test_order_loop_round_trip() {
    for n in [1u64, 2, 5, 9, 64] {
        let looped = OrdersGeneratorImpl::generate(OrderConfig {
            kind: OrderKind::Loop,
            point_count: n,
        });
        assert_eq!(looped.len() as u64, n);
        for i in 0..looped.len() {
            let j: u64 = i as u64;
            assert_eq!(looped[i].link, (j, (j + 1) % n));
        }
        let chained = OrdersGeneratorImpl::generate(OrderConfig {
            kind: OrderKind::Linear,
            point_count: n,
        });
        assert_eq!(chained.len() as u64, n - 1);
        for i in 0..chained.len() {
            let j: u64 = i as u64;
            assert_eq!(chained[i].link, (j, j + 1));
        }
    }
}
