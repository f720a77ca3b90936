use linework::BinaryTree;
use linework::Clover;
use linework::FoldCurve;
use linework::KochCurve;
use linework::KochTriangle;
use linework::Order;
use linework::Star;
use linework::Starmine;
use linework::Sunrise;
use linework::TriCurve;

fn linear_orders(point_count: u64) -> Vec<Order> {
    let mut expect: Vec<Order> = Vec::new();
    for i in 0..point_count - 1 {
        expect.push(Order { link: (i, i + 1) });
    }
    expect
}

#[test]
fn binarytree_test_orders_generation() {
    let chart = BinaryTree {};
    let actual = chart.generate_orders(3);
    let expect: Vec<Order> = vec![
        Order { link: (0, 1) },
        Order { link: (1, 2) },
        Order { link: (1, 3) },
        Order { link: (2, 4) },
        Order { link: (2, 5) },
        Order { link: (3, 6) },
        Order { link: (3, 7) },
        Order { link: (4, 8) },
        Order { link: (4, 9) },
        Order { link: (5, 10) },
        Order { link: (5, 11) },
        Order { link: (6, 12) },
        Order { link: (6, 13) },
        Order { link: (7, 14) },
        Order { link: (7, 15) },
    ];
    assert_eq!(expect, actual);
}

#[test]
fn clover_test_orders_generation() {
    let chart = Clover {};
    let actual = chart.generate_orders(3);
    let mut expect: Vec<Order> = Vec::new();
    for i in 0..3 * 40u64 {
        expect.push(Order {
            link: (i, (i + 1) % 120),
        });
    }
    assert_eq!(expect, actual);
}

#[test]
fn fold_curve_test_orders_generation() {
    let chart = FoldCurve {};
    let actual = chart.generate_orders(6);
    let expect = linear_orders(33);
    assert_eq!(expect, actual);
}

#[test]
fn koch_curve_test_orders_generation() {
    let chart = KochCurve {};
    let actual = chart.generate_orders(3);
    let expect = linear_orders(17);
    assert_eq!(expect, actual);
}

#[test]
fn koch_triangle_test_orders_generation() {
    let chart = KochTriangle {};
    let actual = chart.generate_orders(3);
    let expect = linear_orders(51);
    assert_eq!(expect, actual);
}

#[test]
fn tri_curve_test_orders_generation() {
    let chart = TriCurve {};
    let actual = chart.generate_orders(3);
    let expect = linear_orders(17);
    assert_eq!(expect, actual);
}

#[test]
fn star_test_orders_generation() {
    let chart = Star {};
    let actual = chart.generate_orders(3);
    let expect: Vec<Order> = vec![
        Order { link: (0, 2) },
        Order { link: (2, 1) },
        Order { link: (1, 0) },
    ];
    assert_eq!(expect, actual);
}

#[test]
fn starmine_test_orders_generation() {
    let chart = Starmine {};
    let actual = chart.generate_orders(3);
    let expect: Vec<Order> = vec![
        Order { link: (0, 1) },
        Order { link: (1, 2) },
        Order { link: (2, 3) },
        Order { link: (3, 4) },
        Order { link: (4, 5) },
        Order { link: (5, 0) },
    ];
    assert_eq!(expect, actual);
}

#[test]
fn sunrise_test_orders_generation() {
    let chart = Sunrise {};
    let actual = chart.generate_orders(5);
    let expect: Vec<Order> = vec![
        Order { link: (0, 2) },
        Order { link: (1, 4) },
        Order { link: (2, 1) },
        Order { link: (3, 3) },
        Order { link: (4, 0) },
    ];
    assert_eq!(expect, actual);
}
