use linework::chart_orders;
use linework::chart_point_count;
use linework::BinaryTree;
use linework::ChartKind;
use linework::FoldCurveGenerator;
use linework::PointsGeneratorImpl;
use linework::PointKind;
use linework::PointsConfig;

#[test]
fn test_chart_orders_stay_within_point_count() {
    let kinds = [
        ChartKind::BinaryTree,
        ChartKind::Clover,
        ChartKind::FoldCCurve,
        ChartKind::FoldDragon,
        ChartKind::KochCurve,
        ChartKind::KochTriangleInner,
        ChartKind::KochTriangleOuter,
        ChartKind::Star,
        ChartKind::Starmine,
        ChartKind::Sunrise,
        ChartKind::TriCis,
        ChartKind::TriTrans,
    ];
    for kind in kinds {
        for complexity in 2..8u64 {
            let points = chart_point_count(kind, complexity);
            let orders = chart_orders(kind, complexity);
            for order in &orders {
                assert!(order.link.0 < points);
                assert!(order.link.1 < points);
            }
        }
    }
}

#[test]
fn test_chart_point_count_formulas() {
    assert_eq!(chart_point_count(ChartKind::BinaryTree, 3), 16);
    assert_eq!(chart_point_count(ChartKind::Clover, 3), 120);
    assert_eq!(chart_point_count(ChartKind::FoldCCurve, 4), 9);
    assert_eq!(chart_point_count(ChartKind::FoldDragon, 6), 33);
    assert_eq!(chart_point_count(ChartKind::KochCurve, 3), 17);
    assert_eq!(chart_point_count(ChartKind::KochTriangleInner, 3), 51);
    assert_eq!(chart_point_count(ChartKind::KochTriangleOuter, 3), 51);
    assert_eq!(chart_point_count(ChartKind::Star, 3), 3);
    assert_eq!(chart_point_count(ChartKind::Starmine, 3), 6);
    assert_eq!(chart_point_count(ChartKind::Sunrise, 5), 5);
    assert_eq!(chart_point_count(ChartKind::TriCis, 4), 65);
    assert_eq!(chart_point_count(ChartKind::TriTrans, 4), 65);
}

#[test]
fn test_chart_orders_lengths_match_point_counts() {
    // Open chains hold one edge fewer than points; closed kinds one per point.
    let open_kinds = [
        ChartKind::BinaryTree,
        ChartKind::FoldCCurve,
        ChartKind::FoldDragon,
        ChartKind::KochCurve,
        ChartKind::KochTriangleInner,
        ChartKind::KochTriangleOuter,
        ChartKind::TriCis,
        ChartKind::TriTrans,
    ];
    let closed_kinds = [
        ChartKind::Clover,
        ChartKind::Star,
        ChartKind::Starmine,
        ChartKind::Sunrise,
    ];
    for kind in open_kinds {
        for complexity in 2..7u64 {
            let points = chart_point_count(kind, complexity);
            let orders = chart_orders(kind, complexity);
            assert_eq!(orders.len() as u64, points - 1);
        }
    }
    for kind in closed_kinds {
        for complexity in 2..7u64 {
            let points = chart_point_count(kind, complexity);
            let orders = chart_orders(kind, complexity);
            assert_eq!(orders.len() as u64, points);
        }
    }
}

#[test]
fn test_fold_generator_point_count() {
    // One fold per rule doubles the segments per level; three quadruple them.
    assert_eq!(FoldCurveGenerator::point_count(1, 2), 3);
    assert_eq!(FoldCurveGenerator::point_count(1, 6), 33);
    assert_eq!(FoldCurveGenerator::point_count(3, 2), 5);
    assert_eq!(FoldCurveGenerator::point_count(3, 3), 17);
    assert_eq!(FoldCurveGenerator::point_count(3, 4), 65);
}

#[test]
fn test_koch_curve_complexity_three_holds_seventeen_points() {
    assert_eq!(chart_point_count(ChartKind::KochCurve, 3), 17);
    assert_eq!(chart_orders(ChartKind::KochCurve, 3).len(), 16);
    assert_eq!(FoldCurveGenerator::point_count(3, 3), 17);
}

#[test]
fn test_binary_tree_point_count_clamps_complexity() {
    assert_eq!(BinaryTree::point_count(0), 8);
    assert_eq!(BinaryTree::point_count(1), 8);
    assert_eq!(BinaryTree::point_count(2), 8);
    assert_eq!(BinaryTree::point_count(3), 16);
    assert_eq!(BinaryTree::point_count(10), 2048);
    assert_eq!(BinaryTree::point_count(11), 2048);
    assert_eq!(BinaryTree::point_count(u64::MAX), 2048);
}

#[test]
fn test_binary_tree_base_point_indices_emission_order() {
    // Each visited node emits its two children, then the left subtree, then
    // the right subtree.
    let expect: Vec<u64> = vec![0, 1, 2, 3, 4, 5, 8, 9, 10, 11, 6, 7, 12, 13, 14, 15];
    assert_eq!(BinaryTree::base_point_indices(3), expect);
    let expect_small: Vec<u64> = vec![0, 1, 2, 3, 4, 5, 6, 7];
    assert_eq!(BinaryTree::base_point_indices(2), expect_small);
}

#[test]
fn test_binary_tree_base_point_indices_complete() {
    for complexity in 0..12u64 {
        let points = BinaryTree::point_count(complexity);
        let mut indices = BinaryTree::base_point_indices(complexity);
        assert_eq!(indices.len() as u64, points);
        indices.sort();
        for i in 0..indices.len() {
            assert_eq!(indices[i], i as u64);
        }
    }
}

#[test]
fn test_binary_tree_orders_follow_heap_parents() {
    for complexity in 0..12u64 {
        let chart = BinaryTree {};
        let orders = chart.generate_orders(complexity);
        for i in 0..orders.len() {
            let child: u64 = i as u64 + 1;
            assert_eq!(orders[i].link, (child / 2, child));
        }
    }
}

#[test]
fn test_points_generator_point_count() {
    let config = PointsConfig {
        kind: PointKind::Circle,
        length: 12,
    };
    assert_eq!(PointsGeneratorImpl::point_count(&config), 12);
    let random = PointsConfig {
        kind: PointKind::Random,
        length: 7,
    };
    assert_eq!(PointsGeneratorImpl::point_count(&random), 7);
}
