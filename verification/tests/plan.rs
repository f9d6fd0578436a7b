use mqtt_sweep::plan::{GridPoint, SweepPlan};

#[test]
fn standard_plan_has_eighteen_points_in_order() {
    let plan = SweepPlan::standard();
    let points = plan.points();
    assert_eq!(points.len(), 18);
    assert_eq!(plan.len(), Some(18));
    let mut expected = Vec::new();
    for qos in [0, 1, 2] {
        for delay in [0, 10, 20, 50, 100, 500] {
            expected.push(GridPoint { qos, delay });
        }
    }
    assert_eq!(points, expected);
    assert_eq!(points[0], GridPoint { qos: 0, delay: 0 });
    assert_eq!(points[5], GridPoint { qos: 0, delay: 500 });
    assert_eq!(points[6], GridPoint { qos: 1, delay: 0 });
    assert_eq!(points[17], GridPoint { qos: 2, delay: 500 });
}

#[test]
fn plan_can_be_walked_again() {
    let plan = SweepPlan::standard();
    assert_eq!(plan.points(), plan.points());
    assert_eq!(SweepPlan::standard(), SweepPlan::new(vec![0, 1, 2], vec![0, 10, 20, 50, 100, 500]));
}

#[test]
fn point_finds_each_place() {
    let plan = SweepPlan::new(vec![2, 0], vec![5, 6, 7]);
    assert_eq!(plan.len(), Some(6));
    assert_eq!(plan.point(0), Some(GridPoint { qos: 2, delay: 5 }));
    assert_eq!(plan.point(2), Some(GridPoint { qos: 2, delay: 7 }));
    assert_eq!(plan.point(3), Some(GridPoint { qos: 0, delay: 5 }));
    assert_eq!(plan.point(5), Some(GridPoint { qos: 0, delay: 7 }));
    assert_eq!(plan.point(6), None);
    for (index, point) in plan.points().into_iter().enumerate() {
        assert_eq!(plan.point(index), Some(point));
    }
    assert_eq!(plan.level_count(), 2);
    assert_eq!(plan.delay_count(), 3);
    assert_eq!(plan.level_at(1), 0);
    assert_eq!(plan.delay_at(2), 7);
}

#[test]
fn plan_without_levels_or_delays_is_empty() {
    assert_eq!(SweepPlan::new(vec![], vec![1, 2]).points(), vec![]);
    assert_eq!(SweepPlan::new(vec![1, 2], vec![]).points(), vec![]);
    assert_eq!(SweepPlan::new(vec![1, 2], vec![]).len(), Some(0));
    assert_eq!(SweepPlan::new(vec![1, 2], vec![]).point(0), None);
    assert_eq!(SweepPlan::new(vec![], vec![]).point(0), None);
}
