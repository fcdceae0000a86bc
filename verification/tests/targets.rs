use pathing::target::{Path, PathQueryProps, PathTarget, Point, SearchEffort};

#[test]
fn distance_squared_is_the_sum_of_the_squares() {
    assert_eq!(Point::new(0, 0).distance_squared(Point::new(3, 4)), 25);
    assert_eq!(Point::new(-3, 7).distance_squared(Point::new(-3, 7)), 0);
    assert_eq!(Point::new(-1000, 0).distance_squared(Point::new(1000, 0)), 4_000_000);
}

#[test]
fn distance_squared_of_the_farthest_points() {
    let a = Point::new(i32::MIN, i32::MIN);
    let b = Point::new(i32::MAX, i32::MAX);
    let side: u128 = (1u128 << 32) - 1;
    assert_eq!(a.distance_squared(b), 2 * side * side);
    assert_eq!(b.distance_squared(a), 2 * side * side);
}

#[test]
fn target_is_reached_within_the_arrival_distance() {
    let target = PathTarget::new(
        Point::new(0, 0),
        PathQueryProps::new(500, SearchEffort::Limited(30_000)),
        false,
    );
    assert!(target.is_reached_from(Point::new(0, 0)));
    assert!(target.is_reached_from(Point::new(500, 0)));
    assert!(!target.is_reached_from(Point::new(501, 0)));
    assert!(target.is_reached_from(Point::new(300, -400)));
    assert!(!target.is_reached_from(Point::new(300, -401)));
}

#[test]
fn exact_target_is_reached_only_on_the_spot() {
    let target = PathTarget::new(Point::new(7, -7), PathQueryProps::exact(), false);
    assert!(target.is_reached_from(Point::new(7, -7)));
    assert!(!target.is_reached_from(Point::new(8, -7)));
    assert!(!target.is_reached_from(Point::new(7, -6)));
}

#[test]
fn target_with_the_longest_arrival_distance() {
    let target = PathTarget::new(
        Point::new(i32::MAX, i32::MAX),
        PathQueryProps::new(u32::MAX, SearchEffort::Unlimited),
        true,
    );
    assert!(target.is_reached_from(Point::new(i32::MAX, i32::MIN)));
    assert!(!target.is_reached_from(Point::new(i32::MIN, i32::MIN)));
}

#[test]
fn target_getters_return_the_parts() {
    let props = PathQueryProps::new(7, SearchEffort::Limited(9));
    let target = PathTarget::new(Point::new(1, 2), props, true);
    assert_eq!(target.location(), Point::new(1, 2));
    assert_eq!(target.properties(), props);
    assert!(target.permanent());
    assert_eq!(props.distance(), 7);
    assert_eq!(props.max_effort(), SearchEffort::Limited(9));
}

#[test]
fn exact_props_ask_for_the_target_itself() {
    let props = PathQueryProps::exact();
    assert_eq!(props.distance(), 0);
    assert_eq!(props.max_effort(), SearchEffort::Unlimited);
}

#[test]
fn unlimited_effort_keeps_the_rest_of_the_target() {
    let target = PathTarget::new(
        Point::new(10, -20),
        PathQueryProps::new(300, SearchEffort::Limited(5)),
        false,
    );
    let renewed = target.with_unlimited_effort();
    assert_eq!(renewed.location(), Point::new(10, -20));
    assert_eq!(renewed.properties().distance(), 300);
    assert_eq!(renewed.properties().max_effort(), SearchEffort::Unlimited);
    assert!(!renewed.permanent());
}

#[test]
fn path_keeps_its_waypoints_in_order() {
    let path = Path::new(vec![Point::new(0, 0), Point::new(5, 5), Point::new(10, 0)]);
    assert_eq!(
        path.waypoints(),
        &vec![Point::new(0, 0), Point::new(5, 5), Point::new(10, 0)]
    );
}
