use meth::wiggler::{Point, Wiggler, WIGGLE_DISPLACEMENT};

const ALL: [Wiggler; 4] = [Wiggler::Up, Wiggler::Right, Wiggler::Down, Wiggler::Left];

#[test]
fn default_is_up() {
    assert_eq!(Wiggler::default(), Wiggler::Up);
}

#[test]
fn displacement_is_five() {
    assert_eq!(WIGGLE_DISPLACEMENT, 5);
}

#[test]
fn next_follows_the_cycle() {
    assert_eq!(Wiggler::Up.next(), Wiggler::Right);
    assert_eq!(Wiggler::Right.next(), Wiggler::Down);
    assert_eq!(Wiggler::Down.next(), Wiggler::Left);
    assert_eq!(Wiggler::Left.next(), Wiggler::Up);
}

#[test]
fn next_four_times_is_identity() {
    for start in ALL {
        assert_eq!(start.next().next().next().next(), start);
    }
}

#[test]
fn next_has_no_shorter_cycle() {
    for start in ALL {
        assert_ne!(start.next(), start);
        assert_ne!(start.next().next(), start);
        assert_ne!(start.next().next().next(), start);
    }
}

#[test]
fn next_keeps_period_four_over_long_runs() {
    for start in ALL {
        let mut wiggler = start;
        for step in 1..=1000 {
            wiggler = wiggler.next();
            if step % 4 == 0 {
                assert_eq!(wiggler, start);
            } else {
                assert_ne!(wiggler, start);
            }
        }
    }
}

#[test]
fn first_wiggle_goes_up() {
    let mut wiggler = Wiggler::default();
    let mut point = Point { x: 100, y: 100 };
    wiggler.transform(&mut point);
    assert_eq!(point, Point { x: 100, y: 95 });
    assert_eq!(wiggler, Wiggler::Right);
}

#[test]
fn transform_up_lowers_y() {
    let mut wiggler = Wiggler::Up;
    let mut point = Point { x: 640, y: 480 };
    wiggler.transform(&mut point);
    assert_eq!(point, Point { x: 640, y: 475 });
    assert_eq!(wiggler, Wiggler::Right);
}

#[test]
fn transform_right_raises_x() {
    let mut wiggler = Wiggler::Right;
    let mut point = Point { x: 640, y: 480 };
    wiggler.transform(&mut point);
    assert_eq!(point, Point { x: 645, y: 480 });
    assert_eq!(wiggler, Wiggler::Down);
}

#[test]
fn transform_down_raises_y() {
    let mut wiggler = Wiggler::Down;
    let mut point = Point { x: 640, y: 480 };
    wiggler.transform(&mut point);
    assert_eq!(point, Point { x: 640, y: 485 });
    assert_eq!(wiggler, Wiggler::Left);
}

#[test]
fn transform_left_lowers_x() {
    let mut wiggler = Wiggler::Left;
    let mut point = Point { x: 640, y: 480 };
    wiggler.transform(&mut point);
    assert_eq!(point, Point { x: 635, y: 480 });
    assert_eq!(wiggler, Wiggler::Up);
}

#[test]
fn transform_changes_exactly_one_coordinate_by_five() {
    let points = [
        Point { x: 0, y: 0 },
        Point { x: -3, y: 7 },
        Point { x: 1919, y: 1079 },
        Point { x: -100_000, y: 100_000 },
    ];
    for start in ALL {
        for origin in points {
            let mut wiggler = start;
            let mut point = origin;
            wiggler.transform(&mut point);
            let dx = (point.x - origin.x).abs();
            let dy = (point.y - origin.y).abs();
            assert!((dx == 5 && dy == 0) || (dx == 0 && dy == 5));
        }
    }
}

#[test]
fn transform_works_below_zero() {
    let mut wiggler = Wiggler::Up;
    let mut point = Point { x: 2, y: 3 };
    wiggler.transform(&mut point);
    assert_eq!(point, Point { x: 2, y: -2 });
    let mut wiggler = Wiggler::Left;
    wiggler.transform(&mut point);
    assert_eq!(point, Point { x: -3, y: -2 });
}

#[test]
fn four_transforms_trace_a_closed_square() {
    let mut wiggler = Wiggler::default();
    let mut point = Point { x: 300, y: 200 };
    wiggler.transform(&mut point);
    assert_eq!(point, Point { x: 300, y: 195 });
    wiggler.transform(&mut point);
    assert_eq!(point, Point { x: 305, y: 195 });
    wiggler.transform(&mut point);
    assert_eq!(point, Point { x: 305, y: 200 });
    wiggler.transform(&mut point);
    assert_eq!(point, Point { x: 300, y: 200 });
    assert_eq!(wiggler, Wiggler::Up);
}

#[test]
fn four_transforms_return_from_any_direction() {
    let points = [
        Point { x: 0, y: 0 },
        Point { x: 17, y: -4 },
        Point { x: i32::MAX, y: i32::MIN },
        Point { x: i32::MIN, y: i32::MAX },
        Point { x: i32::MAX - 2, y: i32::MIN + 2 },
    ];
    for start in ALL {
        for origin in points {
            let mut wiggler = start;
            let mut point = origin;
            for _ in 0..4 {
                wiggler.transform(&mut point);
            }
            assert_eq!(point, origin);
            assert_eq!(wiggler, start);
        }
    }
}

#[test]
fn transform_wraps_at_the_ends_of_the_range() {
    let mut wiggler = Wiggler::Up;
    let mut point = Point { x: 0, y: i32::MIN };
    wiggler.transform(&mut point);
    assert_eq!(point, Point { x: 0, y: i32::MAX - 4 });

    let mut wiggler = Wiggler::Right;
    let mut point = Point { x: i32::MAX, y: 0 };
    wiggler.transform(&mut point);
    assert_eq!(point, Point { x: i32::MIN + 4, y: 0 });

    let mut wiggler = Wiggler::Down;
    let mut point = Point { x: 0, y: i32::MAX - 4 };
    wiggler.transform(&mut point);
    assert_eq!(point, Point { x: 0, y: i32::MIN });

    let mut wiggler = Wiggler::Left;
    let mut point = Point { x: i32::MIN + 4, y: 0 };
    wiggler.transform(&mut point);
    assert_eq!(point, Point { x: i32::MAX, y: 0 });
}

#[test]
fn transform_reaches_the_ends_of_the_range_exactly() {
    let mut wiggler = Wiggler::Up;
    let mut point = Point { x: 0, y: i32::MIN + 5 };
    wiggler.transform(&mut point);
    assert_eq!(point, Point { x: 0, y: i32::MIN });

    let mut wiggler = Wiggler::Right;
    let mut point = Point { x: i32::MAX - 5, y: 0 };
    wiggler.transform(&mut point);
    assert_eq!(point, Point { x: i32::MAX, y: 0 });
}
