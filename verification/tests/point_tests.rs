use std::cmp::Ordering;

use gridkit::spatial::direction::Cardinal;
use gridkit::spatial::Point;

#[test]
fn point_manhattan_distance() {
    assert_eq!(8, Point::new(5, 2).manhattan_distance(Point::new(1, -2)));
    assert_eq!(0, Point::<i32>::zero().manhattan_distance(Point::zero()));
}

#[test]
fn point_neighbours() {
    assert_eq!(
        vec![Point::new(1, 0), Point::new(0, 1)],
        Point::<u32>::new(0, 0).neighbours::<Cardinal>()
    );
}

#[test]
fn point_neighbours_at_edge() {
    // north would underflow y and east would overflow x, so only the
    // south and west neighbours remain, in declaration order
    assert_eq!(
        vec![Point::new(255, 1), Point::new(254, 0)],
        Point::<u8>::new(255, 0).neighbours::<Cardinal>()
    );
    assert_eq!(
        2,
        Point::<u8>::new(255, 0).add_signed(Point::new(1i8, 0)).is_none() as u32
            + Point::<u8>::new(255, 0).add_signed(Point::new(0i8, -1)).is_none() as u32
    );
}

#[test]
fn point_cast() {
    assert_eq!(Some(Point::<usize>::new(1, 0)), Point::<isize>::new(1, 0).cast::<usize>());
    assert_eq!(None, Point::<u8>::new(255, 0).cast::<i8>());
}

#[test]
fn point_order() {
    assert!(Point::new(0, 1) > Point::new(1, 0));
    assert!(Point::new(0, 1) > Point::new(0, 0));
    assert!(Point::new(0, 0) < Point::new(1, 0));
    assert_eq!(Ordering::Equal, Point::new(1, 1).cmp(&Point::new(1, 1)));
}

#[test]
fn point_display() {
    assert_eq!("(1, 2)", Point::new(1, 2).to_string());
    assert_eq!("(-1, -2)", Point::new(-1, -2).to_string());
}

#[test]
fn abs_diff() {
    assert_eq!(
        Point::<u32>::new(2, 2),
        Point::<u32>::new(4, 3).abs_diff(Point::<u32>::new(2, 5))
    );

    assert_eq!(
        Point::<u16>::new(2, 8),
        Point::<i16>::new(-2, 3).abs_diff(Point::<i16>::new(-4, -5))
    )
}

#[test]
fn point_manhattan_symmetric() {
    let a = Point::new(-7i64, 11);
    let b = Point::new(40i64, -3);
    assert_eq!(a.manhattan_distance(b), b.manhattan_distance(a));
    assert_eq!(0, a.manhattan_distance(a));
}

#[test]
fn point_arithmetic() {
    assert_eq!(Point::new(3, -1), Point::new(1, 2).add(Point::new(2, -3)));
    assert_eq!(Point::new(-1, 5), Point::new(1, 2).sub(Point::new(2, -3)));
    assert_eq!(Point::new(-1, -2), Point::new(1, 2).neg());
    assert_eq!(Point::<u8>::new(1, 1), Point::<u8>::one());
    assert_eq!(Some(Point::new(4u32, 1)), Point::new(3u32, 2).add_signed(Point::new(1i32, -1)));
    assert_eq!(None, Point::new(0u32, 0).add_signed(Point::new(-1i32, 0)));
}

#[test]
fn point_scalar_arithmetic() {
    assert_eq!(Point::new(3, 4), Point::new(1, 2).scalar_add(2));
    assert_eq!(Point::new(-1, 0), Point::new(1, 2).scalar_sub(2));
    assert_eq!(Point::new(-3, 6), Point::new(-1, 2).scalar_mul(3));
}

#[test]
fn point_conversions() {
    assert_eq!(Point::new(4, 7), Point::from((4, 7)));
    assert_eq!((4, 7), <(i32, i32)>::from(Point::new(4, 7)));
}
