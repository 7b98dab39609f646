use gridkit::spatial::{Area, Point};

fn forward<T>(mut it: gridkit::spatial::area::Iter<T>) -> Vec<Point<T>>
where
    T: gridkit::num::Numeric,
{
    let mut out = Vec::new();
    while let Some(p) = it.next() {
        out.push(p);
    }
    out
}

fn backward<T>(mut it: gridkit::spatial::area::Iter<T>) -> Vec<Point<T>>
where
    T: gridkit::num::Numeric,
{
    let mut out = Vec::new();
    while let Some(p) = it.next_back() {
        out.push(p);
    }
    out
}

#[test]
fn area_surface_area() {
    assert_eq!(
        12,
        Area { position: Point { x: -3, y: 0 }, dimensions: (4, 3) }.surface_area()
    );
}

#[test]
fn area_from_dimensions() {
    assert_eq!(
        Area { position: Point::<usize>::zero(), dimensions: (3, 3) },
        Area::from_dimensions(3, 3)
    );
}

#[test]
fn area_contains() {
    assert!(Area::<usize>::from_dimensions(2, 2).contains(Point::<isize>::one()));
    assert!(!Area::<usize>::from_dimensions(0, 0).contains(Point::<usize>::zero()));
    assert!(!Area::<usize>::from_dimensions(2, 2).contains(Point::new(-1, -1)));
}

#[test]
fn area_into_iter() {
    let area: Area<i32> = Area::from_dimensions(2, 3);
    let points = vec![
        Point::new(0, 0),
        Point::new(1, 0),
        Point::new(0, 1),
        Point::new(1, 1),
        Point::new(0, 2),
        Point::new(1, 2),
    ];

    assert_eq!(points.len(), area.iter().len());
    assert_eq!(points, forward(area.iter()));
    let mut reversed = points.clone();
    reversed.reverse();
    assert_eq!(reversed, backward(area.iter()));

    let area = Area::new(Point::<i32>::one(), (2, 2));
    let points = vec![Point::new(1, 1), Point::new(2, 1), Point::new(1, 2), Point::new(2, 2)];

    assert_eq!(points.len(), area.iter().len());
    assert_eq!(points, forward(area.iter()));
    let mut reversed = points.clone();
    reversed.reverse();
    assert_eq!(reversed, backward(area.iter()));
}

#[test]
fn area_iter_rows() {
    assert_eq!(
        vec![
            vec![Point::new(1, 1), Point::new(2, 1)],
            vec![Point::new(1, 2), Point::new(2, 2)],
        ],
        Area { position: Point::<i32>::one(), dimensions: (2, 2) }.iter_rows()
    );
}

#[test]
fn area_bounding_area() {
    assert_eq!(
        Area { position: Point::new(2, 1), dimensions: (2, 4) },
        Area::bounding_area(&vec![
            Point::from((2, 2)),
            Point::from((3, 1)),
            Point::from((3, 4)),
            Point::from((2, 1)),
        ])
    );

    assert_eq!(
        Area::<usize>::from_dimensions(0, 0),
        Area::bounding_area(&Vec::<Point<usize>>::new())
    );
}

#[test]
fn area_iteration_meets_in_the_middle() {
    // the two cursors drain the same traversal without overlap
    let area: Area<u8> = Area::from_dimensions(3, 2);
    let mut it = area.iter();
    assert_eq!(Some(Point::new(0, 0)), it.next());
    assert_eq!(Some(Point::new(2, 1)), it.next_back());
    assert_eq!(Some(Point::new(1, 0)), it.next());
    assert_eq!(Some(Point::new(1, 1)), it.next_back());
    assert_eq!(Some(Point::new(2, 0)), it.next());
    assert_eq!(Some(Point::new(0, 1)), it.next_back());
    assert_eq!(None, it.next());
    assert_eq!(None, it.next_back());
}

#[test]
fn area_iteration_matches_containment() {
    // every yielded point is contained, and the counts agree
    let area = Area::new(Point::new(-1i32, 4), (3, 3));
    let yielded = forward(area.iter());
    assert_eq!(area.surface_area(), yielded.len());
    for p in &yielded {
        assert!(area.contains(*p));
    }
    assert!(!area.contains(Point::new(-2, 4)));
    assert!(!area.contains(Point::new(2, 4)));
}
