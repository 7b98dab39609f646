use gridkit::spatial::direction::{Cardinal, Compass, Directions, Ordinal, Rotation};

#[test]
fn cardinal_vectors() {
    assert_eq!((0i32, -1i32), Cardinal::North.vector());
    assert_eq!((1i32, 0i32), Cardinal::East.vector());
    assert_eq!((0i32, 1i32), Cardinal::South.vector());
    assert_eq!((-1i32, 0i32), Cardinal::West.vector());
}

#[test]
fn ordinal_vectors() {
    assert_eq!((1i8, -1i8), Ordinal::NorthEast.vector());
    assert_eq!((-1i8, 1i8), Ordinal::SouthWest.vector());
}

#[test]
fn direction_order() {
    assert_eq!(
        vec![Cardinal::North, Cardinal::East, Cardinal::South, Cardinal::West],
        Cardinal::all()
    );
    assert_eq!(
        vec![
            Ordinal::NorthEast,
            Ordinal::SouthEast,
            Ordinal::SouthWest,
            Ordinal::NorthWest,
        ],
        Ordinal::all()
    );
    assert_eq!(8, Compass::all().len());
    assert_eq!(Compass::Cardinal(Cardinal::North), Compass::all()[0]);
    assert_eq!(Compass::Ordinal(Ordinal::NorthEast), Compass::all()[1]);
}

#[test]
fn direction_inverted() {
    assert_eq!(Cardinal::South, Cardinal::North.inverted());
    assert_eq!(Cardinal::North, Cardinal::North.inverted().inverted());
    assert_eq!(Ordinal::NorthWest, Ordinal::SouthEast.inverted());
    assert_eq!(
        Compass::Cardinal(Cardinal::West),
        Compass::Cardinal(Cardinal::East).inverted()
    );
}

#[test]
fn cardinal_turns() {
    assert_eq!(Cardinal::East, Cardinal::North.turn(Rotation::Clockwise));
    assert_eq!(Cardinal::West, Cardinal::North.turn(Rotation::CounterClockwise));
    for d in Cardinal::all() {
        assert_eq!(
            d,
            d.turn(Rotation::Clockwise).turn(Rotation::CounterClockwise)
        );
        assert_eq!(
            d,
            d.turn(Rotation::Clockwise)
                .turn(Rotation::Clockwise)
                .turn(Rotation::Clockwise)
                .turn(Rotation::Clockwise)
        );
    }
}

#[test]
fn ordinal_turns() {
    assert_eq!(Ordinal::SouthEast, Ordinal::NorthEast.turn(Rotation::Clockwise));
    for d in Ordinal::all() {
        assert_eq!(
            d,
            d.turn(Rotation::CounterClockwise).turn(Rotation::Clockwise)
        );
    }
}

#[test]
fn compass_turns() {
    assert_eq!(
        Compass::Ordinal(Ordinal::NorthEast),
        Compass::Cardinal(Cardinal::North).turn(Rotation::Clockwise)
    );
    let mut d = Compass::Cardinal(Cardinal::North);
    for _step in 0..8 {
        d = d.turn(Rotation::Clockwise);
    }
    assert_eq!(Compass::Cardinal(Cardinal::North), d);
    for d in Compass::all() {
        assert_eq!(
            d,
            d.turn(Rotation::Clockwise).turn(Rotation::CounterClockwise)
        );
    }
}

#[test]
fn rotation_inverted() {
    assert_eq!(Rotation::CounterClockwise, Rotation::Clockwise.inverted());
    assert_eq!(Rotation::Clockwise, Rotation::Clockwise.inverted().inverted());
}

#[test]
fn cardinal_from_symbol() {
    assert_eq!(Some(Cardinal::North), Cardinal::from_symbol('^'));
    assert_eq!(Some(Cardinal::East), Cardinal::from_symbol('>'));
    assert_eq!(Some(Cardinal::South), Cardinal::from_symbol('v'));
    assert_eq!(Some(Cardinal::South), Cardinal::from_symbol('V'));
    assert_eq!(Some(Cardinal::West), Cardinal::from_symbol('<'));
    assert_eq!(None, Cardinal::from_symbol('x'));
}
