use gridkit::errors::{MultipleSolutions, NoInput, NoSolution};
use gridkit::iterators::{Enumerate2D, ExtraIter, SingleError, TryFromIterator};
use gridkit::math::GaussSum;
use gridkit::parsing::ParsingError;
use gridkit::spatial::{Matrix, Point};
use gridkit::tuples::{fst, snd, swap, Fst, Snd, Swap};

#[test]
fn extra_iter_single() {
    assert_eq!(Ok(1), vec![1].single());
    assert_eq!(Err(SingleError::Empty), Vec::<()>::new().single());
    assert_eq!(Err(SingleError::More), vec![1, 2].single());
}

#[test]
fn enumerate2d() {
    assert_eq!(
        vec![
            (Point::new(0, 0), 1),
            (Point::new(1, 0), 2),
            (Point::new(0, 1), 3),
            (Point::new(1, 1), 4),
        ],
        vec![vec![1, 2], vec![3, 4]].enumerate2d()
    );
}

#[test]
fn enumerate2d_jagged() {
    assert_eq!(
        vec![(Point::new(0, 0), 'a'), (Point::new(0, 1), 'b'), (Point::new(1, 1), 'c')],
        vec![vec!['a'], vec!['b', 'c']].enumerate2d()
    );
}

#[test]
fn try_collecting_matrix() {
    let m: Matrix<i32> = vec![vec![7, 8], vec![9, 10]].try_collecting().unwrap();
    assert_eq!(Some(&10), m.get(Point::new(1, 1)));
    let jagged: Result<Matrix<i32>, _> = vec![vec![7], vec![8, 9]].try_collecting();
    assert!(jagged.is_err());
}

#[test]
fn gauss_sum_values() {
    assert_eq!(55u32, 10u32.gauss_sum());
    assert_eq!(5050u64, 100u64.gauss_sum());
    assert_eq!(1u8, 1u8.gauss_sum());
    assert_eq!(0usize, 0usize.gauss_sum());
    assert_eq!(15i16, 5i16.gauss_sum());
    assert_eq!(3i32, (-3i32).gauss_sum());
}

#[test]
fn tuple_projections() {
    assert_eq!(1, fst((1, "a")));
    assert_eq!("a", snd((1, "a")));
    assert_eq!(("a", 1), swap((1, "a")));
    assert_eq!(2, (2, 3).fst());
    assert_eq!(3, (2, 3).snd());
    assert_eq!((3, 2), (2, 3).swap());
}

#[test]
fn error_messages() {
    assert_eq!(
        "The puzzle has no valid solution for the given input",
        NoSolution.message()
    );
    assert_eq!(
        "Multiple valid solutions possible, the answer is ambiguous",
        MultipleSolutions.message()
    );
    assert_eq!("The puzzle input is empty", NoInput.message());
    assert_eq!(
        "expected a digit",
        ParsingError::new(String::from("expected a digit")).message()
    );
}
