use gridkit::iterators::TryFromIterator;
use gridkit::spatial::matrix::VariableRows;
use gridkit::spatial::{Matrix, Point};

fn sample() -> Matrix<i32> {
    Matrix::try_from_iter(vec![vec![1, 2, 3], vec![4, 5, 6]]).unwrap()
}

#[test]
fn matrix_construction() {
    let m = sample();
    assert_eq!(3, m.cols());
    assert_eq!(2, m.rows());
    assert_eq!(&vec![1, 2, 3, 4, 5, 6], m.iter());
}

#[test]
fn matrix_rejects_jagged_rows() {
    let jagged: Result<Matrix<i32>, VariableRows> =
        Matrix::try_from_iter(vec![vec![1, 2], vec![3]]);
    assert!(matches!(jagged, Err(VariableRows)));
}

#[test]
fn matrix_empty_construction() {
    let empty: Matrix<i32> = Matrix::try_from_iter(Vec::new()).unwrap();
    assert_eq!(0, empty.cols());
    assert_eq!(0, empty.rows());
}

#[test]
fn matrix_get_and_index() {
    let m = sample();
    assert_eq!(Some(&6), m.get(Point::new(2, 1)));
    assert_eq!(None, m.get(Point::new(3, 0)));
    assert_eq!(None, m.get(Point::new(0, 2)));
    assert_eq!(&4, m.index(Point::new(0, 1)));
}

#[test]
fn matrix_set() {
    let mut m = sample();
    m.set(Point::new(1, 0), 9);
    assert_eq!(Some(&9), m.get(Point::new(1, 0)));
    assert_eq!(Some(&5), m.get(Point::new(1, 1)));
}

#[test]
fn matrix_rows_and_cols_views() {
    let m = sample();
    assert_eq!(vec![vec![1, 2, 3], vec![4, 5, 6]], m.iter_rows());
    assert_eq!(vec![vec![1, 4], vec![2, 5], vec![3, 6]], m.iter_cols());
}

#[test]
fn matrix_transpose() {
    let m = sample();
    let t = m.clone().transpose();
    assert_eq!(2, t.cols());
    assert_eq!(3, t.rows());
    assert_eq!(m.get(Point::new(2, 1)), t.get(Point::new(1, 2)));
    assert_eq!(m, t.transpose());
}

#[test]
fn matrix_transpose_round_trip() {
    let m = sample();
    assert_eq!(m, m.clone().transpose().transpose());
    for y in 0..m.rows() {
        for x in 0..m.cols() {
            assert_eq!(
                m.get(Point::new(x, y)),
                m.clone().transpose().get(Point::new(y, x))
            );
        }
    }
}

#[test]
fn matrix_into_rows() {
    let mut rows = sample().into_rows();
    assert_eq!(Some(vec![1, 2, 3]), rows.next());
    assert_eq!(Some(vec![4, 5, 6]), rows.next());
    assert_eq!(None, rows.next());
}

#[test]
fn matrix_into_cols() {
    let mut cols = sample().into_cols();
    assert_eq!(Some(vec![1, 4]), cols.next());
    assert_eq!(Some(vec![2, 5]), cols.next());
    assert_eq!(Some(vec![3, 6]), cols.next());
    assert_eq!(None, cols.next());
}

#[test]
fn matrix_map() {
    let m = sample();
    let doubled = m.map(|_p: Point<usize>, v: &i32| v * 2);
    assert_eq!(&vec![2, 4, 6, 8, 10, 12], doubled.iter());
    let tagged = m.map(|p: Point<usize>, v: &i32| (p.x, p.y, *v));
    assert_eq!(Some(&(2, 1, 6)), tagged.get(Point::new(2, 1)));
}
