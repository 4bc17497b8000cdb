use ray_tracer::fault::Fault;
use ray_tracer::matrix::Matrix;
use ray_tracer::tuple::Tuple;

fn integers<const R: usize, const C: usize>(rows: [[i64; C]; R]) -> Matrix<i64> {
    let rows: Vec<Vec<i64>> = rows.iter().map(|row| row.to_vec()).collect();
    Matrix::from_rows(&rows)
}

#[test]
fn get_outside_is_a_bounds_fault() {
    let m = integers([[1, 2, 3], [4, 5, 6]]);
    assert_eq!(m.try_get(1, 2), Ok(6));
    assert_eq!(m.try_get(2, 0), Err(Fault::OutOfBounds));
    assert_eq!(m.try_get(0, 3), Err(Fault::OutOfBounds));
    assert_eq!(m.try_get(usize::MAX, usize::MAX), Err(Fault::OutOfBounds));
}

#[test]
fn get_from_matrix_without_entries_is_a_bounds_fault() {
    let m = Matrix::<i64>::new(0, 0);
    assert_eq!(m.try_get(0, 0), Err(Fault::OutOfBounds));
}

#[test]
fn set_outside_changes_nothing() {
    let mut m = integers([[1, 2], [3, 4]]);
    let before = m.clone();
    assert_eq!(m.try_set(2, 1, 9), Err(Fault::OutOfBounds));
    assert_eq!(m.try_set(0, 2, 9), Err(Fault::OutOfBounds));
    assert_eq!(m, before);
    assert_eq!(m.try_set(1, 1, 9), Ok(()));
    assert_eq!(m, integers([[1, 2], [3, 9]]));
}

#[test]
fn ragged_rows_are_a_dimension_mismatch() {
    let ragged: Vec<Vec<i64>> = vec![vec![1, 2], vec![3]];
    assert_eq!(Matrix::try_from_rows(&ragged).err(), Some(Fault::DimensionMismatch));
    let longer_later: Vec<Vec<i64>> = vec![vec![], vec![3]];
    assert_eq!(Matrix::try_from_rows(&longer_later).err(), Some(Fault::DimensionMismatch));
    let even: Vec<Vec<i64>> = vec![vec![1, 2], vec![3, 4]];
    assert_eq!(Matrix::try_from_rows(&even), Ok(integers([[1, 2], [3, 4]])));
    let none: Vec<Vec<i64>> = Vec::new();
    assert_eq!(Matrix::try_from_rows(&none).map(|m| (m.rows(), m.cols())), Ok((0, 0)));
}

#[test]
fn product_of_unfit_shapes_is_a_dimension_mismatch() {
    let a = integers([[1, 2, 3], [4, 5, 6]]);
    let b = integers([[1, 2], [3, 4]]);
    assert_eq!(a.try_multiply(&b).err(), Some(Fault::DimensionMismatch));
    assert_eq!(b.try_multiply(&a), Ok(integers([[9, 12, 15], [19, 26, 33]])));
}

#[test]
fn vector_product_needs_four_by_four() {
    let v = Tuple::new(1i64, 2, 3, 1);
    let wide = Matrix::<i64>::identity(4, 5);
    assert_eq!(wide.try_multiply_vector(&v).err(), Some(Fault::DimensionMismatch));
    let tall = Matrix::<i64>::identity(5, 4);
    assert_eq!(tall.try_multiply_vector(&v).err(), Some(Fault::DimensionMismatch));
    let small = Matrix::<i64>::identity(3, 3);
    assert_eq!(small.try_multiply_vector(&v).err(), Some(Fault::DimensionMismatch));
    let fit = Matrix::<i64>::identity(4, 4);
    let out = fit.try_multiply_vector(&v).unwrap();
    assert_eq!((out.x, out.y, out.z, out.w), (1, 2, 3, 1));
}

#[test]
fn determinant_of_rectangle_is_a_dimension_mismatch() {
    let m = integers([[1, 2, 3], [4, 5, 6]]);
    assert_eq!(m.try_determinant(), Err(Fault::DimensionMismatch));
    assert_eq!(m.transpose().try_determinant(), Err(Fault::DimensionMismatch));
    assert_eq!(integers([[1, 5], [-3, 2]]).try_determinant(), Ok(17));
    assert_eq!(Matrix::<i64>::new(0, 0).try_determinant(), Ok(1));
}

#[test]
fn row_outside_is_a_bounds_fault() {
    let m = integers([[1, 2, 3], [4, 5, 6]]);
    assert_eq!(m.try_row(1), Ok(&[4i64, 5, 6][..]));
    assert_eq!(m.try_row(2), Err(Fault::OutOfBounds));
    assert_eq!(m.try_row(usize::MAX), Err(Fault::OutOfBounds));
    assert_eq!(Matrix::<i64>::new(0, 4).try_row(0), Err(Fault::OutOfBounds));
}

#[test]
fn set_row_outside_or_of_wrong_length_changes_nothing() {
    let mut m = integers([[1, 2, 3], [4, 5, 6]]);
    let before = m.clone();
    assert_eq!(m.try_set_row(2, &[7, 8, 9]), Err(Fault::OutOfBounds));
    assert_eq!(m.try_set_row(2, &[7]), Err(Fault::OutOfBounds));
    assert_eq!(m.try_set_row(1, &[7, 8]), Err(Fault::DimensionMismatch));
    assert_eq!(m.try_set_row(0, &[7, 8, 9, 10]), Err(Fault::DimensionMismatch));
    assert_eq!(m, before);
    assert_eq!(m.try_set_row(0, &[7, 8, 9]), Ok(()));
    assert_eq!(m, integers([[7, 8, 9], [4, 5, 6]]));
}

#[test]
fn submatrix_outside_is_a_bounds_fault() {
    let m = integers([[1, 2, 3], [4, 5, 6]]);
    assert_eq!(m.try_submatrix(2, 0).err(), Some(Fault::OutOfBounds));
    assert_eq!(m.try_submatrix(0, 3).err(), Some(Fault::OutOfBounds));
    assert_eq!(m.try_submatrix(1, 1), Ok(integers([[1, 3]])));
    assert_eq!(Matrix::<i64>::new(0, 0).try_submatrix(0, 0).err(), Some(Fault::OutOfBounds));
}

#[test]
fn minor_and_cofactor_faults() {
    let wide = integers([[1, 2, 3], [4, 5, 6]]);
    assert_eq!(wide.try_minor(0, 0), Err(Fault::DimensionMismatch));
    assert_eq!(wide.try_cofactor(0, 0), Err(Fault::DimensionMismatch));
    assert_eq!(wide.try_minor(5, 5), Err(Fault::DimensionMismatch));
    let square = integers([[3, 5, 0], [2, -1, -7], [6, -1, 5]]);
    assert_eq!(square.try_minor(3, 0), Err(Fault::OutOfBounds));
    assert_eq!(square.try_cofactor(0, 3), Err(Fault::OutOfBounds));
    assert_eq!(square.try_minor(1, 0), Ok(25));
    assert_eq!(square.try_cofactor(1, 0), Ok(-25));
    assert_eq!(square.try_cofactor(0, 0), Ok(-12));
}

#[test]
fn product_of_huge_unfit_shapes_is_a_dimension_mismatch() {
    let a = Matrix::<i64>::new(usize::MAX, 0);
    let b = Matrix::<i64>::new(1, 0);
    assert_eq!(a.try_multiply(&b).err(), Some(Fault::DimensionMismatch));
}
