use ndarray::{arr1, arr2, Array1, Array2};
use num::complex::Complex;
use rusty_base::linalg::{conj_table, conj_vec, dot, mat_mat, mat_vec};
use rusty_base::operator::{conj_matmat_by_columns, matmat_by_columns};
use rusty_base::{ConjMatMat, ConjMatVec, MatMat, MatVec, RealType, Scalar, Table};

/// Double precision reals as scalars of the library.
#[derive(Clone, Copy, Debug, PartialEq)]
struct Real(f64);

impl Scalar for Real {
    fn zero() -> Self {
        Real(0.0)
    }

    fn add(self, rhs: Self) -> Self {
        Real(self.0 + rhs.0)
    }

    fn mul(self, rhs: Self) -> Self {
        Real(self.0 * rhs.0)
    }

    fn conj(self) -> Self {
        Real(ndarray_linalg::Scalar::conj(&self.0))
    }
}

impl RealType for Real {}

/// Double precision complex numbers as scalars of the library.
#[derive(Clone, Copy, Debug, PartialEq)]
struct Cplx(Complex<f64>);

impl Scalar for Cplx {
    fn zero() -> Self {
        Cplx(Complex::new(0.0, 0.0))
    }

    fn add(self, rhs: Self) -> Self {
        Cplx(self.0 + rhs.0)
    }

    fn mul(self, rhs: Self) -> Self {
        Cplx(self.0 * rhs.0)
    }

    fn conj(self) -> Self {
        Cplx(ndarray_linalg::Scalar::conj(&self.0))
    }
}

fn c(re: f64, im: f64) -> Cplx {
    Cplx(Complex::new(re, im))
}

fn real_table(a: &Array2<f64>) -> Table<Real> {
    let rows: Vec<Vec<Real>> =
        a.rows().into_iter().map(|r| r.iter().map(|x| Real(*x)).collect()).collect();
    Table::from_rows(a.ncols(), rows).unwrap()
}

fn real_vec(a: &Array1<f64>) -> Vec<Real> {
    a.iter().map(|x| Real(*x)).collect()
}

fn complex_table(ncols: usize, rows: Vec<Vec<Cplx>>) -> Table<Cplx> {
    Table::from_rows(ncols, rows).unwrap()
}

fn sample_real() -> Table<Real> {
    real_table(&arr2(&[[1.0, 2.0], [3.0, 4.0], [5.0, 6.0]]))
}

fn sample_complex() -> Table<Cplx> {
    complex_table(2, vec![vec![c(1.0, 1.0), c(2.0, 0.0)], vec![c(0.0, 3.0), c(4.0, -1.0)]])
}

#[test]
fn real_matvec_of_three_by_two() {
    let m = sample_real();
    let v = real_vec(&arr1(&[1.0, 1.0]));
    assert_eq!(MatVec::nrows(&m), 3);
    assert_eq!(MatVec::ncols(&m), 2);
    assert_eq!(m.matvec(&v), vec![Real(3.0), Real(7.0), Real(11.0)]);
}

#[test]
fn complex_conj_matvec_of_one_by_one() {
    let m = complex_table(1, vec![vec![c(2.0, 3.0)]]);
    let v = vec![c(1.0, 0.0)];
    assert_eq!(m.conj_matvec(&v), vec![c(2.0, -3.0)]);
}

#[test]
fn complex_matvec_is_the_matrix_vector_product() {
    let m = sample_complex();
    let v = vec![c(1.0, 1.0), c(2.0, -1.0)];
    // (1+i)(1+i) + 2(2-i) = 2i + 4 - 2i = 4
    // 3i(1+i) + (4-i)(2-i) = -3 + 3i + 7 - 6i = 4 - 3i
    assert_eq!(m.matvec(&v), vec![c(4.0, 0.0), c(4.0, -3.0)]);
}

#[test]
fn complex_conj_matvec_conjugates_argument_and_result() {
    let m = sample_complex();
    let v = vec![c(1.0, 1.0), c(2.0, -1.0)];
    // conj(v) = [1-i, 2+i]
    // column 0: (1+i)(1-i) + 3i(2+i) = 2 + 6i - 3 = -1 + 6i, conjugated -1 - 6i
    // column 1: 2(1-i) + (4-i)(2+i) = 2 - 2i + 9 + 2i = 11
    let out = m.conj_matvec(&v);
    assert_eq!(out, vec![c(-1.0, -6.0), c(11.0, 0.0)]);
    let by_steps = conj_vec(&mat_vec(&m.transpose(), &conj_vec(&v)));
    assert_eq!(out, by_steps);
}

#[test]
fn real_conj_matvec_is_the_product_with_the_transpose() {
    let m = sample_real();
    let v = real_vec(&arr1(&[1.0, -2.0, 3.0]));
    let out = m.conj_matvec(&v);
    assert_eq!(out, vec![Real(10.0), Real(12.0)]);
    assert_eq!(out, m.transpose().matvec(&v));
}

#[test]
fn matmat_by_columns_applies_matvec_to_each_column() {
    let m = sample_real();
    let batch = real_table(&arr2(&[[1.0, 0.0, 2.0], [1.0, -1.0, 0.5]]));
    let out = matmat_by_columns(&m, &batch);
    assert_eq!(out.nrows(), 3);
    assert_eq!(out.ncols(), 3);
    for j in 0..3 {
        assert_eq!(out.column(j), m.matvec(&batch.column(j)));
    }
    assert_eq!(
        out.into_rows(),
        vec![
            vec![Real(3.0), Real(-2.0), Real(3.0)],
            vec![Real(7.0), Real(-4.0), Real(8.0)],
            vec![Real(11.0), Real(-6.0), Real(13.0)],
        ]
    );
}

#[test]
fn matmat_by_columns_of_a_single_column() {
    let m = sample_real();
    let batch = real_table(&arr2(&[[1.0], [1.0]]));
    let out = matmat_by_columns(&m, &batch);
    assert_eq!(out.into_rows(), vec![vec![Real(3.0)], vec![Real(7.0)], vec![Real(11.0)]]);
}

#[test]
fn matmat_by_columns_of_no_columns() {
    let m = sample_real();
    let batch: Table<Real> = Table::from_rows(0, vec![vec![], vec![]]).unwrap();
    let out = matmat_by_columns(&m, &batch);
    assert_eq!(out.nrows(), 3);
    assert_eq!(out.ncols(), 0);
    let direct = m.matmat(&batch);
    assert_eq!(direct.nrows(), 3);
    assert_eq!(direct.ncols(), 0);
}

#[test]
fn dense_matmat_agrees_with_the_derivation_by_columns() {
    let m = sample_complex();
    let batch = complex_table(
        3,
        vec![
            vec![c(1.0, 0.0), c(0.0, 1.0), c(2.0, -1.0)],
            vec![c(0.0, 0.0), c(1.0, 1.0), c(-1.0, 0.5)],
        ],
    );
    let direct = m.matmat(&batch);
    let derived = matmat_by_columns(&m, &batch);
    assert_eq!(direct, derived);
    assert_eq!(direct, mat_mat(&m, &batch));
    for j in 0..3 {
        assert_eq!(direct.column(j), m.matvec(&batch.column(j)));
    }
}

#[test]
fn conj_matmat_by_columns_applies_conj_matvec_to_each_column() {
    let m = sample_complex();
    let batch = complex_table(
        2,
        vec![vec![c(1.0, 1.0), c(0.0, 1.0)], vec![c(2.0, -1.0), c(1.0, 0.0)]],
    );
    let out = conj_matmat_by_columns(&m, &batch);
    assert_eq!(out.nrows(), 2);
    assert_eq!(out.ncols(), 2);
    for j in 0..2 {
        assert_eq!(out.column(j), m.conj_matvec(&batch.column(j)));
    }
    assert_eq!(out.column(0), vec![c(-1.0, -6.0), c(11.0, 0.0)]);
}

#[test]
fn dense_conj_matmat_agrees_with_the_derivation_by_columns() {
    let m = sample_complex();
    let batch = complex_table(
        3,
        vec![
            vec![c(1.0, 1.0), c(0.0, 1.0), c(0.0, 0.0)],
            vec![c(2.0, -1.0), c(1.0, 0.0), c(-3.0, 2.0)],
        ],
    );
    let direct = m.conj_matmat(&batch);
    let derived = conj_matmat_by_columns(&m, &batch);
    assert_eq!(direct, derived);
    let by_steps = conj_table(&mat_mat(&m.transpose(), &conj_table(&batch)));
    assert_eq!(direct, by_steps);
}

#[test]
fn conj_matmat_of_a_tall_operator_has_as_many_rows_as_the_operator_has_columns() {
    let m = sample_real();
    let batch = real_table(&arr2(&[[1.0, 0.0], [0.0, 1.0], [1.0, 1.0]]));
    let direct = m.conj_matmat(&batch);
    assert_eq!(direct.nrows(), 2);
    assert_eq!(direct.ncols(), 2);
    assert_eq!(
        direct.into_rows(),
        vec![vec![Real(6.0), Real(8.0)], vec![Real(8.0), Real(10.0)]]
    );
    let derived = conj_matmat_by_columns(&m, &batch);
    assert_eq!(derived.nrows(), 2);
    assert_eq!(derived.column(1), vec![Real(8.0), Real(10.0)]);
}

#[test]
fn conj_matmat_of_no_columns() {
    let m = sample_real();
    let batch: Table<Real> = Table::from_rows(0, vec![vec![], vec![], vec![]]).unwrap();
    let direct = m.conj_matmat(&batch);
    assert_eq!(direct.nrows(), 2);
    assert_eq!(direct.ncols(), 0);
    let derived = conj_matmat_by_columns(&m, &batch);
    assert_eq!(derived.nrows(), 2);
    assert_eq!(derived.ncols(), 0);
}

#[test]
fn operator_without_columns_maps_the_empty_vector_to_zeros() {
    let m: Table<Real> = Table::from_rows(0, vec![vec![], vec![]]).unwrap();
    assert_eq!(m.matvec(&Vec::new()), vec![Real(0.0), Real(0.0)]);
    assert_eq!(m.conj_matvec(&vec![Real(1.0), Real(2.0)]), Vec::new());
}

#[test]
fn operator_without_rows_maps_to_the_empty_vector() {
    let m: Table<Real> = Table::from_rows(2, Vec::new()).unwrap();
    assert_eq!(m.matvec(&vec![Real(1.0), Real(2.0)]), Vec::new());
    assert_eq!(m.conj_matvec(&Vec::new()), vec![Real(0.0), Real(0.0)]);
}

#[test]
fn dot_sums_the_products_from_zero() {
    let x = vec![Real(1.0), Real(2.0), Real(3.0)];
    let y = vec![Real(4.0), Real(-5.0), Real(6.0)];
    assert_eq!(dot(&x, &y), Real(12.0));
    assert_eq!(dot::<Real>(&Vec::new(), &Vec::new()), Real(0.0));
}

#[test]
fn dot_does_not_conjugate() {
    let x = vec![c(0.0, 1.0)];
    let y = vec![c(0.0, 1.0)];
    assert_eq!(dot(&x, &y), c(-1.0, 0.0));
}

#[test]
fn dot_adds_in_increasing_order() {
    // In double precision 1e16 + 1 is 1e16, so the order of the sum shows
    // in the result.
    let big = 1.0e16;
    let ones = vec![Real(1.0), Real(1.0), Real(1.0)];
    assert_eq!(dot(&vec![Real(big), Real(1.0), Real(-big)], &ones), Real(0.0));
    assert_eq!(dot(&vec![Real(big), Real(-big), Real(1.0)], &ones), Real(1.0));
}

#[test]
fn mat_vec_multiplies_the_matrix_entry_from_the_left() {
    /// Words under concatenation: a product that does not commute.
    #[derive(Clone, Copy, Debug, PartialEq)]
    struct Pair(u32, u32);

    impl Scalar for Pair {
        fn zero() -> Self {
            Pair(0, 0)
        }

        fn add(self, rhs: Self) -> Self {
            Pair(self.0 + rhs.0, self.1 + rhs.1)
        }

        fn mul(self, rhs: Self) -> Self {
            Pair(self.0, rhs.1)
        }

        fn conj(self) -> Self {
            Pair(self.1, self.0)
        }
    }

    let m = Table::from_rows(1, vec![vec![Pair(1, 2)]]).unwrap();
    assert_eq!(mat_vec(&m, &vec![Pair(3, 4)]), vec![Pair(1, 4)]);
    assert_eq!(conj_vec(&vec![Pair(3, 4)]), vec![Pair(4, 3)]);
}

#[test]
fn conj_vec_and_conj_table_conjugate_each_entry() {
    assert_eq!(conj_vec(&vec![c(1.0, 2.0), c(0.0, -1.0)]), vec![c(1.0, -2.0), c(0.0, 1.0)]);
    let t = conj_table(&sample_complex());
    assert_eq!(
        t.into_rows(),
        vec![vec![c(1.0, -1.0), c(2.0, 0.0)], vec![c(0.0, -3.0), c(4.0, 1.0)]]
    );
    assert_eq!(conj_vec(&vec![Real(2.5)]), vec![Real(2.5)]);
}

#[test]
fn mat_mat_of_two_by_two() {
    let a = real_table(&arr2(&[[1.0, 2.0], [3.0, 4.0]]));
    let b = real_table(&arr2(&[[0.0, 1.0], [1.0, 0.0]]));
    assert_eq!(
        mat_mat(&a, &b).into_rows(),
        vec![vec![Real(2.0), Real(1.0)], vec![Real(4.0), Real(3.0)]]
    );
}
