use raytracer::matrix::{cofactor_negated, Matrix2x2, Matrix3x3, Matrix4x4};

fn mat4(rows: [[f64; 4]; 4]) -> Matrix4x4<f64> {
    let r = rows;
    Matrix4x4::new(
        r[0][0], r[0][1], r[0][2], r[0][3], r[1][0], r[1][1], r[1][2], r[1][3], r[2][0], r[2][1],
        r[2][2], r[2][3], r[3][0], r[3][1], r[3][2], r[3][3],
    )
}

fn mat3(rows: [[f64; 3]; 3]) -> Matrix3x3<f64> {
    let r = rows;
    Matrix3x3::new(
        r[0][0], r[0][1], r[0][2], r[1][0], r[1][1], r[1][2], r[2][0], r[2][1], r[2][2],
    )
}

fn mat2(rows: [[f64; 2]; 2]) -> Matrix2x2<f64> {
    Matrix2x2::new(rows[0][0], rows[0][1], rows[1][0], rows[1][1])
}

#[test]
fn a_4x4_matrix() {
    let m = mat4([
        [1.0, 2.0, 3.0, 4.0],
        [5.5, 6.5, 7.5, 8.5],
        [9.0, 10.0, 11.0, 12.0],
        [13.5, 14.5, 15.5, 16.5],
    ]);
    assert_eq!(m.get(0, 0), 1.0);
    assert_eq!(m.get(0, 3), 4.0);
    assert_eq!(m.get(1, 0), 5.5);
    assert_eq!(m.get(1, 2), 7.5);
    assert_eq!(m.get(2, 2), 11.0);
    assert_eq!(m.get(3, 0), 13.5);
    assert_eq!(m.get(3, 2), 15.5);
}

#[test]
fn a_2x2_matrix() {
    let m = mat2([[-3.0, 5.0], [1.0, -2.0]]);
    assert_eq!(m.get(0, 0), -3.0);
    assert_eq!(m.get(0, 1), 5.0);
    assert_eq!(m.get(1, 0), 1.0);
    assert_eq!(m.get(1, 1), -2.0);
}

#[test]
fn a_3x3_matrix() {
    let m = mat3([[-3.0, 5.0, 0.0], [1.0, -2.0, -7.0], [0.0, 1.0, 1.0]]);
    assert_eq!(m.get(0, 0), -3.0);
    assert_eq!(m.get(1, 1), -2.0);
    assert_eq!(m.get(2, 2), 1.0);
}

#[test]
fn transposing_matrices() {
    let a = mat4([
        [0.0, 9.0, 3.0, 0.0],
        [9.0, 8.0, 0.0, 8.0],
        [1.0, 8.0, 5.0, 3.0],
        [0.0, 0.0, 5.0, 8.0],
    ]);
    assert_eq!(
        a.transpose(),
        mat4([
            [0.0, 9.0, 1.0, 0.0],
            [9.0, 8.0, 8.0, 0.0],
            [3.0, 0.0, 5.0, 5.0],
            [0.0, 8.0, 3.0, 8.0],
        ])
    )
}

#[test]
fn transpose_identity() {
    let a = mat4([
        [1.0, 0.0, 0.0, 0.0],
        [0.0, 1.0, 0.0, 0.0],
        [0.0, 0.0, 1.0, 0.0],
        [0.0, 0.0, 0.0, 1.0],
    ]);
    assert_eq!(a.transpose(), a);
}

#[test]
fn submatrix_3x3() {
    let a = mat3([[1.0, 5.0, 0.0], [-3.0, 2.0, 7.0], [0.0, 6.0, -3.0]]);
    assert_eq!(a.submatrix(0, 2), mat2([[-3.0, 2.0], [0.0, 6.0]]));
}

#[test]
fn submatrix_4x4() {
    let a = mat4([
        [-6.0, 1.0, 1.0, 6.0],
        [-8.0, 5.0, 8.0, 6.0],
        [-1.0, 0.0, 8.0, 2.0],
        [-7.0, 1.0, -1.0, 1.0],
    ]);
    assert_eq!(
        a.submatrix(2, 1),
        mat3([[-6.0, 1.0, 6.0], [-8.0, 8.0, 6.0], [-7.0, -1.0, 1.0]])
    );
}

#[test]
fn transposing_3x3_and_2x2() {
    let a = mat3([[1.0, 2.0, 3.0], [4.0, 5.0, 6.0], [7.0, 8.0, 9.0]]);
    assert_eq!(a.transpose(), mat3([[1.0, 4.0, 7.0], [2.0, 5.0, 8.0], [3.0, 6.0, 9.0]]));
    let b = mat2([[1.0, 2.0], [3.0, 4.0]]);
    assert_eq!(b.transpose(), mat2([[1.0, 3.0], [2.0, 4.0]]));
}

#[test]
fn transposing_twice_gives_the_matrix_back() {
    let a = mat4([
        [3.0, -9.0, 7.0, 2.0],
        [3.0, -8.0, 2.0, -9.0],
        [-4.0, 4.0, 4.0, 1.0],
        [-6.0, 5.0, -1.0, 1.0],
    ]);
    assert_eq!(a.transpose().transpose(), a);
    assert_ne!(a.transpose(), a);
}

#[test]
fn submatrix_of_transpose_is_transposed_submatrix() {
    let a = mat4([
        [-5.0, 2.0, 6.0, -8.0],
        [1.0, -5.0, 1.0, 8.0],
        [7.0, 7.0, -6.0, -7.0],
        [1.0, -3.0, 7.0, 4.0],
    ]);
    for row in 0..4 {
        for col in 0..4 {
            assert_eq!(
                a.transpose().submatrix(col, row),
                a.submatrix(row, col).transpose()
            );
        }
    }
    let b = mat3([[3.0, 5.0, 0.0], [2.0, -1.0, -7.0], [6.0, -1.0, 5.0]]);
    assert_eq!(b.submatrix(1, 0), mat2([[5.0, 0.0], [-1.0, 5.0]]));
    assert_eq!(b.transpose().submatrix(0, 1), b.submatrix(1, 0).transpose());
}

#[test]
fn setting_an_entry() {
    let mut a = mat2([[1.0, 2.0], [3.0, 4.0]]);
    a.set(1, 0, 7.5);
    assert_eq!(a, mat2([[1.0, 2.0], [7.5, 4.0]]));
    let mut b = mat4([[0.0; 4]; 4]);
    b.set(2, 3, -1.0);
    assert_eq!(b.get(2, 3), -1.0);
    assert_eq!(b.get(3, 2), 0.0);
    let mut c = mat3([[0.0; 3]; 3]);
    c.set(0, 2, 4.0);
    assert_eq!(c.get(0, 2), 4.0);
    assert_eq!(c.get(2, 0), 0.0);
}

fn dot4(a: [f64; 4], b: [f64; 4]) -> f64 {
    a[0] * b[0] + a[1] * b[1] + a[2] * b[2] + a[3] * b[3]
}

fn identity() -> Matrix4x4<f64> {
    Matrix4x4::from_fn(|r, c| if r == c { 1.0 } else { 0.0 })
}

#[test]
fn mul_matrices() {
    let a = mat4([
        [1.0, 2.0, 3.0, 4.0],
        [5.0, 6.0, 7.0, 8.0],
        [9.0, 8.0, 7.0, 6.0],
        [5.0, 4.0, 3.0, 2.0],
    ]);
    let b = mat4([
        [-2.0, 1.0, 2.0, 3.0],
        [3.0, 2.0, 1.0, -1.0],
        [4.0, 3.0, 6.0, 5.0],
        [1.0, 2.0, 7.0, 8.0],
    ]);
    assert_eq!(
        a.product_with(&b, dot4),
        mat4([
            [20.0, 22.0, 50.0, 48.0],
            [44.0, 54.0, 114.0, 108.0],
            [40.0, 58.0, 110.0, 102.0],
            [16.0, 26.0, 46.0, 42.0],
        ])
    );
}

#[test]
fn mul_matrix_tuple() {
    let a = mat4([
        [1.0, 2.0, 3.0, 4.0],
        [2.0, 4.0, 4.0, 2.0],
        [8.0, 6.0, 4.0, 1.0],
        [0.0, 0.0, 0.0, 1.0],
    ]);
    assert_eq!(a.apply_with([1.0, 2.0, 3.0, 1.0], dot4), [18.0, 24.0, 33.0, 1.0]);
}

#[test]
fn identity_matrix() {
    let a = mat4([
        [0.0, 1.0, 2.0, 4.0],
        [1.0, 2.0, 4.0, 8.0],
        [2.0, 4.0, 8.0, 16.0],
        [4.0, 8.0, 16.0, 32.0],
    ]);
    assert_eq!(a.product_with(&identity(), dot4), a);
}

#[test]
fn identity_matrix_tuple() {
    let a = [1.0, 2.0, 3.0, 4.0];
    assert_eq!(identity().apply_with(a, dot4), a);
}

#[test]
fn product_order_matters() {
    let a = mat4([
        [1.0, 2.0, 0.0, 0.0],
        [0.0, 1.0, 0.0, 0.0],
        [0.0, 0.0, 1.0, 0.0],
        [0.0, 0.0, 0.0, 1.0],
    ]);
    let b = a.transpose();
    assert_ne!(a.product_with(&b, dot4), b.product_with(&a, dot4));
    assert_eq!(
        a.product_with(&b, dot4).transpose(),
        b.transpose().product_with(&a.transpose(), dot4)
    );
}

#[test]
fn rows_and_columns() {
    let a = mat4([
        [1.0, 2.0, 3.0, 4.0],
        [5.0, 6.0, 7.0, 8.0],
        [9.0, 10.0, 11.0, 12.0],
        [13.0, 14.0, 15.0, 16.0],
    ]);
    assert_eq!(a.row(1), [5.0, 6.0, 7.0, 8.0]);
    assert_eq!(a.column(2), [3.0, 7.0, 11.0, 15.0]);
    assert_eq!(a.transpose().row(2), a.column(2));
}

#[test]
fn matrix_from_entry_function() {
    let m = Matrix4x4::from_fn(|r, c| (10 * r + c) as f64);
    assert_eq!(m.get(0, 0), 0.0);
    assert_eq!(m.get(1, 3), 13.0);
    assert_eq!(m.get(3, 1), 31.0);
}

#[test]
fn inverse_layout_transposes_cofactors() {
    // Entries (2, 3) = -160 and (3, 2) = 105 are cofactors of a matrix whose
    // determinant is 532; the other entries only mark their places.
    let cofactors = mat4([
        [116.0, -430.0, -42.0, -278.0],
        [240.0, -775.0, -119.0, -433.0],
        [128.0, -236.0, -28.0, -160.0],
        [-24.0, 277.0, 105.0, 163.0],
    ]);
    let inv = Matrix4x4::inverse_layout(|r, c| cofactors.get(r, c) / 532.0);
    assert_eq!(inv.get(3, 2), -160.0 / 532.0);
    assert_eq!(inv.get(2, 3), 105.0 / 532.0);
    assert_eq!(inv.get(0, 1), 240.0 / 532.0);
    assert_eq!(inv.get(1, 0), -430.0 / 532.0);
}

#[test]
fn cofactor_signs() {
    assert!(!cofactor_negated(0, 0));
    assert!(cofactor_negated(1, 0));
    assert!(cofactor_negated(0, 3));
    assert!(!cofactor_negated(2, 2));
    assert!(!cofactor_negated(3, 1));
    for r in 0..4 {
        for c in 0..4 {
            assert_eq!(cofactor_negated(r, c), cofactor_negated(c, r));
        }
    }
}
