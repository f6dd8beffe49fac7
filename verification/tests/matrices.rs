use geom3d::inverse::MatrixError;
use geom3d::matrix::{mul_point_matrix, mul_vec_matrix, multiply, Matrix4};
use geom3d::{Point3, Tuple, Vec3};

fn assert_close(a: &Matrix4<f64>, b: &Matrix4<f64>, eps: f64) {
    for i in 0..4 {
        for j in 0..4 {
            assert!(
                (a[i][j] - b[i][j]).abs() < eps,
                "entry ({}, {}): {:?} against {:?}",
                i,
                j,
                a[i][j],
                b[i][j]
            );
        }
    }
}

fn identity() -> Matrix4<f64> {
    Matrix4::new(
        1.0, 0.0, 0.0, 0.0, 0.0, 1.0, 0.0, 0.0, 0.0, 0.0, 1.0, 0.0, 0.0, 0.0, 0.0, 1.0,
    )
}

fn entries<T: Copy>(m: &Matrix4<T>) -> Vec<T> {
    let mut out = Vec::new();
    for i in 0..4 {
        for j in 0..4 {
            out.push(m[i][j]);
        }
    }
    out
}

#[test]
fn create_matrix() {
    let m1 = Matrix4::<f64> {
        ..Default::default()
    };
    for i in 0..4 {
        for j in 0..4 {
            assert_eq!(m1[i][j], 0f64);
        }
    }

    let m2 = Matrix4::<f64>::new(
        1.0, 2.0, 3.0, 4.0, 5.0, 6.0, 7.0, 8.0, 9.0, 10.0, 11.0, 12.0, 13.0, 14.0, 15.0, 16.0,
    );
    assert_eq!(m2[0][0], 1.0);
    assert_eq!(m2[0][1], 2.0);
    assert_eq!(m2[0][2], 3.0);
    assert_eq!(m2[0][3], 4.0);
    assert_eq!(m2[1][0], 5.0);
    assert_eq!(m2[1][1], 6.0);
    assert_eq!(m2[1][2], 7.0);
    assert_eq!(m2[1][3], 8.0);
    assert_eq!(m2[2][0], 9.0);
    assert_eq!(m2[2][1], 10.0);
    assert_eq!(m2[2][2], 11.0);
    assert_eq!(m2[2][3], 12.0);
    assert_eq!(m2[3][0], 13.0);
    assert_eq!(m2[3][1], 14.0);
    assert_eq!(m2[3][2], 15.0);
    assert_eq!(m2[3][3], 16.0);
}

#[test]
fn multiply_matrieces() {
    let m1 = Matrix4::new(5, 7, 9, 10, 2, 3, 3, 8, 8, 10, 2, 3, 3, 3, 4, 8);
    let m2 = Matrix4::new(3, 10, 12, 18, 12, 1, 4, 9, 9, 10, 12, 2, 3, 12, 4, 10);
    let result = multiply(&m1, &m2);
    assert_eq!(result[0][0], 210);
    assert_eq!(result[0][1], 267);
    assert_eq!(result[0][2], 236);
    assert_eq!(result[0][3], 271);
    assert_eq!(result[1][0], 93);
    assert_eq!(result[1][1], 149);
    assert_eq!(result[1][2], 104);
    assert_eq!(result[1][3], 149);
    assert_eq!(result[2][0], 171);
    assert_eq!(result[2][1], 146);
    assert_eq!(result[2][2], 172);
    assert_eq!(result[2][3], 268);
    assert_eq!(result[3][0], 105);
    assert_eq!(result[3][1], 169);
    assert_eq!(result[3][2], 128);
    assert_eq!(result[3][3], 169);

    let result = m1 * m2;
    assert_eq!(result[0][0], 210);
    assert_eq!(result[0][1], 267);
    assert_eq!(result[0][2], 236);
    assert_eq!(result[0][3], 271);
    assert_eq!(result[1][0], 93);
    assert_eq!(result[1][1], 149);
    assert_eq!(result[1][2], 104);
    assert_eq!(result[1][3], 149);
    assert_eq!(result[2][0], 171);
    assert_eq!(result[2][1], 146);
    assert_eq!(result[2][2], 172);
    assert_eq!(result[2][3], 268);
    assert_eq!(result[3][0], 105);
    assert_eq!(result[3][1], 169);
    assert_eq!(result[3][2], 128);
    assert_eq!(result[3][3], 169);
}

#[test]
fn transpose_test() {
    let mut m = Matrix4::new(5, 7, 9, 10, 2, 3, 3, 8, 8, 10, 2, 3, 3, 3, 4, 8);
    m.transpose();
    assert_eq!(m[0][0], 5);
    assert_eq!(m[0][1], 2);
    assert_eq!(m[0][2], 8);
    assert_eq!(m[0][3], 3);
    assert_eq!(m[1][0], 7);
    assert_eq!(m[1][1], 3);
    assert_eq!(m[1][2], 10);
    assert_eq!(m[1][3], 3);
    assert_eq!(m[2][0], 9);
    assert_eq!(m[2][1], 3);
    assert_eq!(m[2][2], 2);
    assert_eq!(m[2][3], 4);
    assert_eq!(m[3][0], 10);
    assert_eq!(m[3][1], 8);
    assert_eq!(m[3][2], 3);
    assert_eq!(m[3][3], 8);

    let transposed = m.transposed();
    assert_eq!(transposed[0][0], 5);
    assert_eq!(transposed[0][1], 7);
    assert_eq!(transposed[0][2], 9);
    assert_eq!(transposed[0][3], 10);
    assert_eq!(transposed[1][0], 2);
    assert_eq!(transposed[1][1], 3);
    assert_eq!(transposed[1][2], 3);
    assert_eq!(transposed[1][3], 8);
    assert_eq!(transposed[2][0], 8);
    assert_eq!(transposed[2][1], 10);
    assert_eq!(transposed[2][2], 2);
    assert_eq!(transposed[2][3], 3);
    assert_eq!(transposed[3][0], 3);
    assert_eq!(transposed[3][1], 3);
    assert_eq!(transposed[3][2], 4);
    assert_eq!(transposed[3][3], 8);
}

#[test]
fn zeros_and_row_assignment() {
    let mut m: Matrix4<i32> = Matrix4::zeros();
    assert_eq!(entries(&m), vec![0; 16]);
    m[1][2] = 5;
    m[3] = [1, 2, 3, 4];
    assert_eq!(
        entries(&m),
        vec![0, 0, 0, 0, 0, 0, 5, 0, 0, 0, 0, 0, 1, 2, 3, 4]
    );
}

#[test]
fn product_is_not_commutative() {
    let a = Matrix4::new(1, 2, 0, 0, 0, 1, 0, 0, 0, 0, 1, 0, 0, 0, 0, 1);
    let b = Matrix4::new(1, 0, 0, 0, 3, 1, 0, 0, 0, 0, 1, 0, 0, 0, 0, 1);
    let ab = multiply(&a, &b);
    let ba = multiply(&b, &a);
    assert_eq!(
        entries(&ab),
        vec![7, 2, 0, 0, 3, 1, 0, 0, 0, 0, 1, 0, 0, 0, 0, 1]
    );
    assert_eq!(
        entries(&ba),
        vec![1, 2, 0, 0, 3, 7, 0, 0, 0, 0, 1, 0, 0, 0, 0, 1]
    );
}

#[test]
fn product_is_associative() {
    let a = Matrix4::new(5i64, 7, 9, 10, 2, 3, 3, 8, 8, 10, 2, 3, 3, 3, 4, 8);
    let b = Matrix4::new(3i64, 10, 12, 18, 12, 1, 4, 9, 9, 10, 12, 2, 3, 12, 4, 10);
    let c = Matrix4::new(-1i64, 2, 0, 4, 6, -3, 5, 1, 0, 7, 2, -2, 9, 1, 1, 3);
    let left = multiply(&multiply(&a, &b), &c);
    let right = multiply(&a, &multiply(&b, &c));
    assert_eq!(entries(&left), entries(&right));

    let a = Matrix4::new(
        0.5, 1.25, -2.0, 3.1, 4.2, -0.7, 1.9, 0.3, 2.2, 8.1, -5.5, 0.9, 1.0, 0.1, 6.3, -4.4,
    );
    let b = Matrix4::new(
        1.5, -3.3, 0.8, 2.6, 0.4, 7.7, -1.2, 5.0, 9.1, 0.6, 3.4, -2.8, -6.2, 1.1, 0.2, 4.9,
    );
    let c = Matrix4::new(
        2.0, 0.3, -1.7, 4.4, 5.6, -8.2, 0.9, 1.3, -0.5, 6.1, 7.2, 0.0, 3.8, -2.9, 1.6, 0.7,
    );
    let left = multiply(&multiply(&a, &b), &c);
    let right = multiply(&a, &multiply(&b, &c));
    assert_close(&left, &right, 1e-9);
}

#[test]
fn transposing_twice_gives_the_matrix_back() {
    let m = Matrix4::new(
        1.5, -3.3, 0.8, 2.6, 0.4, 7.7, -1.2, 5.0, 9.1, 0.6, 3.4, -2.8, -6.2, 1.1, 0.2, 4.9,
    );
    let mut t = m.transposed();
    assert_eq!(t[0][1], 0.4);
    assert_eq!(t[3][0], 2.6);
    t.transpose();
    assert_eq!(entries(&t), entries(&m));
}

#[test]
fn transpose_keeps_a_symmetric_matrix() {
    let mut m = Matrix4::new(1, 2, 3, 4, 2, 5, 6, 7, 3, 6, 8, 9, 4, 7, 9, 10);
    m.transpose();
    assert_eq!(
        entries(&m),
        vec![1, 2, 3, 4, 2, 5, 6, 7, 3, 6, 8, 9, 4, 7, 9, 10]
    );
}

#[test]
fn identity_keeps_points_and_vectors() {
    let p: Point3<f64> = Point3::new(1.5, -2.25, 3.0);
    let q = mul_point_matrix(&p, &identity());
    assert_eq!((q.x, q.y, q.z), (1.5, -2.25, 3.0));

    let v: Vec3<f64> = Vec3::new(1.5, -2.25, 3.0);
    let w = mul_vec_matrix(&v, &identity());
    assert_eq!((w.x, w.y, w.z), (1.5, -2.25, 3.0));
}

#[test]
fn translation_moves_points_and_not_vectors() {
    let m = Matrix4::new(
        1.0, 0.0, 0.0, 0.0, 0.0, 1.0, 0.0, 0.0, 0.0, 0.0, 1.0, 0.0, 10.0, 20.0, 30.0, 1.0,
    );
    let p: Point3<f64> = Point3::new(1.0, 2.0, 3.0);
    let q = mul_point_matrix(&p, &m);
    assert_eq!((q.x, q.y, q.z), (11.0, 22.0, 33.0));

    let v: Vec3<f64> = Vec3::new(1.0, 2.0, 3.0);
    let w = mul_vec_matrix(&v, &m);
    assert_eq!((w.x, w.y, w.z), (1.0, 2.0, 3.0));
}

#[test]
fn point_transform_divides_by_w() {
    let m = Matrix4::new(
        2.0, 0.0, 0.0, 0.0, 0.0, 4.0, 0.0, 0.0, 0.0, 0.0, 6.0, 1.0, 0.0, 0.0, 0.0, 1.0,
    );
    let p: Point3<f64> = Point3::new(1.0, 1.0, 1.0);
    let q = mul_point_matrix(&p, &m);
    assert_eq!((q.x, q.y, q.z), (1.0, 2.0, 3.0));

    let m = Matrix4::new(1, 2, 3, 0, 4, 5, 6, 0, 7, 8, 9, 0, 1, 1, 1, 1);
    let v: Vec3<i32> = Vec3::new(1, 10, 100);
    let w = mul_vec_matrix(&v, &m);
    assert_eq!((w.x, w.y, w.z), (741, 852, 963));
    let p: Point3<i32> = Point3::new(1, 10, 100);
    let q = mul_point_matrix(&p, &m);
    assert_eq!((q.x, q.y, q.z), (742, 853, 964));
}

#[test]
fn point_transform_with_zero_w_is_not_finite() {
    let m = Matrix4::new(
        1.0, 0.0, 0.0, 0.0, 0.0, 1.0, 0.0, 0.0, 0.0, 0.0, 1.0, 0.0, 0.0, 0.0, 0.0, 0.0,
    );
    let p: Point3<f64> = Point3::new(1.0, -2.0, 0.0);
    let q = mul_point_matrix(&p, &m);
    assert_eq!(q.x, f64::INFINITY);
    assert_eq!(q.y, f64::NEG_INFINITY);
    assert!(q.z.is_nan());
}

#[test]
fn inverse_of_a_scaling_and_translation() {
    let mut m = Matrix4::new(
        2.0, 0.0, 0.0, 0.0, 0.0, 4.0, 0.0, 0.0, 0.0, 0.0, 8.0, 0.0, 2.0, 4.0, 8.0, 1.0,
    );
    assert_eq!(m.inverse(), Ok(()));
    assert_eq!(
        entries(&m),
        vec![
            0.5, 0.0, 0.0, 0.0, 0.0, 0.25, 0.0, 0.0, 0.0, 0.0, 0.125, 0.0, -1.0, -1.0, -1.0, 1.0
        ]
    );
}

#[test]
fn inverse_times_matrix_is_identity() {
    let values = [
        4.0, 7.0, 2.0, 3.0, 0.5, 5.0, 1.0, -2.0, 3.0, -1.0, 6.0, 2.5, 1.0, 2.0, -3.0, 8.0,
    ];
    let m = Matrix4::new(
        values[0], values[1], values[2], values[3], values[4], values[5], values[6], values[7],
        values[8], values[9], values[10], values[11], values[12], values[13], values[14],
        values[15],
    );
    let mut inv = Matrix4::new(
        values[0], values[1], values[2], values[3], values[4], values[5], values[6], values[7],
        values[8], values[9], values[10], values[11], values[12], values[13], values[14],
        values[15],
    );
    assert_eq!(inv.inverse(), Ok(()));
    assert_close(&multiply(&m, &inv), &identity(), 1e-9);
    assert_close(&multiply(&inv, &m), &identity(), 1e-9);
}

#[test]
fn inverse_of_the_identity_is_the_identity() {
    let mut m = identity();
    assert_eq!(m.inverse(), Ok(()));
    assert_eq!(entries(&m), entries(&identity()));

    let mut m = Matrix4::new(1i32, 0, 0, 0, 0, 1, 0, 0, 0, 0, 1, 0, 0, 0, 0, 1);
    assert_eq!(m.inverse(), Ok(()));
    assert_eq!(
        entries(&m),
        vec![1, 0, 0, 0, 0, 1, 0, 0, 0, 0, 1, 0, 0, 0, 0, 1]
    );
}

#[test]
fn inverse_in_single_precision() {
    let mut m = Matrix4::new(
        2.0f32, 0.0, 0.0, 0.0, 0.0, 2.0, 0.0, 0.0, 0.0, 0.0, 2.0, 0.0, 0.0, 0.0, 0.0, 2.0,
    );
    assert_eq!(m.inverse(), Ok(()));
    assert_eq!(
        entries(&m),
        vec![0.5f32, 0.0, 0.0, 0.0, 0.0, 0.5, 0.0, 0.0, 0.0, 0.0, 0.5, 0.0, 0.0, 0.0, 0.0, 0.5]
    );
}

#[test]
fn inverse_reports_a_zero_matrix() {
    let mut m: Matrix4<f64> = Matrix4::zeros();
    assert_eq!(m.inverse(), Err(MatrixError::Singular));
    assert_eq!(entries(&m), vec![0.0; 16]);
}

#[test]
fn inverse_reports_identical_rows() {
    let mut m = Matrix4::new(
        1.0, 2.0, 3.0, 4.0, 1.0, 2.0, 3.0, 4.0, 0.5, -1.0, 2.0, 7.0, 3.0, 0.0, 1.0, -2.0,
    );
    assert_eq!(m.inverse(), Err(MatrixError::Singular));
    assert_eq!(
        entries(&m),
        vec![1.0, 2.0, 3.0, 4.0, 1.0, 2.0, 3.0, 4.0, 0.5, -1.0, 2.0, 7.0, 3.0, 0.0, 1.0, -2.0]
    );

    let mut m = Matrix4::new(
        0.1, 0.7, 0.3, 0.9, 1.3, 2.9, 0.6, 1.1, 1.3, 2.9, 0.6, 1.1, 0.3, 0.2, 0.7, 0.4,
    );
    assert_eq!(m.inverse(), Err(MatrixError::Singular));
}

#[test]
fn inverse_reports_noise_for_a_determinant() {
    let mut m = Matrix4::new(
        1.0, 2.0, 3.0, 4.0, 5.0, 6.0, 7.0, 8.0, 9.0, 10.0, 11.0, 12.0, 13.0, 14.0, 15.0, 16.0,
    );
    assert_eq!(m.inverse(), Err(MatrixError::Singular));

    let mut m = Matrix4::new(
        1.0, 0.0, 0.0, 0.0, 0.0, 1.0, 0.0, 0.0, 0.0, 0.0, 1.0, 0.0, 0.0, 0.0, 0.0, f64::NAN,
    );
    assert_eq!(m.inverse(), Err(MatrixError::Singular));
}

#[test]
fn inverse_scales_with_the_entries() {
    let tiny: f64 = 1.0e-30;
    let mut m = Matrix4::new(
        tiny, 0.0, 0.0, 0.0, 0.0, tiny, 0.0, 0.0, 0.0, 0.0, tiny, 0.0, 0.0, 0.0, 0.0, tiny,
    );
    assert_eq!(m.inverse(), Ok(()));
    assert!((m[0][0] * tiny - 1.0).abs() < 1e-12);
    assert_eq!(m[0][1], 0.0);
}
