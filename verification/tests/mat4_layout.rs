use blueprint::mat4::{cofactor_keeps_sign, minor, Mat4};

fn w(x: f32) -> u32 {
    x.to_bits()
}

fn words(a: [f32; 16]) -> [u32; 16] {
    a.map(|x| x.to_bits())
}

fn counting() -> [u32; 16] {
    let mut a = [0u32; 16];
    for i in 0..16 {
        a[i] = i as u32;
    }
    a
}

#[test]
fn mat4_transpose() {
    let o = Mat4::transpose(&words([
        1.0, 2.0, 3.0, 4.0, 5.0, 6.0, 7.0, 8.0, 9.0, 3.0, 2.0, 4.0, 0.0, 1.0, 2.0, 5.0,
    ]));
    let ans: [f32; 16] =
        [1.0, 5.0, 9.0, 0.0, 2.0, 6.0, 3.0, 1.0, 3.0, 7.0, 2.0, 2.0, 4.0, 8.0, 4.0, 5.0];
    assert_eq!(o.map(f32::from_bits), ans);
}

#[test]
fn lin_alg_mat4_transpose() {
    let o = Mat4::transpose(&words([
        1.0, 2.0, 3.0, 4.0, 5.0, 6.0, 7.0, 8.0, 9.0, 3.0, 2.0, 4.0, 0.0, 1.0, 2.0, 5.0,
    ]));
    let ans: [f32; 16] =
        [1.0, 5.0, 9.0, 0.0, 2.0, 6.0, 3.0, 1.0, 3.0, 7.0, 2.0, 2.0, 4.0, 8.0, 4.0, 5.0];
    assert_eq!(o, words(ans));
}

#[test]
fn transpose_twice_is_identity_map() {
    let a = counting();
    assert_eq!(Mat4::transpose(&Mat4::transpose(&a)), a);
}

#[test]
fn row_major_and_col_major() {
    let a = counting();
    let m = Mat4::from_row_major(a);
    assert_eq!((m.a00, m.a01, m.a10, m.a23, m.a33), (0, 1, 4, 11, 15));
    assert_eq!(m.as_row_major_array(), a);
    assert_eq!(m.as_col_major_array(), Mat4::transpose(&a));
    assert_eq!(m.as_array(), m.as_col_major_array());
    let c = Mat4::from_col_major(a);
    assert_eq!((c.a00, c.a01, c.a10, c.a23, c.a33), (0, 4, 1, 14, 15));
    assert_eq!(c.as_col_major_array(), a);
    assert_eq!(Mat4::from_col_major(m.as_col_major_array()), m);
    assert_eq!(Mat4::from_row_major(m.as_row_major_array()), m);
}

#[test]
fn rows_cols_and_cells() {
    let m = Mat4::from_row_major(counting());
    assert_eq!(m.row(0), [0, 1, 2, 3]);
    assert_eq!(m.row(3), [12, 13, 14, 15]);
    assert_eq!(m.col(0), [0, 4, 8, 12]);
    assert_eq!(m.col(2), [2, 6, 10, 14]);
    for r in 0..4 {
        for c in 0..4 {
            assert_eq!(m.cell(r, c), (4 * r + c) as u32);
        }
    }
}

#[test]
fn updates_touch_only_what_they_name() {
    let base = Mat4::from_row_major(counting());
    let mut m = base;
    m.update_row(1, [91, 92, 93, 94]);
    assert_eq!(
        m.as_row_major_array(),
        [0, 1, 2, 3, 91, 92, 93, 94, 8, 9, 10, 11, 12, 13, 14, 15]
    );
    let mut m = base;
    m.update_col(3, [91, 92, 93, 94]);
    assert_eq!(
        m.as_row_major_array(),
        [0, 1, 2, 91, 4, 5, 6, 92, 8, 9, 10, 93, 12, 13, 14, 94]
    );
    let mut m = base;
    m.update_cell(2, 1, 77);
    assert_eq!(m.as_row_major_array(), [0, 1, 2, 3, 4, 5, 6, 7, 8, 77, 10, 11, 12, 13, 14, 15]);
    let mut m = base;
    m.update_row(4, [1, 1, 1, 1]);
    m.update_col(9, [1, 1, 1, 1]);
    m.update_cell(4, 0, 1);
    m.update_cell(0, 4, 1);
    assert_eq!(m, base);
}

#[test]
fn identity_translate_scale() {
    let i = Mat4::identity();
    assert_eq!(
        i.as_col_major_array().map(f32::from_bits),
        [1.0, 0.0, 0.0, 0.0, 0.0, 1.0, 0.0, 0.0, 0.0, 0.0, 1.0, 0.0, 0.0, 0.0, 0.0, 1.0]
    );
    assert_eq!(
        Mat4::translate(w(10.0), w(20.0), w(30.0)).map(f32::from_bits),
        [1.0, 0.0, 0.0, 0.0, 0.0, 1.0, 0.0, 0.0, 0.0, 0.0, 1.0, 0.0, 10.0, 20.0, 30.0, 1.0]
    );
    assert_eq!(
        Mat4::scale(w(2.0), w(3.0), w(4.0)).map(f32::from_bits),
        [2.0, 0.0, 0.0, 0.0, 0.0, 3.0, 0.0, 0.0, 0.0, 0.0, 4.0, 0.0, 0.0, 0.0, 0.0, 1.0]
    );
}

#[test]
fn minors_strike_one_row_and_one_column() {
    let m = counting();
    assert_eq!(minor(&m, 0, 0), [5, 6, 7, 9, 10, 11, 13, 14, 15]);
    assert_eq!(minor(&m, 3, 3), [0, 1, 2, 4, 5, 6, 8, 9, 10]);
    assert_eq!(minor(&m, 1, 2), [0, 1, 3, 8, 9, 11, 12, 13, 15]);
    assert_eq!(minor(&m, 2, 0), [1, 2, 3, 5, 6, 7, 13, 14, 15]);
    assert!(cofactor_keeps_sign(0, 0) && cofactor_keeps_sign(1, 3) && cofactor_keeps_sign(3, 3));
    assert!(!cofactor_keeps_sign(0, 1) && !cofactor_keeps_sign(2, 3));
}
