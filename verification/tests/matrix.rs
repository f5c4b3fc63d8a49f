use peppaint::Mat4;
use peppaint::Vec4;

fn counted() -> Mat4<i32> {
    Mat4(Vec4(11, 12, 13, 14), Vec4(21, 22, 23, 24), Vec4(31, 32, 33, 34), Vec4(41, 42, 43, 44))
}

#[test]
fn transpose_turns_rows_into_columns() {
    let t = Mat4::transpose(&counted());
    assert_eq!(
        t,
        Mat4(Vec4(11, 21, 31, 41), Vec4(12, 22, 32, 42), Vec4(13, 23, 33, 43), Vec4(14, 24, 34, 44))
    );
    assert_eq!(Mat4::transpose(&t), counted());
    let mut m = counted();
    m.transpose_me();
    assert_eq!(m, t);
    m.transpose_me();
    assert_eq!(m, counted());
}

#[test]
fn the_identity_has_ones_on_the_diagonal() {
    let m: Mat4<f32> = Mat4::identity(0.0, 1.0);
    assert_eq!(
        m,
        Mat4(
            Vec4(1.0, 0.0, 0.0, 0.0),
            Vec4(0.0, 1.0, 0.0, 0.0),
            Vec4(0.0, 0.0, 1.0, 0.0),
            Vec4(0.0, 0.0, 0.0, 1.0)
        )
    );
    assert_eq!(Mat4::transpose(&m), m);
}

#[test]
fn scale_and_translate_put_their_numbers_in_place() {
    let s: Mat4<f32> = Mat4::scale(2.0, 3.0, 4.0, 0.0, 1.0);
    assert_eq!(
        s,
        Mat4(
            Vec4(2.0, 0.0, 0.0, 0.0),
            Vec4(0.0, 3.0, 0.0, 0.0),
            Vec4(0.0, 0.0, 4.0, 0.0),
            Vec4(0.0, 0.0, 0.0, 1.0)
        )
    );
    let t: Mat4<f32> = Mat4::translate(5.0, 6.0, 7.0, 0.0, 1.0);
    assert_eq!(
        t,
        Mat4(
            Vec4(1.0, 0.0, 0.0, 5.0),
            Vec4(0.0, 1.0, 0.0, 6.0),
            Vec4(0.0, 0.0, 1.0, 7.0),
            Vec4(0.0, 0.0, 0.0, 1.0)
        )
    );
    assert_eq!(Mat4::transpose(&t).3, Vec4(5.0, 6.0, 7.0, 1.0));
}
