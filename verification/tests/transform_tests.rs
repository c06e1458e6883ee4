use tpixel::fixed::FP_ONE;
use tpixel::matrix3x2::Matrix3x2;
use tpixel::vector2::Vector2;

const QUARTER_COS: i32 = 0; // cos of a quarter turn
const QUARTER_SIN: i32 = FP_ONE; // sin of a quarter turn

#[test]
fn identity_matrix() {
    let m = Matrix3x2::new();
    assert_eq!((m.m00, m.m01, m.m10, m.m11, m.m20, m.m21), (FP_ONE, 0, 0, FP_ONE, 0, 0));
}

#[test]
fn translation_matrix() {
    let m = Matrix3x2::new_translation(Vector2 { x: 5 * FP_ONE, y: -3 * FP_ONE });
    assert_eq!((m.m00, m.m01, m.m10, m.m11), (FP_ONE, 0, 0, FP_ONE));
    assert_eq!((m.m20, m.m21), (5 * FP_ONE, -3 * FP_ONE));
}

#[test]
fn scale_matrix() {
    let m = Matrix3x2::new_scale(Vector2 { x: 2 * FP_ONE, y: 3 * FP_ONE });
    assert_eq!((m.m00, m.m01, m.m10, m.m11, m.m20, m.m21), (2 * FP_ONE, 0, 0, 3 * FP_ONE, 0, 0));
}

#[test]
fn transform_matrix_quarter_turn() {
    let m = Matrix3x2::new_transform(
        Vector2 { x: 7 * FP_ONE, y: 8 * FP_ONE },
        Vector2 { x: FP_ONE, y: FP_ONE },
        QUARTER_COS,
        QUARTER_SIN,
    );
    assert_eq!((m.m00, m.m01), (0, FP_ONE));
    assert_eq!((m.m10, m.m11), (-FP_ONE, 0));
    assert_eq!((m.m20, m.m21), (7 * FP_ONE, 8 * FP_ONE));
}

#[test]
fn rotation_block_mirrors_first_column() {
    // new_rotation fills [c, s; -c, s], unlike new_transform's [c, s; -s, c].
    let m = Matrix3x2::new_rotation(3, 4);
    assert_eq!((m.m00, m.m01, m.m10, m.m11, m.m20, m.m21), (3, 4, -3, 4, 0, 0));
}

#[test]
fn translate_adds_to_translation_row_only() {
    let mut m = Matrix3x2::new();
    m.translate(Vector2 { x: FP_ONE, y: 2 * FP_ONE });
    m.translate(Vector2 { x: FP_ONE, y: 0 });
    assert_eq!((m.m00, m.m01, m.m10, m.m11), (FP_ONE, 0, 0, FP_ONE));
    assert_eq!((m.m20, m.m21), (2 * FP_ONE, 2 * FP_ONE));
    let p = m.get_position();
    assert_eq!((p.x, p.y), (2 * FP_ONE, 2 * FP_ONE));
}

#[test]
fn rotate_turns_rotation_block_and_keeps_position() {
    let mut m = Matrix3x2::new();
    m.translate(Vector2 { x: FP_ONE, y: 0 });
    m.rotate(QUARTER_COS, QUARTER_SIN);
    assert_eq!((m.m00, m.m01), (0, FP_ONE));
    assert_eq!((m.m10, m.m11), (-FP_ONE, 0));
    assert_eq!((m.m20, m.m21), (FP_ONE, 0));
}

#[test]
fn translate_and_rotate_commute_under_this_convention() {
    // Rotation composes on the left and touches only the rotation block;
    // translation composes on the right and touches only the translation
    // row. The two orders therefore give the same transform.
    let mut a = Matrix3x2::new();
    a.translate(Vector2 { x: FP_ONE, y: 0 });
    a.rotate(QUARTER_COS, QUARTER_SIN);

    let mut b = Matrix3x2::new();
    b.rotate(QUARTER_COS, QUARTER_SIN);
    b.translate(Vector2 { x: FP_ONE, y: 0 });

    assert_eq!(a, b);
}

#[test]
fn inverse_transposes_rotation_and_reapplies_translation() {
    let mut m = Matrix3x2::new();
    m.rotate(QUARTER_COS, QUARTER_SIN);
    m.translate(Vector2 { x: 2 * FP_ONE, y: 3 * FP_ONE });
    let inv = m.inverse();
    // The rotation block comes back transposed.
    assert_eq!((inv.m00, inv.m01), (0, -FP_ONE));
    assert_eq!((inv.m10, inv.m11), (FP_ONE, 0));
    // The translation is negated and pushed through the transposed block.
    assert_eq!((inv.m20, inv.m21), (-3 * FP_ONE, 2 * FP_ONE));
}

#[test]
fn inverse_ignores_scale() {
    // The documented approximation: a scaled transform does not get its
    // scale inverted, only transposed rotation and re-applied translation.
    let m = Matrix3x2::new_scale(Vector2 { x: 2 * FP_ONE, y: 2 * FP_ONE });
    let inv = m.inverse();
    assert_eq!((inv.m00, inv.m11), (2 * FP_ONE, 2 * FP_ONE));
}
