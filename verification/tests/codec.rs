//! Tests of the matrix codec: bit-exact flattening and its inverse.

use webgl_render::convert::{Mat4, flatten, unflatten, ONE_BITS};

fn sample_cols() -> Vec<Vec<u32>> {
    // Sixteen distinct bit patterns, including negative zero, an infinity
    // and a NaN payload: the codec must carry every pattern unchanged.
    vec![
        vec![
            1.5f32.to_bits(),
            (-0.0f32).to_bits(),
            f32::INFINITY.to_bits(),
            f32::NAN.to_bits() | 0x0000_1234,
        ],
        vec![
            2.0f32.to_bits(),
            3.25f32.to_bits(),
            (-7.5f32).to_bits(),
            0.0f32.to_bits(),
        ],
        vec![
            1e-40f32.to_bits(),
            f32::MIN.to_bits(),
            f32::MAX.to_bits(),
            (-1.0f32).to_bits(),
        ],
        vec![
            10.0f32.to_bits(),
            20.0f32.to_bits(),
            30.0f32.to_bits(),
            40.0f32.to_bits(),
        ],
    ]
}

#[test]
fn flatten_is_column_major() {
    let cols = sample_cols();
    let m = Mat4::from_cols(cols.clone());
    let flat = flatten(&m);
    assert_eq!(flat.len(), 16);
    for c in 0..4 {
        for r in 0..4 {
            assert_eq!(flat[4 * c + r], cols[c][r]);
        }
    }
}

#[test]
fn flatten_unflatten_round_trip_is_bit_exact() {
    let m = Mat4::from_cols(sample_cols());
    let flat = flatten(&m);
    let back = unflatten(&flat);
    let flat2 = flatten(&back);
    assert_eq!(flat, flat2);
}

#[test]
fn unflatten_flatten_round_trip_is_bit_exact() {
    let flat: Vec<u32> = (0u32..16).map(|i| (i as f32 + 0.5).to_bits()).collect();
    let m = unflatten(&flat);
    assert_eq!(flatten(&m), flat);
}

#[test]
fn identity_has_unit_diagonal() {
    let flat = flatten(&Mat4::identity());
    assert_eq!(ONE_BITS, 1.0f32.to_bits());
    for c in 0..4 {
        for r in 0..4 {
            let expected = if r == c { 1.0f32.to_bits() } else { 0.0f32.to_bits() };
            assert_eq!(flat[4 * c + r], expected);
        }
    }
}
