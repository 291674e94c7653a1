//! Raw-frame conversion: BGRA to NV12 through the colour-conversion
//! library.

use vd_driver::utils::bgra2nv12;

#[test]
fn nv12_conversion_shapes_and_values() {
    // A 2x2 white BGRA frame.
    let src = vec![255u8; 2 * 2 * 4];
    let buf = bgra2nv12(2, 2, &src).expect("convert");
    assert_eq!(buf.len(), 2 * 2 + 2);
    // Limited-range white: luma near 235, chroma neutral near 128.
    for y in &buf[0..4] {
        assert!((230..=240).contains(y));
    }
    for uv in &buf[4..6] {
        assert!((120..=136).contains(uv));
    }
}

#[test]
fn nv12_conversion_is_not_the_identity() {
    let black = vec![0u8; 2 * 2 * 4];
    let out = bgra2nv12(2, 2, &black).expect("convert");
    assert!(out[0] <= 20);
    let white = vec![255u8; 2 * 2 * 4];
    let lit = bgra2nv12(2, 2, &white).expect("convert");
    assert!(lit[0] > out[0]);
}

#[test]
fn nv12_conversion_rejects_odd_geometry() {
    // The NV12 layout has no home for odd rows or columns.
    let src = vec![0u8; 3 * 1 * 4];
    assert!(bgra2nv12(3, 1, &src).is_err());
}
