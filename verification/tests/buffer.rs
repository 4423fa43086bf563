use mupdf::error::Error;
use mupdf::{
    rust_slice_to_ffi_ptr, rust_vec_from_ffi_ptr, AssertSizeEquals, NativeQuad, Point, Quad,
};

fn sample_quads() -> Vec<Quad> {
    vec![
        Quad::new(
            Point::new(0, 1),
            Point::new(2, 3),
            Point::new(4, 5),
            Point::new(6, 7),
        ),
        Quad::new(
            Point::new(-8, -9),
            Point::new(10, -11),
            Point::new(-12, 13),
            Point::new(14, 15),
        ),
    ]
}

#[test]
fn test_quad_round_trip() {
    let quads = sample_quads();
    let (native, len) = rust_slice_to_ffi_ptr(&quads).unwrap();
    assert_eq!(len, 2);
    let back = rust_vec_from_ffi_ptr(Some(native), len).unwrap();
    assert_eq!(back, quads);
}

#[test]
fn test_native_layout_field_order() {
    let quads = sample_quads();
    let (native, _len) = rust_slice_to_ffi_ptr(&quads).unwrap();
    assert_eq!(native[0].ul_x, 0);
    assert_eq!(native[0].ul_y, 1);
    assert_eq!(native[0].ur_x, 2);
    assert_eq!(native[0].lr_y, 7);
    assert_eq!(native[1].ul_x, -8);
    assert_eq!(native[1].ll_y, 13);
}

#[test]
fn test_null_buffer_is_rejected() {
    let err = rust_vec_from_ffi_ptr(None, 0).unwrap_err();
    assert_eq!(err, Error::UnexpectedNullPtr);
}

#[test]
fn test_negative_length_is_rejected() {
    let native: Vec<NativeQuad> = Vec::new();
    let err = rust_vec_from_ffi_ptr(Some(native), -1).unwrap_err();
    assert_eq!(err, Error::NumericConversion);
}

#[test]
fn test_empty_buffer_round_trip() {
    let quads: Vec<Quad> = Vec::new();
    let (native, len) = rust_slice_to_ffi_ptr(&quads).unwrap();
    assert_eq!(len, 0);
    let back = rust_vec_from_ffi_ptr(Some(native), len).unwrap();
    assert!(back.is_empty());
}

#[test]
fn test_quad_from_native() {
    let native = NativeQuad {
        ul_x: 1,
        ul_y: 2,
        ur_x: 3,
        ur_y: 4,
        ll_x: 5,
        ll_y: 6,
        lr_x: 7,
        lr_y: 8,
    };
    let quad = Quad::from_native(&native);
    assert_eq!(quad.ul, Point::new(1, 2));
    assert_eq!(quad.ur, Point::new(3, 4));
    assert_eq!(quad.ll, Point::new(5, 6));
    assert_eq!(quad.lr, Point::new(7, 8));
}

#[test]
fn test_quad_new_keeps_corners() {
    let quad = Quad::new(
        Point::new(1, 2),
        Point::new(3, 4),
        Point::new(5, 6),
        Point::new(7, 8),
    );
    assert_eq!(quad.ul.x, 1);
    assert_eq!(quad.lr.y, 8);
}

#[test]
fn test_size_witness_matches_real_layout() {
    let _witness = AssertSizeEquals::<NativeQuad, Quad>::new();
    assert_eq!(
        core::mem::size_of::<NativeQuad>(),
        core::mem::size_of::<Quad>()
    );
    assert_eq!(core::mem::size_of::<Quad>(), 8 * core::mem::size_of::<i32>());
}
