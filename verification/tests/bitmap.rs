use mupdf::bitmap::Bitmap;
use mupdf::colorspace::Colorspace;
use mupdf::engine::Engine;
use mupdf::error::Error;
use mupdf::pixmap::Pixmap;

#[test]
fn test_new_bitmap() {
    let mut engine = Engine::new();
    let cs = Colorspace::device_gray();
    let mut pixmap =
        Pixmap::new_with_w_h(&mut engine, &cs, 100, 100, false).expect("Pixmap::new_with_w_h");
    pixmap.clear().unwrap();
    let bitmap = Bitmap::from_pixmap(&mut engine, &pixmap).unwrap();
    assert_eq!(bitmap.width(), 100);
    assert_eq!(bitmap.n(), 1);
}

#[test]
fn test_new_bitmap_error() {
    let mut engine = Engine::new();
    let cs = Colorspace::device_rgb();
    let mut pixmap =
        Pixmap::new_with_w_h(&mut engine, &cs, 100, 100, false).expect("Pixmap::new_with_w_h");
    pixmap.clear().unwrap();
    assert!(Bitmap::from_pixmap(&mut engine, &pixmap).is_err());
}

#[test]
fn test_bitmap_error_is_library_signalled() {
    let mut engine = Engine::new();
    let cs = Colorspace::device_cmyk();
    let pixmap = Pixmap::new_with_w_h(&mut engine, &cs, 10, 10, false).unwrap();
    let err = Bitmap::from_pixmap(&mut engine, &pixmap).unwrap_err();
    assert!(matches!(err, Error::NativeLibrary(_)));
}

#[test]
fn test_bitmap_geometry() {
    let mut engine = Engine::new();
    let cs = Colorspace::device_gray();
    let mut pixmap = Pixmap::new_with_w_h(&mut engine, &cs, 33, 2, false).unwrap();
    pixmap.clear().unwrap();
    let bitmap = Bitmap::from_pixmap(&mut engine, &pixmap).unwrap();
    // 33 pixels of one bit round up to 64 bits, i.e. 8 bytes per row.
    assert_eq!(bitmap.stride(), 8);
    assert_eq!(bitmap.height(), 2);
    assert_eq!(bitmap.resolution(), (96, 96));
    assert_eq!(bitmap.samples().len(), 66);
}

#[test]
fn test_samples_mut_writes_through() {
    let mut engine = Engine::new();
    let cs = Colorspace::device_gray();
    let mut pixmap = Pixmap::new_with_w_h(&mut engine, &cs, 4, 4, false).unwrap();
    pixmap.clear().unwrap();
    let mut bitmap = Bitmap::from_pixmap(&mut engine, &pixmap).unwrap();
    bitmap.samples_mut()[3] = 0xAA;
    assert_eq!(bitmap.samples()[3], 0xAA);
    assert_eq!(bitmap.samples()[0], 0);
}

#[test]
fn test_alpha_pixmap_is_not_halftonable() {
    let mut engine = Engine::new();
    let cs = Colorspace::device_gray();
    let pixmap = Pixmap::new_with_w_h(&mut engine, &cs, 4, 4, true).unwrap();
    assert!(Bitmap::from_pixmap(&mut engine, &pixmap).is_err());
}

#[test]
fn test_wrapper_release_is_leak_free() {
    let mut engine = Engine::new();
    let cs = Colorspace::device_gray();
    let mut pixmap = Pixmap::new_with_w_h(&mut engine, &cs, 8, 8, false).unwrap();
    pixmap.clear().unwrap();
    let bitmap = Bitmap::from_pixmap(&mut engine, &pixmap).unwrap();
    assert_eq!(engine.live_allocations(), 2);
    bitmap.destroy(&mut engine);
    assert_eq!(engine.live_allocations(), 1);
    pixmap.destroy(&mut engine);
    assert_eq!(engine.live_allocations(), 0);
}

#[test]
fn test_kept_wrapper_releases_once_each() {
    let mut engine = Engine::new();
    let cs = Colorspace::device_gray();
    let pixmap = Pixmap::new_with_w_h(&mut engine, &cs, 4, 4, false).unwrap();
    let shared = pixmap.keep(&mut engine);
    assert_eq!(engine.live_allocations(), 1);
    assert_eq!(shared.width(), 4);
    assert_eq!(shared.samples(), pixmap.samples());
    // the allocation survives the first release and goes with the second
    pixmap.destroy(&mut engine);
    assert_eq!(engine.live_allocations(), 1);
    shared.destroy(&mut engine);
    assert_eq!(engine.live_allocations(), 0);
}

#[test]
fn test_negative_pixmap_dimensions() {
    let mut engine = Engine::new();
    let cs = Colorspace::device_gray();
    let err = Pixmap::new_with_w_h(&mut engine, &cs, -1, 5, false).unwrap_err();
    assert!(matches!(err, Error::NativeLibrary(_)));
    // the failed factory left no allocation behind
    assert_eq!(engine.live_allocations(), 0);
}
