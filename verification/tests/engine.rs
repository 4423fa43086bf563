use mupdf::engine::Engine;
use mupdf::error::{resolve_native_call, Error};

#[test]
fn test_keep_release_counts() {
    let mut engine = Engine::new();
    let handle = engine.allocate();
    assert!(handle > 0);
    assert!(engine.is_live(handle));
    assert_eq!(engine.live_allocations(), 1);
    // sharing the allocation takes a second reference...
    let shared = engine.keep(handle);
    assert_eq!(shared, handle);
    // ...so one release keeps it alive and the second frees it
    engine.release(handle);
    assert!(engine.is_live(handle));
    engine.release(handle);
    assert!(!engine.is_live(handle));
    assert_eq!(engine.live_allocations(), 0);
}

#[test]
fn test_fresh_handles_are_distinct() {
    let mut engine = Engine::new();
    let first = engine.allocate();
    let second = engine.allocate();
    assert_ne!(first, second);
    assert!(first > 0);
    assert!(second > 0);
}

#[test]
fn test_native_call_resolution() {
    // an engine-signalled error wins over whatever handle came back
    let r: Result<u64, Error> = resolve_native_call(Some("cannot render".to_string()), Some(5));
    assert_eq!(r, Err(Error::NativeLibrary("cannot render".to_string())));
    // no error and no handle is the unexpected-null case
    let r: Result<u64, Error> = resolve_native_call(None, None);
    assert_eq!(r, Err(Error::UnexpectedNullPtr));
    // a handle with no error passes through untouched
    let r: Result<u64, Error> = resolve_native_call(None, Some(5));
    assert_eq!(r, Ok(5));
}
