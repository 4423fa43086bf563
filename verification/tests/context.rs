use mupdf::context::{Context, ContextRegistry};
use mupdf::engine::Engine;
use mupdf::error::Error;

#[test]
fn test_context() {
    let mut engine = Engine::new();
    let mut registry = ContextRegistry::new(&mut engine);
    let ctx = Context::get(&mut registry, &mut engine, 1);
    assert_eq!(ctx.aa_level(&registry), 8);
    assert_eq!(ctx.text_aa_level(&registry), 8);
    assert_eq!(ctx.graphics_aa_level(&registry), 8);
    assert_eq!(ctx.graphics_min_line_width(&registry), 0);
    assert!(ctx.use_document_css(&registry));
    assert!(ctx.user_css(&registry).is_none());
}

#[test]
fn test_distinct_threads_get_distinct_contexts() {
    let mut engine = Engine::new();
    let mut registry = ContextRegistry::new(&mut engine);
    let first = Context::get(&mut registry, &mut engine, 1);
    let second = Context::get(&mut registry, &mut engine, 2);
    assert_ne!(first.raw(), second.raw());
    assert!(first.raw() > 0);
    assert!(second.raw() > 0);
    assert!(engine.is_live(first.raw()));
    assert!(engine.is_live(second.raw()));
    // asking again on the same thread hands back the cached clone
    let first_again = Context::get(&mut registry, &mut engine, 1);
    assert_eq!(first.raw(), first_again.raw());
}

#[test]
fn test_settings_are_thread_confined() {
    let mut engine = Engine::new();
    let mut registry = ContextRegistry::new(&mut engine);
    let first = Context::get(&mut registry, &mut engine, 1);
    let second = Context::get(&mut registry, &mut engine, 2);
    first.set_aa_level(&mut registry, 4);
    first.set_graphics_min_line_width(&mut registry, 1500);
    assert_eq!(first.aa_level(&registry), 4);
    assert_eq!(first.graphics_min_line_width(&registry), 1500);
    // the other thread's context still carries the defaults
    assert_eq!(second.aa_level(&registry), 8);
    assert_eq!(second.graphics_min_line_width(&registry), 0);
}

#[test]
fn test_aa_setters() {
    let mut engine = Engine::new();
    let mut registry = ContextRegistry::new(&mut engine);
    let ctx = Context::get(&mut registry, &mut engine, 7);
    ctx.set_text_aa_level(&mut registry, 2);
    ctx.set_graphics_aa_level(&mut registry, 3);
    ctx.set_use_document_css(&mut registry, false);
    assert_eq!(ctx.text_aa_level(&registry), 2);
    assert_eq!(ctx.graphics_aa_level(&registry), 3);
    assert!(!ctx.use_document_css(&registry));
    assert_eq!(ctx.aa_level(&registry), 8);
}

#[test]
fn test_icc_toggle() {
    let mut engine = Engine::new();
    let mut registry = ContextRegistry::new(&mut engine);
    let ctx = Context::get(&mut registry, &mut engine, 1);
    assert!(ctx.icc_enabled(&registry));
    ctx.disable_icc(&mut registry);
    assert!(!ctx.icc_enabled(&registry));
    ctx.enable_icc(&mut registry);
    assert!(ctx.icc_enabled(&registry));
}

#[test]
fn test_set_user_css() {
    let mut engine = Engine::new();
    let mut registry = ContextRegistry::new(&mut engine);
    let ctx = Context::get(&mut registry, &mut engine, 1);
    ctx.set_user_css(&mut registry, "body { margin: 0 }").unwrap();
    assert_eq!(ctx.user_css(&registry), Some("body { margin: 0 }"));
}

#[test]
fn test_set_user_css_embedded_terminator() {
    let mut engine = Engine::new();
    let mut registry = ContextRegistry::new(&mut engine);
    let ctx = Context::get(&mut registry, &mut engine, 1);
    let err = ctx.set_user_css(&mut registry, "body\0{}").unwrap_err();
    assert_eq!(err, Error::StringConversion);
    // the rejected style sheet was not stored
    assert!(ctx.user_css(&registry).is_none());
}

#[test]
fn test_context_lifecycle_is_leak_free() {
    let mut engine = Engine::new();
    let mut registry = ContextRegistry::new(&mut engine);
    let _first = Context::get(&mut registry, &mut engine, 1);
    let _second = Context::get(&mut registry, &mut engine, 2);
    assert_eq!(engine.live_allocations(), 3);
    registry.drop_thread_context(&mut engine, 1);
    registry.drop_thread_context(&mut engine, 2);
    assert_eq!(engine.live_allocations(), 1);
    registry.teardown(&mut engine);
    assert_eq!(engine.live_allocations(), 0);
}
