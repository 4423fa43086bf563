use mupdf::system_font::{
    cjk_font_candidates, font_passes_exact_metrics, load_font_by_names, load_system_cjk_font,
    load_system_fallback_font, load_system_font, strip_font_name_suffixes, system_font_source,
    CjkOrdering,
};

#[test]
fn test_strip_font_name_suffixes() {
    assert_eq!(strip_font_name_suffixes(b"ArialMT"), b"Arial".to_vec());
    assert_eq!(strip_font_name_suffixes(b"CourierPS"), b"Courier".to_vec());
    assert_eq!(strip_font_name_suffixes(b"TimesIdentityH"), b"Times".to_vec());
    // the decorations come off in order: MT first, then PS, then IdentityH
    assert_eq!(strip_font_name_suffixes(b"FooPSMT"), b"Foo".to_vec());
    assert_eq!(strip_font_name_suffixes(b"FooMTPS"), b"FooMT".to_vec());
    assert_eq!(strip_font_name_suffixes(b"Helvetica"), b"Helvetica".to_vec());
    assert_eq!(strip_font_name_suffixes(b""), b"".to_vec());
}

#[test]
fn test_cjk_candidates() {
    assert_eq!(
        cjk_font_candidates(Some(CjkOrdering::AdobeCns), true),
        vec!["MingLiU"]
    );
    assert_eq!(
        cjk_font_candidates(Some(CjkOrdering::AdobeCns), false),
        vec!["DFKaiShu-SB-Estd-BF"]
    );
    assert_eq!(
        cjk_font_candidates(Some(CjkOrdering::AdobeGb), true),
        vec!["SimSun"]
    );
    assert_eq!(
        cjk_font_candidates(Some(CjkOrdering::AdobeGb), false),
        vec!["KaiTi", "KaiTi_GB2312"]
    );
    assert_eq!(
        cjk_font_candidates(Some(CjkOrdering::AdobeJapan), true),
        vec!["MS-Mincho"]
    );
    assert_eq!(
        cjk_font_candidates(Some(CjkOrdering::AdobeJapan), false),
        vec!["MS-Gothic"]
    );
    assert_eq!(
        cjk_font_candidates(Some(CjkOrdering::AdobeKorea), true),
        vec!["Batang"]
    );
    assert_eq!(
        cjk_font_candidates(Some(CjkOrdering::AdobeKorea), false),
        vec!["Gulim"]
    );
    assert!(cjk_font_candidates(None, true).is_empty());
}

#[test]
fn test_ordering_from_code() {
    assert_eq!(CjkOrdering::from_code(0), Some(CjkOrdering::AdobeCns));
    assert_eq!(CjkOrdering::from_code(1), Some(CjkOrdering::AdobeGb));
    assert_eq!(CjkOrdering::from_code(2), Some(CjkOrdering::AdobeJapan));
    assert_eq!(CjkOrdering::from_code(3), Some(CjkOrdering::AdobeKorea));
    assert_eq!(CjkOrdering::from_code(4), None);
    assert_eq!(CjkOrdering::from_code(-1), None);
}

#[test]
fn test_exact_metrics_rule() {
    // nothing demanded: anything passes
    assert!(font_passes_exact_metrics(false, true, true, false, false));
    // bold demanded exactly but the font is not bold: refused
    assert!(!font_passes_exact_metrics(true, true, false, false, false));
    // italic demanded exactly but the font is upright: refused
    assert!(!font_passes_exact_metrics(true, false, true, true, false));
    // the font delivers what was demanded: passes
    assert!(font_passes_exact_metrics(true, true, true, true, true));
}

#[test]
fn test_fallback_font_is_always_none() {
    assert!(load_system_fallback_font(0, 0, false, false, false).is_none());
    assert!(load_system_fallback_font(5, 3, true, true, true).is_none());
}

#[test]
fn test_unusable_names_find_no_font() {
    let source = system_font_source();
    // an interior NUL cannot reach the native side at all
    assert!(load_system_font(&source, b"Arial\0MT", false, false).is_none());
    // bytes that are not valid text match nothing, under the exact name or
    // under the stripped family name
    assert!(load_system_font(&source, b"\xFF\xFEbroken", false, false).is_none());
    // together with an ordering code the engine never names, the CJK slot
    // has no candidate left either
    assert!(load_system_cjk_font(&source, b"bad\0name", 9, true).is_none());
    // an empty candidate list finds nothing
    assert!(load_font_by_names(&source, &Vec::new()).is_none());
}

#[test]
fn test_system_font_queries_are_stable() {
    // whatever this machine has installed, the same query twice in one
    // process answers the same way
    let source = system_font_source();
    let first = load_system_font(&source, b"Helvetica", false, false);
    let second = load_system_font(&source, b"Helvetica", false, false);
    assert_eq!(first.is_some(), second.is_some());
    let cjk_first = load_system_cjk_font(&source, b"MS-Gothic", 2, false);
    let cjk_second = load_system_cjk_font(&source, b"MS-Gothic", 2, false);
    assert_eq!(cjk_first.is_some(), cjk_second.is_some());
}
