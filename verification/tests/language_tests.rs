use ocr_bridge::language::detect_system_language;
use ocr_bridge::language::get_system_language;

#[test]
fn env_zh_wins_over_everything() {
    assert_eq!(detect_system_language(Some("zh_CN.UTF-8"), None, None), "zh");
    assert_eq!(
        detect_system_language(Some("zh_CN.UTF-8"), Some("en-US"), Some("en-US")),
        "zh"
    );
    assert_eq!(detect_system_language(Some("ZH-TW"), Some("fr-FR"), None), "zh");
    assert_eq!(detect_system_language(Some("xx.Zh.yy"), None, Some("ko")), "zh");
}

#[test]
fn no_signal_defaults_to_en() {
    assert_eq!(detect_system_language(None, None, None), "en");
    assert_eq!(detect_system_language(Some("en_US.UTF-8"), None, None), "en");
    assert_eq!(
        detect_system_language(Some("fr_FR"), Some("de-DE"), Some("ja-JP")),
        "en"
    );
    assert_eq!(detect_system_language(Some(""), Some(""), Some("")), "en");
}

#[test]
fn culture_probe_matches_any_case() {
    assert_eq!(detect_system_language(Some("en_US"), Some("zh-CN"), None), "zh");
    assert_eq!(detect_system_language(None, Some("ZH-CN"), None), "zh");
    assert_eq!(detect_system_language(None, Some("zH"), None), "zh");
}

#[test]
fn preference_probe_matches_exact_case_only() {
    let listing = "(\n    \"zh-Hans-CN\",\n    \"en\"\n)";
    assert_eq!(detect_system_language(Some("en_US"), None, Some(listing)), "zh");
    assert_eq!(detect_system_language(None, None, Some("ZH-Hans")), "en");
    assert_eq!(detect_system_language(None, None, Some("zh")), "zh");
}

#[test]
fn partial_matches_do_not_count() {
    assert_eq!(detect_system_language(Some("z_h"), None, None), "en");
    assert_eq!(detect_system_language(Some("hz"), None, None), "en");
    assert_eq!(detect_system_language(Some("z"), None, None), "en");
}

#[test]
fn descriptor_fields_are_equal() {
    let info = get_system_language(Some("zh_CN"), None, None).unwrap();
    assert_eq!(info.system_language, info.default_language);
    assert_eq!(info.system_language, "zh");

    let info = get_system_language(Some("en_GB"), Some("en-GB"), None).unwrap();
    assert_eq!(info.system_language, info.default_language);
    assert_eq!(info.system_language, "en");
}

#[test]
fn resolution_always_succeeds() {
    assert!(get_system_language(None, None, None).is_ok());
    assert!(get_system_language(Some("zh"), Some("zh"), Some("zh")).is_ok());
}
