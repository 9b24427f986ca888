use browser_core::compat::baseline_css_disabled;
use browser_core::compat::env_flag;
use browser_core::compat::polyfill_bundle;
use browser_core::compat::polyfills::bundle;
use browser_core::compat::polyfills::PolyfillSources;
use browser_core::compat::polyfills::BUNDLE_HEADER;
use browser_core::compat::polyfills_disabled;
use browser_core::compat::user_agent;
use browser_core::compat::DESKTOP_UA;

#[test]
fn desktop_ua_is_chrome_on_macos() {
    assert_eq!(
        DESKTOP_UA,
        "Mozilla/5.0 (Macintosh; Intel Mac OS X 10_15_7) AppleWebKit/537.36 (KHTML, like Gecko) Chrome/131.0.0.0 Safari/537.36"
    );
}

#[test]
fn user_agent_falls_back_when_unset_or_blank() {
    assert_eq!(user_agent(None), DESKTOP_UA);
    assert_eq!(user_agent(Some("")), DESKTOP_UA);
    assert_eq!(user_agent(Some("  \t\n")), DESKTOP_UA);
    assert_eq!(user_agent(Some("\u{3000}")), DESKTOP_UA);
}

#[test]
fn user_agent_override_is_taken_as_is() {
    assert_eq!(user_agent(Some("MyAgent/1.0")), "MyAgent/1.0");
    assert_eq!(user_agent(Some(" padded ")), " padded ");
}

#[test]
fn env_flag_accepts_only_listed_values() {
    for on in ["1", "true", "TRUE", "yes", "YES"] {
        assert!(env_flag(Some(on)), "{on}");
    }
    for off in ["0", "True", "Yes", "on", "", " 1", "yes "] {
        assert!(!env_flag(Some(off)), "{off}");
    }
    assert!(!env_flag(None));
}

#[test]
fn polyfills_disabled_by_own_or_umbrella_switch() {
    assert!(polyfills_disabled(Some("1"), None));
    assert!(polyfills_disabled(None, Some("yes")));
    assert!(polyfills_disabled(Some("0"), Some("TRUE")));
    assert!(!polyfills_disabled(Some("0"), Some("no")));
    assert!(!polyfills_disabled(None, None));
}

#[test]
fn baseline_css_disabled_by_own_or_umbrella_switch() {
    assert!(baseline_css_disabled(Some("true"), None));
    assert!(baseline_css_disabled(None, Some("1")));
    assert!(!baseline_css_disabled(None, None));
    assert!(!baseline_css_disabled(Some("false"), None));
}

fn sources() -> PolyfillSources {
    PolyfillSources {
        queue_microtask: "QM".to_string(),
        structured_clone: "SC".to_string(),
        abort_controller: "AC".to_string(),
        request_idle_callback: "RIC".to_string(),
        intersection_observer: "IO".to_string(),
        resize_observer: "RO".to_string(),
        svg_a_element: "SVG".to_string(),
        web_animations: "WA".to_string(),
        dialog_element: "DLG".to_string(),
        custom_elements: "CE".to_string(),
        pointer_events: "PE".to_string(),
        crypto_random_uuid: "UUID".to_string(),
        url_can_parse: "URL".to_string(),
        site_rules_dispatcher: "DISPATCH".to_string(),
        eruda_devtools: "ERUDA".to_string(),
    }
}

#[test]
fn bundle_joins_polyfills_in_load_order() {
    let expected = format!(
        "{}\nQM\nSC\nAC\nRIC\nIO\nRO\nSVG\nWA\nDLG\nCE\nPE\nUUID\nURL\nDISPATCH",
        BUNDLE_HEADER
    );
    assert_eq!(bundle(&sources(), false), expected);
    assert_eq!(polyfill_bundle(&sources(), false), expected);
}

#[test]
fn bundle_appends_devtools_only_when_enabled() {
    let without = bundle(&sources(), false);
    let with = bundle(&sources(), true);
    assert_eq!(with, format!("{}\nERUDA", without));
    assert!(!without.contains("ERUDA"));
}

#[test]
fn bundle_header_text() {
    assert_eq!(BUNDLE_HEADER, "// === foe compat polyfills (injected by browser-core::compat) ===");
    assert!(bundle(&sources(), false).starts_with(BUNDLE_HEADER));
}
