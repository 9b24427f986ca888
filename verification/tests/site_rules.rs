use browser_core::compat::site_rules::domain_matches;
use browser_core::compat::site_rules::for_domain;
use browser_core::compat::site_rules::rules_for_domain;
use browser_core::compat::site_rules::SiteRule;

#[test]
fn matches_exact_and_subdomain() {
    assert!(domain_matches("example.com", "example.com"));
    assert!(domain_matches("foo.example.com", "example.com"));
    assert!(domain_matches("a.b.example.com", "example.com"));
}

#[test]
fn rejects_unrelated_hosts() {
    assert!(!domain_matches("notexample.com", "example.com"));
    assert!(!domain_matches("example.com.evil.com", "example.com"));
    assert!(!domain_matches("example.org", "example.com"));
}

#[test]
fn matching_needs_a_label_boundary() {
    assert!(domain_matches(".example.com", "example.com"));
    assert!(!domain_matches("xexample.com", "example.com"));
    assert!(!domain_matches("com", "example.com"));
    assert!(!domain_matches("", "example.com"));
    assert!(domain_matches("", ""));
    assert!(domain_matches("host.", ""));
    assert!(!domain_matches("host", ""));
}

#[test]
fn subdomain_of_matching_host_matches() {
    assert!(domain_matches("deep.foo.example.com", "example.com"));
    assert!(domain_matches("x.y.z.example.com", "example.com"));
}

#[test]
fn shipped_rule_table_is_empty() {
    assert!(for_domain("example.com").is_empty());
    assert!(for_domain("chatgpt.com").is_empty());
}

#[test]
fn rules_for_domain_keeps_matching_rules_in_order() {
    let rules = vec![
        SiteRule { domain_pattern: "example.com", inject_css: Some("a {}"), inject_js: None },
        SiteRule { domain_pattern: "other.org", inject_css: None, inject_js: Some("x()") },
        SiteRule { domain_pattern: "b.example.com", inject_css: None, inject_js: Some("y()") },
    ];
    let found = rules_for_domain(&rules, "x.b.example.com");
    assert_eq!(found.len(), 2);
    assert_eq!(found[0].domain_pattern, "example.com");
    assert_eq!(found[0].inject_css, Some("a {}"));
    assert_eq!(found[1].domain_pattern, "b.example.com");
    assert_eq!(found[1].inject_js, Some("y()"));
    assert!(rules_for_domain(&rules, "example.net").is_empty());
}
