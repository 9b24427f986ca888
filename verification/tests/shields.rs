use browser_core::shields::ShieldsEngine;

#[test]
fn new_engine_is_enabled() {
    let engine = ShieldsEngine::new();
    assert!(engine.is_enabled());
}

#[test]
fn blocks_listed_domains_and_their_subdomains() {
    let engine = ShieldsEngine::new();
    assert!(engine.should_block("https://doubleclick.net/ad.js"));
    assert!(engine.should_block("https://static.doubleclick.net/x"));
    assert!(engine.should_block("http://www.google-analytics.com/collect?v=1"));
    assert!(engine.should_block("https://ads.youtube.com/"));
    assert!(engine.should_block("https://adservice.google.com/adsid"));
}

#[test]
fn host_comparison_uses_the_parsed_host() {
    let engine = ShieldsEngine::new();
    // the URL parser lowercases domains
    assert!(engine.should_block("https://DoubleClick.NET/"));
    assert!(engine.should_block("https://user@doubleclick.net:8443/path"));
}

#[test]
fn lets_other_hosts_through() {
    let engine = ShieldsEngine::new();
    assert!(!engine.should_block("https://notdoubleclick.net/"));
    assert!(!engine.should_block("https://doubleclick.net.example.org/"));
    assert!(!engine.should_block("https://youtube.com/watch"));
    assert!(!engine.should_block("https://google.com/"));
    assert!(!engine.should_block("https://example.com/doubleclick.net"));
}

#[test]
fn unparsable_or_hostless_urls_pass() {
    let engine = ShieldsEngine::new();
    assert!(!engine.should_block("doubleclick.net"));
    assert!(!engine.should_block("not a url"));
    assert!(!engine.should_block("about:blank"));
    assert!(!engine.should_block(""));
}

#[test]
fn disabled_engine_blocks_nothing() {
    let mut engine = ShieldsEngine::new();
    engine.set_enabled(false);
    assert!(!engine.is_enabled());
    assert!(!engine.should_block("https://doubleclick.net/ad.js"));
    engine.set_enabled(true);
    assert!(engine.is_enabled());
    assert!(engine.should_block("https://doubleclick.net/ad.js"));
}

#[test]
fn blocking_goes_by_parsed_host() {
    let mut engine = ShieldsEngine::new();
    assert!(engine.should_block_host("doubleclick.net"));
    assert!(engine.should_block_host("a.b.ads.youtube.com"));
    assert!(!engine.should_block_host("youtube.com"));
    assert!(!engine.should_block_host("xdoubleclick.net"));
    engine.set_enabled(false);
    assert!(!engine.should_block_host("doubleclick.net"));
}
