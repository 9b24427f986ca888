use browser_core::shields::ShieldsEngine;
use browser_core::ui::navigation::clean_url_input;
use browser_core::ui::navigation::command_bar_submit;
use browser_core::ui::navigation::download_filename;
use browser_core::ui::navigation::plan_navigation;
use browser_core::ui::navigation::NavigationOutcome;
use browser_core::ui::site::get_site_type;
use browser_core::ui::site::is_native_url;
use browser_core::ui::site::site_type_of_lowercase;

#[test]
fn urls_with_a_scheme_load_as_typed() {
    assert_eq!(clean_url_input("  https://a.com/x  "), "https://a.com/x");
    assert_eq!(clean_url_input("http://localhost:8080"), "http://localhost:8080");
    assert_eq!(clean_url_input("file:///tmp/x.html"), "file:///tmp/x.html");
}

#[test]
fn bare_domains_get_https() {
    assert_eq!(clean_url_input("example.com"), "https://example.com");
    assert_eq!(clean_url_input(" rust-lang.org/learn "), "https://rust-lang.org/learn");
}

#[test]
fn other_input_becomes_a_search() {
    let p = "http://127.0.0.1:8089/static/custom-ui/index.html?q=";
    assert_eq!(clean_url_input("hello world"), format!("{p}hello+world"));
    assert_eq!(clean_url_input("hello"), format!("{p}hello"));
    assert_eq!(clean_url_input("a b.c"), format!("{p}a+b.c"));
    assert_eq!(clean_url_input("héllo"), format!("{p}h%C3%A9llo"));
    assert_eq!(clean_url_input("rust?&=/"), format!("{p}rust%3F%26%3D%2F"));
    assert_eq!(clean_url_input("   "), p.to_string());
    assert_eq!(clean_url_input("*-_~"), format!("{p}*-_%7E"));
}

#[test]
fn command_bar_loads_urls_and_searches_the_rest() {
    let t = command_bar_submit("  rust lang ");
    assert_eq!(t.url, "https://duckduckgo.com/?q=rust lang");
    assert_eq!(t.title, "Search - rust lang");
    let t = command_bar_submit("https://x.org");
    assert_eq!(t.url, "https://x.org");
    assert_eq!(t.title, "Loading - https://x.org");
    let t = command_bar_submit("file:///etc");
    assert_eq!(t.url, "https://duckduckgo.com/?q=file:///etc");
}

#[test]
fn download_filename_is_text_after_last_slash() {
    assert_eq!(download_filename("https://x.org/a/b/video.mp4"), "video.mp4");
    assert_eq!(download_filename("https://x.org/"), "");
    assert_eq!(download_filename("noslash"), "noslash");
    assert_eq!(download_filename(""), "");
}

#[test]
fn blocked_navigation_is_not_visited() {
    let shields = ShieldsEngine::new();
    match plan_navigation("doubleclick.net", &shields) {
        NavigationOutcome::Blocked { url, title } => {
            assert_eq!(url, "https://doubleclick.net");
            assert_eq!(title, "Blocked by Shields");
        }
        NavigationOutcome::Visit { .. } => panic!("should be blocked"),
    }
}

#[test]
fn allowed_navigation_is_visited_with_title() {
    let shields = ShieldsEngine::new();
    match plan_navigation(" example.com ", &shields) {
        NavigationOutcome::Visit { url, title } => {
            assert_eq!(url, "https://example.com");
            assert_eq!(title, "Webpage - https://example.com");
        }
        NavigationOutcome::Blocked { .. } => panic!("should not be blocked"),
    }
    let mut off = ShieldsEngine::new();
    off.set_enabled(false);
    assert!(matches!(plan_navigation("doubleclick.net", &off), NavigationOutcome::Visit { .. }));
}

#[test]
fn site_type_is_google_for_google_and_new_tab() {
    assert_eq!(get_site_type("https://www.Google.com/search?q=a"), "google");
    assert_eq!(get_site_type("GOOGLE"), "google");
    assert_eq!(get_site_type("about:newtab"), "google");
    assert_eq!(get_site_type("ABOUT:NEWTAB"), "google");
    assert_eq!(get_site_type("https://rust-lang.org"), "generic");
    assert_eq!(get_site_type("about:blank"), "generic");
    assert_eq!(site_type_of_lowercase("GOOGLE"), "generic");
    assert_eq!(site_type_of_lowercase("mail.google.com"), "google");
}

#[test]
fn native_urls() {
    assert!(is_native_url(""));
    assert!(is_native_url("about:blank"));
    assert!(is_native_url("about:newtab"));
    assert!(!is_native_url("about:config"));
    assert!(!is_native_url("https://x.org"));
}
