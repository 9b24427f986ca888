use browser_core::ui::engine::page_load_actions;
use browser_core::ui::engine::parse_favicon_message;
use browser_core::ui::engine::plan_tab;
use browser_core::ui::engine::root_favicon;
use browser_core::ui::engine::plan_tab_for;
use browser_core::ui::engine::PageLoadEvent;
use browser_core::ui::engine::TabPlan;
use browser_core::ui::ids::next_tab_id;
use browser_core::ui::ids::TabIdAllocator;
use browser_core::ui::tab_strip::move_item;
use browser_core::ui::tab_strip::TabStrip;
use browser_core::web_url::parses_as_url;

#[test]
fn tab_plans() {
    match plan_tab("about:blank") {
        TabPlan::Native { url } => assert_eq!(url, "about:blank"),
        TabPlan::Web { .. } => panic!(),
    }
    match plan_tab("not a url") {
        TabPlan::Native { url } => assert_eq!(url, "about:newtab"),
        TabPlan::Web { .. } => panic!(),
    }
    match plan_tab("https://x.org/") {
        TabPlan::Web { url } => assert_eq!(url, "https://x.org/"),
        TabPlan::Native { .. } => panic!(),
    }
    assert!(parses_as_url("mailto:a@b.c"));
    assert!(!parses_as_url("x.org"));
}

#[test]
fn favicon_messages() {
    assert_eq!(
        parse_favicon_message("favicon\nh.org\nhttps://h.org/f.ico"),
        Some("https://h.org/f.ico".to_string())
    );
    assert_eq!(
        parse_favicon_message("favicon\nh.org\nhttps://h.org/a\nb"),
        Some("https://h.org/a\nb".to_string())
    );
    assert_eq!(parse_favicon_message("favicon\nh.org"), None);
    assert_eq!(parse_favicon_message("favicon\nh.org\n"), None);
    assert_eq!(parse_favicon_message("title\nx\ny"), None);
    assert_eq!(parse_favicon_message(""), None);
}

#[test]
fn page_load_events() {
    let a = page_load_actions(PageLoadEvent::Started, "https://a.org/x/y");
    assert!(a.loading);
    assert_eq!(a.fetch_favicon, None);
    let a = page_load_actions(PageLoadEvent::Finished, "https://a.org/x/y?q=1");
    assert!(!a.loading);
    assert_eq!(a.fetch_favicon, Some("https://a.org/favicon.ico".to_string()));
    let a = page_load_actions(PageLoadEvent::Finished, "nonsense");
    assert_eq!(a.fetch_favicon, None);
}

#[test]
fn fallback_favicon_is_at_the_site_root() {
    assert_eq!(root_favicon("https://a.org/x/y?q=1#f"), Some("https://a.org/favicon.ico".to_string()));
    assert_eq!(root_favicon("http://h.net:8080/"), Some("http://h.net:8080/favicon.ico".to_string()));
    assert_eq!(root_favicon("not a url"), None);
}

#[test]
fn tab_ids_count_up() {
    let mut ids = TabIdAllocator::new();
    assert_eq!(next_tab_id(&mut ids), 1);
    assert_eq!(next_tab_id(&mut ids), 2);
    assert_eq!(next_tab_id(&mut ids), 3);
}

#[test]
fn moving_keeps_the_active_tab() {
    let mut strip: TabStrip<&str> = TabStrip::new();
    strip.push("a");
    strip.push("b");
    strip.push("c");
    strip.set_active_tab(1);
    strip.move_tab(0, 2);
    assert_eq!(strip.tabs(), &vec!["b", "c", "a"]);
    assert_eq!(strip.active_index(), 0);
    assert_eq!(strip.get_active_tab(), Some(&"b"));
    strip.move_tab(2, 0);
    assert_eq!(strip.get_active_tab(), Some(&"b"));
    assert_eq!(strip.active_index(), 1);
    strip.move_tab(1, 2);
    assert_eq!(strip.get_active_tab(), Some(&"b"));
    assert_eq!(strip.active_index(), 2);
}

#[test]
fn closing_clamps_the_active_index() {
    let mut strip: TabStrip<u32> = TabStrip::new();
    strip.push(10);
    strip.push(20);
    strip.push(30);
    strip.set_active_tab(2);
    strip.close_tab(2);
    assert_eq!(strip.len(), 2);
    assert_eq!(strip.active_index(), 1);
    strip.close_tab(7);
    assert_eq!(strip.len(), 2);
    strip.close_tab(0);
    assert_eq!(strip.active_index(), 0);
    assert_eq!(strip.get_active_tab(), Some(&20));
    strip.set_active_tab(5);
    assert_eq!(strip.active_index(), 0);
    assert_eq!(strip.replace_active(21), 20);
    assert_eq!(strip.tabs(), &vec![21]);
}

#[test]
fn move_item_out_of_range_is_a_no_op() {
    let mut v = vec![1, 2, 3];
    move_item(&mut v, 3, 0);
    assert_eq!(v, vec![1, 2, 3]);
    move_item(&mut v, 0, 1);
    assert_eq!(v, vec![2, 1, 3]);
}

#[test]
fn tab_plan_given_the_parse_result() {
    assert!(matches!(plan_tab_for("about:newtab", false), TabPlan::Native { .. }));
    match plan_tab_for("whatever", false) {
        TabPlan::Native { url } => assert_eq!(url, "about:newtab"),
        TabPlan::Web { .. } => panic!(),
    }
    match plan_tab_for("whatever", true) {
        TabPlan::Web { url } => assert_eq!(url, "whatever"),
        TabPlan::Native { .. } => panic!(),
    }
}
