use browser_core::ui::tabs::apply_favicon_by_id;
use browser_core::ui::tabs::close_tab;
use browser_core::ui::tabs::move_tab;
use browser_core::ui::tabs::new_tab;
use browser_core::ui::tabs::page_title_or_untitled;
use browser_core::ui::tabs::select_tab;
use browser_core::ui::tabs::set_favicon_at;
use browser_core::ui::tabs::set_loading_by_id;
use browser_core::ui::tabs::set_title_at;
use browser_core::ui::tabs::set_title_by_id;
use browser_core::ui::tabs::set_url_at;
use browser_core::ui::tabs::update_active_tab;
use browser_core::ui::tabs::TabInfo;

fn tab(id: i32, url: &str, active: bool) -> TabInfo<u8> {
    TabInfo {
        id,
        title: format!("t{id}"),
        url: url.to_string(),
        active,
        is_pinned: false,
        site_type: "generic".to_string(),
        has_favicon: false,
        favicon: 0,
        loading: false,
    }
}

fn ids(tabs: &[TabInfo<u8>]) -> Vec<i32> {
    tabs.iter().map(|t| t.id).collect()
}

fn actives(tabs: &[TabInfo<u8>]) -> Vec<bool> {
    tabs.iter().map(|t| t.active).collect()
}

#[test]
fn update_active_tab_changes_only_the_active_tab() {
    let mut tabs = vec![tab(0, "a", false), tab(1, "b", true), tab(2, "c", false)];
    update_active_tab(&mut tabs, "https://www.google.com/", "Webpage - g");
    assert_eq!(tabs[1].url, "https://www.google.com/");
    assert_eq!(tabs[1].title, "Webpage - g");
    assert_eq!(tabs[1].site_type, "google");
    assert_eq!(tabs[0].url, "a");
    assert_eq!(tabs[2].title, "t2");
}

#[test]
fn select_tab_activates_exactly_one() {
    let mut tabs = vec![tab(0, "a", true), tab(1, "b", false), tab(2, "c", false)];
    let current = select_tab(&mut tabs, 2);
    assert_eq!(current, Some(("c".to_string(), "t2".to_string())));
    assert_eq!(actives(&tabs), vec![false, false, true]);
    assert_eq!(select_tab(&mut tabs, 7), None);
    assert_eq!(actives(&tabs), vec![false, false, false]);
}

#[test]
fn new_tab_appends_an_active_new_tab_page() {
    let mut tabs = vec![tab(0, "a", true)];
    new_tab(&mut tabs, 5, 9u8);
    assert_eq!(tabs.len(), 2);
    assert!(!tabs[0].active);
    let t = &tabs[1];
    assert_eq!(t.id, 5);
    assert_eq!(t.url, "about:newtab");
    assert_eq!(t.title, "Google");
    assert_eq!(t.site_type, "google");
    assert!(t.active && !t.is_pinned && !t.has_favicon && !t.loading);
    assert_eq!(t.favicon, 9);
}

#[test]
fn last_tab_cannot_be_closed() {
    let mut tabs = vec![tab(0, "a", true)];
    assert_eq!(close_tab(&mut tabs, 0), None);
    assert_eq!(tabs.len(), 1);
}

#[test]
fn closing_an_inactive_tab_keeps_the_active_one() {
    let mut tabs = vec![tab(0, "a", false), tab(1, "b", true), tab(2, "c", false)];
    assert_eq!(close_tab(&mut tabs, 0), Some(("b".to_string(), "t1".to_string())));
    assert_eq!(ids(&tabs), vec![1, 2]);
    assert_eq!(actives(&tabs), vec![true, false]);
}

#[test]
fn closing_the_active_tab_activates_the_first() {
    let mut tabs = vec![tab(0, "a", false), tab(1, "b", true), tab(2, "c", false)];
    assert_eq!(close_tab(&mut tabs, 1), Some(("a".to_string(), "t0".to_string())));
    assert_eq!(ids(&tabs), vec![0, 2]);
    assert_eq!(actives(&tabs), vec![true, false]);
}

#[test]
fn move_tab_reorders() {
    let mut tabs = vec![tab(0, "a", false), tab(1, "b", true), tab(2, "c", false)];
    move_tab(&mut tabs, 0, 2);
    assert_eq!(ids(&tabs), vec![1, 2, 0]);
    move_tab(&mut tabs, 2, 0);
    assert_eq!(ids(&tabs), vec![0, 1, 2]);
    move_tab(&mut tabs, 1, 5);
    assert_eq!(ids(&tabs), vec![0, 1, 2]);
    move_tab(&mut tabs, 1, 1);
    assert_eq!(ids(&tabs), vec![0, 1, 2]);
}

#[test]
fn index_updates_from_engine_notifications() {
    let mut tabs = vec![tab(0, "a", true), tab(1, "b", false)];
    set_title_at(&mut tabs, 1, "Rust");
    assert_eq!(tabs[1].title, "Rust");
    set_favicon_at(&mut tabs, 1, 7u8);
    assert!(tabs[1].has_favicon);
    assert_eq!(tabs[1].favicon, 7);
    set_url_at(&mut tabs, 1, "https://google.com/", 0u8);
    assert_eq!(tabs[1].url, "https://google.com/");
    assert_eq!(tabs[1].site_type, "google");
    assert!(!tabs[1].has_favicon);
    assert_eq!(tabs[1].favicon, 0);
    set_title_at(&mut tabs, 9, "ignored");
    assert_eq!(tabs[0].title, "t0");
    assert_eq!(page_title_or_untitled(None), "Untitled");
    assert_eq!(page_title_or_untitled(Some("Docs".to_string())), "Docs");
}

#[test]
fn id_updates_follow_the_tab_after_reordering() {
    let mut tabs = vec![tab(3, "a", false), tab(4, "b", true)];
    move_tab(&mut tabs, 1, 0);
    assert!(set_loading_by_id(&mut tabs, 4, true));
    assert!(tabs[0].loading && !tabs[1].loading);
    assert!(!set_loading_by_id(&mut tabs, 4, true));
    assert!(!set_loading_by_id(&mut tabs, 99, true));

    let r = set_title_by_id(&mut tabs, 4, "Page");
    assert!(r.changed && r.active_retitled);
    assert_eq!(tabs[0].title, "Page");
    let r = set_title_by_id(&mut tabs, 3, "   ");
    assert!(!r.changed && !r.active_retitled);
    assert_eq!(tabs[1].title, "t3");
    let r = set_title_by_id(&mut tabs, 3, "Other");
    assert!(r.changed && !r.active_retitled);
}

#[test]
fn fallback_favicon_does_not_replace_a_declared_one() {
    let mut tabs = vec![tab(1, "a", true)];
    assert!(apply_favicon_by_id(&mut tabs, 1, &5u8, true));
    assert_eq!(tabs[0].favicon, 5);
    assert!(!apply_favicon_by_id(&mut tabs, 1, &6u8, true));
    assert_eq!(tabs[0].favicon, 5);
    assert!(apply_favicon_by_id(&mut tabs, 1, &7u8, false));
    assert_eq!(tabs[0].favicon, 7);
    assert!(!apply_favicon_by_id(&mut tabs, 2, &8u8, false));
}
