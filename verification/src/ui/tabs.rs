//! The tab list the window shows: what each tab displays and which one is
//! active, and how the tab bar's actions and the engine's notifications
//! change it. `I` is the type of a tab's favicon image.
use vstd::prelude::*;

use crate::text::is_blank;
use crate::text::is_blank_str;
use crate::ui::site::get_site_type;
use crate::ui::site::lowercase;
use crate::ui::site::site_type_for;
use crate::ui::tab_strip::move_item;
use crate::ui::tab_strip::moved;

verus! {

broadcast use vstd::string::group_string_axioms;

/// URL of a fresh tab.
pub const NEW_TAB_URL: &'static str = "about:newtab";

/// Title of a fresh tab.
pub const NEW_TAB_TITLE: &'static str = "Google";

/// Title shown for a page that has none.
pub const UNTITLED: &'static str = "Untitled";

/// One entry of the tab bar.
pub struct TabInfo<I> {
    pub id: i32,
    pub title: String,
    pub url: String,
    pub active: bool,
    pub is_pinned: bool,
    pub site_type: String,
    pub has_favicon: bool,
    pub favicon: I,
    pub loading: bool,
}

/// `a` and `b` agree on everything but the title, URL and site type.
pub open spec fn same_but_text<I>(a: TabInfo<I>, b: TabInfo<I>) -> bool {
    &&& a.id == b.id
    &&& a.active == b.active
    &&& a.is_pinned == b.is_pinned
    &&& a.has_favicon == b.has_favicon
    &&& a.favicon == b.favicon
    &&& a.loading == b.loading
}

/// `a` and `b` agree on everything but the active flag.
pub open spec fn same_but_active<I>(a: TabInfo<I>, b: TabInfo<I>) -> bool {
    &&& a.id == b.id
    &&& a.title == b.title
    &&& a.url == b.url
    &&& a.is_pinned == b.is_pinned
    &&& a.site_type == b.site_type
    &&& a.has_favicon == b.has_favicon
    &&& a.favicon == b.favicon
    &&& a.loading == b.loading
}

/// `after` is `before` showing the page at `url` titled `title`.
pub open spec fn shows_page<I>(after: TabInfo<I>, before: TabInfo<I>, url: Seq<char>, title: Seq<char>) -> bool {
    &&& same_but_text(after, before)
    &&& after.url@ == url
    &&& after.title@ == title
    &&& after.site_type@ == site_type_for(lowercase(url))
}

/// Every active tab now shows the page at `url` titled `title`; the other
/// tabs are unchanged.
pub fn update_active_tab<I>(tabs: &mut Vec<TabInfo<I>>, url: &str, title: &str)
    ensures
        final(tabs)@.len() == old(tabs)@.len(),
        forall|i: int|
            0 <= i < old(tabs)@.len() ==> if old(tabs)@[i].active {
                shows_page(#[trigger] final(tabs)@[i], old(tabs)@[i], url@, title@)
            } else {
                final(tabs)@[i] == old(tabs)@[i]
            },
{
    let site_type = get_site_type(url);
    let n = tabs.len();
    for i in 0..n
        invariant
            n == old(tabs)@.len(),
            tabs@.len() == n,
            site_type@ == site_type_for(lowercase(url@)),
            forall|j: int|
                0 <= j < i ==> if old(tabs)@[j].active {
                    shows_page(#[trigger] tabs@[j], old(tabs)@[j], url@, title@)
                } else {
                    tabs@[j] == old(tabs)@[j]
                },
            forall|j: int| i <= j < n ==> #[trigger] tabs@[j] == old(tabs)@[j],
    {
        if tabs[i].active {
            tabs[i].url = url.to_owned();
            tabs[i].title = title.to_owned();
            tabs[i].site_type = site_type.clone();
        }
    }
}

/// Makes the tab at `index` the only active one and returns its URL and
/// title, which the window then shows. With `index` out of range every tab
/// ends up inactive and `None` comes back.
pub fn select_tab<I>(tabs: &mut Vec<TabInfo<I>>, index: usize) -> (current: Option<(String, String)>)
    ensures
        final(tabs)@.len() == old(tabs)@.len(),
        forall|i: int|
            0 <= i < old(tabs)@.len() ==> {
                &&& same_but_active(#[trigger] final(tabs)@[i], old(tabs)@[i])
                &&& final(tabs)@[i].active == (i == index)
            },
        index < old(tabs)@.len() ==> (current matches Some((u, t)) && u@ == old(
            tabs,
        )@[index as int].url@ && t@ == old(tabs)@[index as int].title@),
        index >= old(tabs)@.len() ==> current is None,
{
    let mut current: Option<(String, String)> = None;
    let n = tabs.len();
    for i in 0..n
        invariant
            n == old(tabs)@.len(),
            tabs@.len() == n,
            forall|j: int|
                0 <= j < i ==> {
                    &&& same_but_active(#[trigger] tabs@[j], old(tabs)@[j])
                    &&& tabs@[j].active == (j == index)
                },
            forall|j: int| i <= j < n ==> #[trigger] tabs@[j] == old(tabs)@[j],
            index < i ==> (current matches Some((u, t)) && u@ == old(tabs)@[index as int].url@
                && t@ == old(tabs)@[index as int].title@),
            index >= i ==> current is None,
    {
        let is_active = i == index;
        tabs[i].active = is_active;
        if is_active {
            current = Some((tabs[i].url.clone(), tabs[i].title.clone()));
        }
    }
    current
}

/// `t` is the fresh tab `new_tab` opens, with the given id and favicon.
pub open spec fn is_fresh_tab<I>(t: TabInfo<I>, id: i32, blank_icon: I) -> bool {
    &&& t.id == id
    &&& t.title@ == NEW_TAB_TITLE@
    &&& t.url@ == NEW_TAB_URL@
    &&& t.active
    &&& !t.is_pinned
    &&& t.site_type@ == "google"@
    &&& !t.has_favicon
    &&& t.favicon == blank_icon
    &&& !t.loading
}

/// Deactivates every tab and appends a fresh, active new-tab page.
pub fn new_tab<I>(tabs: &mut Vec<TabInfo<I>>, id: i32, blank_icon: I)
    ensures
        final(tabs)@.len() == old(tabs)@.len() + 1,
        forall|i: int|
            0 <= i < old(tabs)@.len() ==> {
                &&& same_but_active(#[trigger] final(tabs)@[i], old(tabs)@[i])
                &&& !final(tabs)@[i].active
            },
        is_fresh_tab(final(tabs)@.last(), id, blank_icon),
{
    let n = tabs.len();
    for i in 0..n
        invariant
            n == old(tabs)@.len(),
            tabs@.len() == n,
            forall|j: int|
                0 <= j < i ==> {
                    &&& same_but_active(#[trigger] tabs@[j], old(tabs)@[j])
                    &&& !tabs@[j].active
                },
            forall|j: int| i <= j < n ==> #[trigger] tabs@[j] == old(tabs)@[j],
    {
        tabs[i].active = false;
    }
    tabs.push(
        TabInfo {
            id,
            title: NEW_TAB_TITLE.to_owned(),
            url: NEW_TAB_URL.to_owned(),
            active: true,
            is_pinned: false,
            site_type: "google".to_owned(),
            has_favicon: false,
            favicon: blank_icon,
            loading: false,
        },
    );
}

/// `j` is the first active tab of `s`.
pub open spec fn is_first_active<I>(s: Seq<TabInfo<I>>, j: int) -> bool {
    &&& 0 <= j < s.len()
    &&& s[j].active
    &&& forall|k: int| 0 <= k < j ==> !(#[trigger] s[k]).active
}

/// Whether any tab of `s` is active.
pub open spec fn any_active<I>(s: Seq<TabInfo<I>>) -> bool {
    exists|j: int| 0 <= j < s.len() && (#[trigger] s[j]).active
}

/// Closes the tab at `index`, unless it is the last tab left. Returns the
/// URL and title the window shows afterwards: those of the first active
/// tab, or, when the closed tab was the only active one, of the first tab,
/// which becomes active.
pub fn close_tab<I>(tabs: &mut Vec<TabInfo<I>>, index: usize) -> (current: Option<(String, String)>)
    requires
        old(tabs)@.len() > 1 ==> index < old(tabs)@.len(),
    ensures
        old(tabs)@.len() <= 1 ==> current is None && final(tabs)@ == old(tabs)@,
        old(tabs)@.len() > 1 ==> final(tabs)@.len() == old(tabs)@.len() - 1 && any_active(
            final(tabs)@,
        ),
        old(tabs)@.len() > 1 ==> {
            let rest = old(tabs)@.remove(index as int);
            &&& current matches Some((u, t))
            &&& if any_active(rest) {
                &&& final(tabs)@ == rest
                &&& exists|j: int|
                    is_first_active(rest, j) && u@ == rest[j].url@ && t@ == rest[j].title@
            } else {
                &&& final(tabs)@.len() == rest.len()
                &&& final(tabs)@[0].active
                &&& same_but_active(final(tabs)@[0], rest[0])
                &&& forall|k: int| 1 <= k < rest.len() ==> #[trigger] final(tabs)@[k] == rest[k]
                &&& u@ == rest[0].url@
                &&& t@ == rest[0].title@
            }
        },
{
    if tabs.len() <= 1 {
        return None;
    }
    tabs.remove(index);
    let ghost rest = tabs@;
    let n = tabs.len();
    let mut k: usize = 0;
    while k < n
        invariant
            tabs@ == rest,
            old(tabs)@.len() > 1,
            index < old(tabs)@.len(),
            rest == old(tabs)@.remove(index as int),
            n == rest.len(),
            k <= n,
            forall|m: int| 0 <= m < k ==> !(#[trigger] rest[m]).active,
        decreases n - k,
    {
        if tabs[k].active {
            let current = (tabs[k].url.clone(), tabs[k].title.clone());
            assert(is_first_active(rest, k as int));
            assert(any_active(rest));
            assert(tabs@.len() == old(tabs)@.len() - 1);
            assert(any_active(tabs@));
            return Some(current);
        }
        k = k + 1;
    }
    assert(!any_active(rest));
    tabs[0].active = true;
    assert(tabs@[0].active);
    Some((tabs[0].url.clone(), tabs[0].title.clone()))
}

/// Moves the tab at `from` to `to`; with an index out of range, or
/// `from == to`, nothing changes.
pub fn move_tab<I>(tabs: &mut Vec<TabInfo<I>>, from: usize, to: usize)
    ensures
        (from == to || from >= old(tabs)@.len() || to >= old(tabs)@.len()) ==> final(tabs)@
            == old(tabs)@,
        !(from == to || from >= old(tabs)@.len() || to >= old(tabs)@.len()) ==> final(tabs)@
            == moved(old(tabs)@, from as int, to as int),
{
    move_item(tabs, from, to);
}

/// The title shown for a page: its own, or "Untitled" when it has none.
pub fn page_title_or_untitled(title: Option<String>) -> (shown: String)
    ensures
        shown@ == match title {
            Some(t) => t@,
            None => UNTITLED@,
        },
{
    match title {
        Some(t) => t,
        None => UNTITLED.to_owned(),
    }
}

/// Gives the tab at `index` the title `title` (no effect when out of range).
pub fn set_title_at<I>(tabs: &mut Vec<TabInfo<I>>, index: usize, title: &str)
    ensures
        index >= old(tabs)@.len() ==> final(tabs)@ == old(tabs)@,
        index < old(tabs)@.len() ==> {
            &&& final(tabs)@.len() == old(tabs)@.len()
            &&& final(tabs)@[index as int].title@ == title@
            &&& final(tabs)@[index as int].url == old(tabs)@[index as int].url
            &&& final(tabs)@[index as int].site_type == old(tabs)@[index as int].site_type
            &&& same_but_text(final(tabs)@[index as int], old(tabs)@[index as int])
            &&& forall|k: int|
                0 <= k < old(tabs)@.len() && k != index ==> #[trigger] final(tabs)@[k] == old(
                    tabs,
                )@[k]
        },
{
    if index < tabs.len() {
        tabs[index].title = title.to_owned();
    }
}

/// The tab at `index` now shows `url`: its site type follows the URL and
/// its favicon is reset to `blank_icon` until the new page reports one (no
/// effect when out of range).
pub fn set_url_at<I>(tabs: &mut Vec<TabInfo<I>>, index: usize, url: &str, blank_icon: I)
    ensures
        index >= old(tabs)@.len() ==> final(tabs)@ == old(tabs)@,
        index < old(tabs)@.len() ==> {
            let (a, b) = (final(tabs)@[index as int], old(tabs)@[index as int]);
            &&& final(tabs)@.len() == old(tabs)@.len()
            &&& a.url@ == url@
            &&& a.site_type@ == site_type_for(lowercase(url@))
            &&& !a.has_favicon
            &&& a.favicon == blank_icon
            &&& a.id == b.id && a.title == b.title && a.active == b.active && a.is_pinned
                == b.is_pinned && a.loading == b.loading
            &&& forall|k: int|
                0 <= k < old(tabs)@.len() && k != index ==> #[trigger] final(tabs)@[k] == old(
                    tabs,
                )@[k]
        },
{
    if index < tabs.len() {
        let site_type = get_site_type(url);
        tabs[index].url = url.to_owned();
        tabs[index].site_type = site_type;
        tabs[index].has_favicon = false;
        tabs[index].favicon = blank_icon;
    }
}

/// Gives the tab at `index` the favicon `icon` (no effect when out of
/// range).
pub fn set_favicon_at<I>(tabs: &mut Vec<TabInfo<I>>, index: usize, icon: I)
    ensures
        index >= old(tabs)@.len() ==> final(tabs)@ == old(tabs)@,
        index < old(tabs)@.len() ==> {
            let (a, b) = (final(tabs)@[index as int], old(tabs)@[index as int]);
            &&& final(tabs)@.len() == old(tabs)@.len()
            &&& a.favicon == icon
            &&& a.has_favicon
            &&& a.id == b.id && a.title == b.title && a.url == b.url && a.active == b.active
                && a.is_pinned == b.is_pinned && a.site_type == b.site_type && a.loading
                == b.loading
            &&& forall|k: int|
                0 <= k < old(tabs)@.len() && k != index ==> #[trigger] final(tabs)@[k] == old(
                    tabs,
                )@[k]
        },
{
    if index < tabs.len() {
        tabs[index].favicon = icon;
        tabs[index].has_favicon = true;
    }
}

/// Sets the loading flag of every tab with this id. Returns whether any
/// tab's flag changed.
pub fn set_loading_by_id<I>(tabs: &mut Vec<TabInfo<I>>, id: i32, loading: bool) -> (changed: bool)
    ensures
        final(tabs)@.len() == old(tabs)@.len(),
        forall|i: int|
            0 <= i < old(tabs)@.len() ==> if old(tabs)@[i].id == id {
                &&& (#[trigger] final(tabs)@[i]).loading == loading
                &&& final(tabs)@[i].id == old(tabs)@[i].id
                &&& final(tabs)@[i].title == old(tabs)@[i].title
                &&& final(tabs)@[i].url == old(tabs)@[i].url
                &&& final(tabs)@[i].active == old(tabs)@[i].active
                &&& final(tabs)@[i].is_pinned == old(tabs)@[i].is_pinned
                &&& final(tabs)@[i].site_type == old(tabs)@[i].site_type
                &&& final(tabs)@[i].has_favicon == old(tabs)@[i].has_favicon
                &&& final(tabs)@[i].favicon == old(tabs)@[i].favicon
            } else {
                final(tabs)@[i] == old(tabs)@[i]
            },
        changed == exists|i: int|
            0 <= i < old(tabs)@.len() && (#[trigger] old(tabs)@[i]).id == id && old(tabs)@[i].loading
                != loading,
{
    let mut changed = false;
    let n = tabs.len();
    for i in 0..n
        invariant
            n == old(tabs)@.len(),
            tabs@.len() == n,
            forall|j: int|
                0 <= j < i ==> if old(tabs)@[j].id == id {
                    &&& (#[trigger] tabs@[j]).loading == loading
                    &&& tabs@[j].id == old(tabs)@[j].id
                    &&& tabs@[j].title == old(tabs)@[j].title
                    &&& tabs@[j].url == old(tabs)@[j].url
                    &&& tabs@[j].active == old(tabs)@[j].active
                    &&& tabs@[j].is_pinned == old(tabs)@[j].is_pinned
                    &&& tabs@[j].site_type == old(tabs)@[j].site_type
                    &&& tabs@[j].has_favicon == old(tabs)@[j].has_favicon
                    &&& tabs@[j].favicon == old(tabs)@[j].favicon
                } else {
                    tabs@[j] == old(tabs)@[j]
                },
            forall|j: int| i <= j < n ==> #[trigger] tabs@[j] == old(tabs)@[j],
            changed == exists|j: int|
                0 <= j < i && (#[trigger] old(tabs)@[j]).id == id && old(tabs)@[j].loading
                    != loading,
    {
        if tabs[i].id == id && tabs[i].loading != loading {
            tabs[i].loading = loading;
            changed = true;
        }
    }
    changed
}

/// What retitling the tabs of one id did.
pub struct Retitled {
    /// Some tab had the id.
    pub changed: bool,
    /// One of them was active, so the window's title follows.
    pub active_retitled: bool,
}

/// Gives every tab with this id the page title `title`; a blank title is
/// ignored.
pub fn set_title_by_id<I>(tabs: &mut Vec<TabInfo<I>>, id: i32, title: &str) -> (r: Retitled)
    ensures
        is_blank(title@) ==> final(tabs)@ == old(tabs)@ && !r.changed && !r.active_retitled,
        !is_blank(title@) ==> {
            &&& final(tabs)@.len() == old(tabs)@.len()
            &&& forall|i: int|
                0 <= i < old(tabs)@.len() ==> if old(tabs)@[i].id == id {
                    &&& (#[trigger] final(tabs)@[i]).title@ == title@
                    &&& final(tabs)@[i].url == old(tabs)@[i].url
                    &&& final(tabs)@[i].site_type == old(tabs)@[i].site_type
                    &&& same_but_text(final(tabs)@[i], old(tabs)@[i])
                } else {
                    final(tabs)@[i] == old(tabs)@[i]
                }
            &&& r.changed == exists|i: int|
                0 <= i < old(tabs)@.len() && (#[trigger] old(tabs)@[i]).id == id
            &&& r.active_retitled == exists|i: int|
                0 <= i < old(tabs)@.len() && (#[trigger] old(tabs)@[i]).id == id && old(
                    tabs,
                )@[i].active
        },
{
    let mut r = Retitled { changed: false, active_retitled: false };
    if is_blank_str(title) {
        return r;
    }
    let n = tabs.len();
    for i in 0..n
        invariant
            n == old(tabs)@.len(),
            tabs@.len() == n,
            forall|j: int|
                0 <= j < i ==> if old(tabs)@[j].id == id {
                    &&& (#[trigger] tabs@[j]).title@ == title@
                    &&& tabs@[j].url == old(tabs)@[j].url
                    &&& tabs@[j].site_type == old(tabs)@[j].site_type
                    &&& same_but_text(tabs@[j], old(tabs)@[j])
                } else {
                    tabs@[j] == old(tabs)@[j]
                },
            forall|j: int| i <= j < n ==> #[trigger] tabs@[j] == old(tabs)@[j],
            r.changed == exists|j: int| 0 <= j < i && (#[trigger] old(tabs)@[j]).id == id,
            r.active_retitled == exists|j: int|
                0 <= j < i && (#[trigger] old(tabs)@[j]).id == id && old(tabs)@[j].active,
    {
        if tabs[i].id == id {
            tabs[i].title = title.to_owned();
            if tabs[i].active {
                r.active_retitled = true;
            }
            r.changed = true;
        }
    }
    r
}

/// Gives every tab with this id a clone of `icon` as favicon. A fallback
/// icon (the site's root `/favicon.ico`) does not replace an icon the tab
/// already has. Returns whether any tab changed.
pub fn apply_favicon_by_id<I: Clone>(tabs: &mut Vec<TabInfo<I>>, id: i32, icon: &I, is_fallback: bool) -> (changed: bool)
    ensures
        final(tabs)@.len() == old(tabs)@.len(),
        forall|i: int|
            0 <= i < old(tabs)@.len() ==> if old(tabs)@[i].id == id && !(is_fallback && old(
                tabs,
            )@[i].has_favicon) {
                &&& vstd::pervasive::cloned(*icon, (#[trigger] final(tabs)@[i]).favicon)
                &&& final(tabs)@[i].has_favicon
                &&& final(tabs)@[i].id == old(tabs)@[i].id
                &&& final(tabs)@[i].title == old(tabs)@[i].title
                &&& final(tabs)@[i].url == old(tabs)@[i].url
                &&& final(tabs)@[i].active == old(tabs)@[i].active
                &&& final(tabs)@[i].is_pinned == old(tabs)@[i].is_pinned
                &&& final(tabs)@[i].site_type == old(tabs)@[i].site_type
                &&& final(tabs)@[i].loading == old(tabs)@[i].loading
            } else {
                final(tabs)@[i] == old(tabs)@[i]
            },
        changed == exists|i: int|
            0 <= i < old(tabs)@.len() && (#[trigger] old(tabs)@[i]).id == id && !(is_fallback
                && old(tabs)@[i].has_favicon),
{
    let mut changed = false;
    let n = tabs.len();
    for i in 0..n
        invariant
            n == old(tabs)@.len(),
            tabs@.len() == n,
            forall|j: int|
                0 <= j < i ==> if old(tabs)@[j].id == id && !(is_fallback
                    && old(tabs)@[j].has_favicon) {
                    &&& vstd::pervasive::cloned(*icon, (#[trigger] tabs@[j]).favicon)
                    &&& tabs@[j].has_favicon
                    &&& tabs@[j].id == old(tabs)@[j].id
                    &&& tabs@[j].title == old(tabs)@[j].title
                    &&& tabs@[j].url == old(tabs)@[j].url
                    &&& tabs@[j].active == old(tabs)@[j].active
                    &&& tabs@[j].is_pinned == old(tabs)@[j].is_pinned
                    &&& tabs@[j].site_type == old(tabs)@[j].site_type
                    &&& tabs@[j].loading == old(tabs)@[j].loading
                } else {
                    tabs@[j] == old(tabs)@[j]
                },
            forall|j: int| i <= j < n ==> #[trigger] tabs@[j] == old(tabs)@[j],
            changed == exists|j: int|
                0 <= j < i && (#[trigger] old(tabs)@[j]).id == id && !(is_fallback
                    && old(tabs)@[j].has_favicon),
    {
        if tabs[i].id == id {
            if !(is_fallback && tabs[i].has_favicon) {
                tabs[i].favicon = icon.clone();
                tabs[i].has_favicon = true;
                changed = true;
            }
        }
    }
    changed
}

} // verus!
