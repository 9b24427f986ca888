//! Engine-side decisions that do not touch the engine itself: which tabs
//! get a web view, what a page-load notification leads to, and what a
//! page's favicon report carries.
use vstd::prelude::*;

use crate::text::chars_of;
use crate::text::has_prefix;
use crate::ui::site::is_native;
use crate::ui::site::is_native_url;
use crate::web_url::parse_url;
use crate::web_url::parsed_url_host;

verus! {

broadcast use vstd::string::group_string_axioms;

/// Title of a tab rendered by the browser itself.
pub const NATIVE_TAB_TITLE: &'static str = "Google";

/// Title of a web tab before its page reports one.
pub const WEB_TAB_TITLE: &'static str = "New Tab";

/// How a new tab is opened.
pub enum TabPlan {
    /// Shown by the browser itself, with no web view until it navigates.
    Native { url: String },
    /// Loaded in a web view.
    Web { url: String },
}

/// How the rendering engine opens a tab for `url`: natively for the
/// browser's own pages, as the new-tab page for input that is not a URL,
/// in a web view otherwise.
pub fn plan_tab(url: &str) -> (plan: TabPlan)
    ensures
        is_native(url@) ==> (plan matches TabPlan::Native { url: u } && u@ == url@),
        !is_native(url@) && parsed_url_host(url@) is None ==> (plan matches TabPlan::Native {
            url: u,
        } && u@ == crate::ui::tabs::NEW_TAB_URL@),
        !is_native(url@) && parsed_url_host(url@) is Some ==> (plan matches TabPlan::Web {
            url: u,
        } && u@ == url@),
{
    let parses = parse_url(url).is_some();
    plan_tab_for(url, parses)
}

/// How a tab for `url` is opened, given whether `url` parses as a URL.
pub fn plan_tab_for(url: &str, parses: bool) -> (plan: TabPlan)
    ensures
        is_native(url@) ==> (plan matches TabPlan::Native { url: u } && u@ == url@),
        !is_native(url@) && !parses ==> (plan matches TabPlan::Native { url: u } && u@
            == crate::ui::tabs::NEW_TAB_URL@),
        !is_native(url@) && parses ==> (plan matches TabPlan::Web { url: u } && u@ == url@),
{
    if is_native_url(url) {
        TabPlan::Native { url: url.to_owned() }
    } else if !parses {
        TabPlan::Native { url: crate::ui::tabs::NEW_TAB_URL.to_owned() }
    } else {
        TabPlan::Web { url: url.to_owned() }
    }
}

/// The text after the first newline of `s` (empty when there is none).
pub open spec fn after_first_newline(s: Seq<char>) -> Seq<char>
    decreases s.len(),
{
    if s.len() == 0 {
        s
    } else if s[0] == '\n' {
        s.drop_first()
    } else {
        after_first_newline(s.drop_first())
    }
}

/// The favicon URL a page reports in a message
/// `"favicon\n<host>\n<favicon-url>"`; `None` for other messages and when
/// the URL part is missing or empty.
pub open spec fn reported_favicon(body: Seq<char>) -> Option<Seq<char>> {
    if "favicon\n"@.is_prefix_of(body) {
        let fav = after_first_newline(body.skip(8));
        if fav.len() > 0 {
            Some(fav)
        } else {
            None
        }
    } else {
        None
    }
}

/// Reads the favicon URL out of a page's message.
pub fn parse_favicon_message(body: &str) -> (fav: Option<String>)
    ensures
        match fav {
            Some(f) => reported_favicon(body@) == Some(f@),
            None => reported_favicon(body@) is None,
        },
{
    proof {
        reveal_strlit("favicon\n");
    }
    let cs = chars_of(body);
    if !has_prefix(&cs, &chars_of("favicon\n")) {
        return None;
    }
    let n = cs.len();
    let mut k: usize = 8;
    assert(body@.skip(8) =~= body@.subrange(8, n as int));
    while k < n && cs[k] != '\n'
        invariant
            cs@ == body@,
            n == cs.len(),
            8 <= k <= n,
            after_first_newline(body@.skip(8)) == after_first_newline(body@.subrange(k as int, n as int)),
        decreases n - k,
    {
        proof {
            let t = body@.subrange(k as int, n as int);
            assert(t.drop_first() =~= body@.subrange(k + 1, n as int));
        }
        k = k + 1;
    }
    if k == n {
        assert(body@.subrange(k as int, n as int) =~= Seq::<char>::empty());
        return None;
    }
    proof {
        let t = body@.subrange(k as int, n as int);
        assert(t.drop_first() =~= body@.subrange(k + 1, n as int));
    }
    if k + 1 == n {
        assert(body@.subrange(k + 1, n as int) =~= Seq::<char>::empty());
        return None;
    }
    Some(body.substring_char(k + 1, n).to_owned())
}

/// What the `url` crate makes of `reference` resolved against `base`:
/// `Url::parse(base)`, then `Url::join(reference)`, then the resulting URL's
/// string form; `None` when parsing or joining fails.
pub uninterp spec fn resolved_url(base: Seq<char>, reference: Seq<char>) -> Option<Seq<char>>;

/// Resolves `reference` against `base` with `url::Url::parse`,
/// `Url::join` and `to_string`. The contract claims only that the result is
/// the one named by `resolved_url`.
#[verifier::external_body]
fn resolve_url(base: &str, reference: &str) -> (r: Option<String>)
    ensures
        match r {
            Some(u) => resolved_url(base@, reference@) == Some(u@),
            None => resolved_url(base@, reference@) is None,
        },
{
    match url::Url::parse(base) {
        Ok(u) => u.join(reference).ok().map(|j| j.to_string()),
        Err(_) => None,
    }
}

/// Where a page's fallback icon is looked for: the root of its site.
pub const FALLBACK_FAVICON_PATH: &'static str = "/favicon.ico";

/// The fallback favicon URL of `page`: `/favicon.ico` resolved against it.
pub open spec fn root_favicon_url(page: Seq<char>) -> Option<Seq<char>> {
    resolved_url(page, "/favicon.ico"@)
}

/// The URL of `page_url`'s fallback favicon, `/favicon.ico` at the root of
/// its site; `None` when `page_url` is not a URL it can be resolved against.
pub fn root_favicon(page_url: &str) -> (fav: Option<String>)
    ensures
        match fav {
            Some(f) => root_favicon_url(page_url@) == Some(f@),
            None => root_favicon_url(page_url@) is None,
        },
{
    resolve_url(page_url, FALLBACK_FAVICON_PATH)
}

/// A web view's page-load notification.
pub enum PageLoadEvent {
    Started,
    Finished,
}

/// What a page-load notification leads to.
pub struct PageLoadActions {
    /// The tab's new loading flag.
    pub loading: bool,
    /// A fallback favicon to fetch once the page has loaded.
    pub fetch_favicon: Option<String>,
}

/// A page that starts loading shows the spinner; one that finished stops
/// it and has its root favicon fetched, when the URL allows one.
pub fn page_load_actions(event: PageLoadEvent, page_url: &str) -> (a: PageLoadActions)
    ensures
        event is Started ==> a.loading && a.fetch_favicon is None,
        event is Finished ==> !a.loading && match a.fetch_favicon {
            Some(f) => root_favicon_url(page_url@) == Some(f@),
            None => root_favicon_url(page_url@) is None,
        },
{
    match event {
        PageLoadEvent::Started => PageLoadActions { loading: true, fetch_favicon: None },
        PageLoadEvent::Finished => PageLoadActions {
            loading: false,
            fetch_favicon: root_favicon(page_url),
        },
    }
}

} // verus!
