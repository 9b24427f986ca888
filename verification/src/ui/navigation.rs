//! What the address bar, the command bar and the download trigger make of
//! what the user typed or clicked.
use vstd::prelude::*;

use crate::shields::url_blocked;
use crate::shields::ShieldsEngine;
use crate::text::chars_of;
use crate::text::contains_char;
use crate::text::has_prefix;
use crate::text::trim;
use crate::text::trimmed;
use crate::web_url::form_urlencode;
use crate::web_url::form_urlencoded;

verus! {

broadcast use vstd::string::group_string_axioms;

/// Local search page that receives free-text address bar input.
pub const SEARCH_PAGE_PREFIX: &'static str = "http://127.0.0.1:8089/static/custom-ui/index.html?q=";

/// Search engine used by the command bar.
pub const COMMAND_SEARCH_PREFIX: &'static str = "https://duckduckgo.com/?q=";

/// Title shown when shields block a navigation.
pub const BLOCKED_TITLE: &'static str = "Blocked by Shields";

/// Input that already carries a scheme the browser loads as is.
pub open spec fn has_load_scheme(s: Seq<char>) -> bool {
    "http://"@.is_prefix_of(s) || "https://"@.is_prefix_of(s) || "file://"@.is_prefix_of(s)
}

/// Input that looks like a bare domain: it has a dot and no space.
pub open spec fn looks_like_domain(s: Seq<char>) -> bool {
    s.contains('.') && !s.contains(' ')
}

/// The URL the address bar loads for `input`: the trimmed input when it has
/// a scheme, `https://` in front of it when it looks like a domain, and a
/// search for it otherwise.
pub open spec fn cleaned_url(input: Seq<char>) -> Seq<char> {
    let t = trimmed(input);
    if has_load_scheme(t) {
        t
    } else if looks_like_domain(t) {
        "https://"@ + t
    } else {
        SEARCH_PAGE_PREFIX@ + form_urlencode(vstd::utf8::encode_utf8(t))
    }
}

/// Turns address bar input into the URL to load.
pub fn clean_url_input(input: &str) -> (url: String)
    ensures
        url@ == cleaned_url(input@),
{
    let t = trim(input);
    let tc = chars_of(t);
    if has_prefix(&tc, &chars_of("http://")) || has_prefix(&tc, &chars_of("https://"))
        || has_prefix(&tc, &chars_of("file://")) {
        return t.to_owned();
    }
    if contains_char(&tc, '.') && !contains_char(&tc, ' ') {
        let mut url = "https://".to_owned();
        url.append(t);
        return url;
    }
    let encoded = form_urlencoded(t);
    let mut url = SEARCH_PAGE_PREFIX.to_owned();
    url.append(encoded.as_str());
    url
}

/// Where the command bar goes and what the tab shows meanwhile.
pub struct CommandBarTarget {
    pub url: String,
    pub title: String,
}

/// Input with an `http://` or `https://` scheme.
pub open spec fn has_http_scheme(s: Seq<char>) -> bool {
    "http://"@.is_prefix_of(s) || "https://"@.is_prefix_of(s)
}

/// The command bar's target for `query`: the trimmed query itself when it
/// is an http(s) URL, a search for it otherwise.
pub open spec fn command_target_url(query: Seq<char>) -> Seq<char> {
    let q = trimmed(query);
    if has_http_scheme(q) {
        q
    } else {
        COMMAND_SEARCH_PREFIX@ + q
    }
}

/// The title shown while the command bar's target loads.
pub open spec fn command_target_title(query: Seq<char>) -> Seq<char> {
    let q = trimmed(query);
    if has_http_scheme(q) {
        "Loading - "@ + q
    } else {
        "Search - "@ + q
    }
}

/// What a submitted command bar query leads to.
pub fn command_bar_submit(query: &str) -> (target: CommandBarTarget)
    ensures
        target.url@ == command_target_url(query@),
        target.title@ == command_target_title(query@),
{
    let q = trim(query);
    let qc = chars_of(q);
    if has_prefix(&qc, &chars_of("http://")) || has_prefix(&qc, &chars_of("https://")) {
        let mut title = "Loading - ".to_owned();
        title.append(q);
        CommandBarTarget { url: q.to_owned(), title }
    } else {
        let mut url = COMMAND_SEARCH_PREFIX.to_owned();
        url.append(q);
        let mut title = "Search - ".to_owned();
        title.append(q);
        CommandBarTarget { url, title }
    }
}

/// The part of `s` after its last `/` (all of `s` when it has none).
pub open spec fn after_last_slash(s: Seq<char>) -> Seq<char>
    decreases s.len(),
{
    if s.len() == 0 {
        s
    } else if s.last() == '/' {
        Seq::empty()
    } else {
        after_last_slash(s.drop_last()).push(s.last())
    }
}

/// The file name a download of `url` is saved under: the text after the
/// URL's last `/`.
pub fn download_filename(url: &str) -> (name: String)
    ensures
        name@ == after_last_slash(url@),
{
    let cs = chars_of(url);
    let n = cs.len();
    let mut k: usize = n;
    assert(url@.subrange(0, n as int) =~= url@);
    assert(url@.subrange(n as int, n as int) =~= Seq::<char>::empty());
    while k > 0 && cs[k - 1] != '/'
        invariant
            cs@ == url@,
            n == cs.len(),
            k <= n,
            after_last_slash(url@) == after_last_slash(url@.subrange(0, k as int))
                + url@.subrange(k as int, n as int),
        decreases k,
    {
        proof {
            let pre = url@.subrange(0, k as int);
            assert(pre.drop_last() =~= url@.subrange(0, k - 1));
            assert(pre.last() == url@[k - 1]);
            assert(url@.subrange(k - 1, n as int) =~= seq![url@[k - 1]] + url@.subrange(k as int, n as int));
            assert(after_last_slash(pre) == after_last_slash(url@.subrange(0, k - 1)).push(url@[k - 1]));
            assert(after_last_slash(url@.subrange(0, k - 1)).push(url@[k - 1]) + url@.subrange(k as int, n as int)
                =~= after_last_slash(url@.subrange(0, k - 1)) + url@.subrange(k - 1, n as int));
        }
        k = k - 1;
    }
    proof {
        let pre = url@.subrange(0, k as int);
        if k > 0 {
            assert(pre.last() == url@[k - 1]);
        } else {
            assert(pre =~= Seq::<char>::empty());
        }
        assert(Seq::<char>::empty() + url@.subrange(k as int, n as int) =~= url@.subrange(k as int, n as int));
    }
    url.substring_char(k, n).to_owned()
}

/// What happens when the address bar navigates.
pub enum NavigationOutcome {
    /// Shields refused the URL; the tab shows `title` and nothing loads.
    Blocked { url: String, title: String },
    /// The URL loads, is recorded in the history with `title`, and the tab
    /// shows that title.
    Visit { url: String, title: String },
}

/// Plans a navigation from address bar `input` under `shields`.
pub fn plan_navigation(input: &str, shields: &ShieldsEngine) -> (outcome: NavigationOutcome)
    ensures
        match outcome {
            NavigationOutcome::Blocked { url, title } => {
                &&& url@ == cleaned_url(input@)
                &&& url_blocked(shields@.blocked, shields@.enabled, url@)
                &&& title@ == BLOCKED_TITLE@
            },
            NavigationOutcome::Visit { url, title } => {
                &&& url@ == cleaned_url(input@)
                &&& !url_blocked(shields@.blocked, shields@.enabled, url@)
                &&& title@ == "Webpage - "@ + url@
            },
        },
{
    let url = clean_url_input(input);
    if shields.should_block(url.as_str()) {
        NavigationOutcome::Blocked { url, title: BLOCKED_TITLE.to_owned() }
    } else {
        let mut title = "Webpage - ".to_owned();
        title.append(url.as_str());
        NavigationOutcome::Visit { url, title }
    }
}

/// Address bar input whose trimmed text has a dot, no space, and none of the
/// schemes `http://`, `https://`, `file://` in front is loaded as
/// `https://` followed by that text, whatever it starts with (a domain or
/// an IP address).
pub proof fn lemma_dotted_input_loads_over_https(input: Seq<char>)
    requires
        exists|i: int| 0 <= i < trimmed(input).len() && trimmed(input)[i] == '.',
        forall|i: int| 0 <= i < trimmed(input).len() ==> trimmed(input)[i] != ' ',
        !"http://"@.is_prefix_of(trimmed(input)),
        !"https://"@.is_prefix_of(trimmed(input)),
        !"file://"@.is_prefix_of(trimmed(input)),
    ensures
        cleaned_url(input) == "https://"@ + trimmed(input),
{
    let t = trimmed(input);
    let i = choose|i: int| 0 <= i < t.len() && t[i] == '.';
    assert(t.contains('.'));
    assert(!t.contains(' '));
}

/// Address bar input whose trimmed text starts with `http://`, `https://`
/// or `file://` is loaded exactly as typed, without the surrounding white
/// space.
pub proof fn lemma_input_with_scheme_loads_as_typed(input: Seq<char>)
    requires
        "http://"@.is_prefix_of(trimmed(input)) || "https://"@.is_prefix_of(trimmed(input))
            || "file://"@.is_prefix_of(trimmed(input)),
    ensures
        cleaned_url(input) == trimmed(input),
{
}

/// Address bar input without a scheme that has a space in it, or no dot,
/// goes to the local search page, form-encoded.
pub proof fn lemma_other_input_is_searched(input: Seq<char>)
    requires
        !"http://"@.is_prefix_of(trimmed(input)),
        !"https://"@.is_prefix_of(trimmed(input)),
        !"file://"@.is_prefix_of(trimmed(input)),
        (exists|i: int| 0 <= i < trimmed(input).len() && trimmed(input)[i] == ' ') || (forall|i: int|
            0 <= i < trimmed(input).len() ==> trimmed(input)[i] != '.'),
    ensures
        cleaned_url(input) == "http://127.0.0.1:8089/static/custom-ui/index.html?q="@ + form_urlencode(
            vstd::utf8::encode_utf8(trimmed(input)),
        ),
{
    let t = trimmed(input);
    if exists|i: int| 0 <= i < t.len() && t[i] == ' ' {
        let i = choose|i: int| 0 <= i < t.len() && t[i] == ' ';
        assert(t.contains(' '));
    } else {
        assert(!t.contains('.'));
    }
}

/// A command bar query whose trimmed text starts with `http://` or
/// `https://` is loaded as that text, with the title `Loading - ` and the
/// text; any other query is searched on DuckDuckGo with the title
/// `Search - ` and the text.
pub proof fn lemma_command_bar_loads_http_urls(query: Seq<char>)
    ensures
        ("http://"@.is_prefix_of(trimmed(query)) || "https://"@.is_prefix_of(trimmed(query)))
            ==> command_target_url(query) == trimmed(query) && command_target_title(query)
            == "Loading - "@ + trimmed(query),
        !("http://"@.is_prefix_of(trimmed(query)) || "https://"@.is_prefix_of(trimmed(query)))
            ==> command_target_url(query) == "https://duckduckgo.com/?q="@ + trimmed(query)
            && command_target_title(query) == "Search - "@ + trimmed(query),
{
}

/// The download file name is the URL's last segment: the URL is some prefix
/// followed by the name, the name has no `/`, and when the prefix is not
/// empty it ends with `/`.
pub proof fn lemma_file_name_is_last_segment(url: Seq<char>)
    ensures
        after_last_slash(url).len() <= url.len(),
        url == url.subrange(0, url.len() - after_last_slash(url).len()) + after_last_slash(url),
        forall|i: int| 0 <= i < after_last_slash(url).len() ==> after_last_slash(url)[i] != '/',
        url.len() > after_last_slash(url).len() ==> url[url.len() - after_last_slash(url).len()
            - 1] == '/',
    decreases url.len(),
{
    let name = after_last_slash(url);
    if url.len() == 0 {
        assert(url.subrange(0, 0) + name =~= url);
    } else if url.last() == '/' {
        assert(url.subrange(0, url.len() as int) + name =~= url);
    } else {
        let d = url.drop_last();
        lemma_file_name_is_last_segment(d);
        let nd = after_last_slash(d);
        assert(name == nd.push(url.last()));
        assert(url.subrange(0, url.len() - name.len()) =~= d.subrange(0, d.len() - nd.len()));
        assert(url =~= d.push(url.last()));
        assert(d.subrange(0, d.len() - nd.len()) + nd.push(url.last()) =~= (d.subrange(
            0,
            d.len() - nd.len(),
        ) + nd).push(url.last()));
        assert forall|i: int| 0 <= i < name.len() implies name[i] != '/' by {
            if i < nd.len() {
                assert(name[i] == nd[i]);
            }
        }
        if url.len() > name.len() {
            assert(url[url.len() - name.len() - 1] == d[d.len() - nd.len() - 1]);
        }
    }
}

} // verus!
