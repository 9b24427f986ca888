//! Classification of URLs: which tab icon a page gets, and which URLs the
//! browser renders itself.
use vstd::prelude::*;

use crate::text::chars_of;
use crate::text::contains_seq;
use crate::text::occurs_in;
use crate::text::same_text;

verus! {

broadcast use vstd::string::group_string_axioms;

/// What `str::to_lowercase` gives for `s`: its full Unicode lowercase
/// mapping.
pub uninterp spec fn lowercase(s: Seq<char>) -> Seq<char>;

/// Lowercases `s` with `str::to_lowercase`. The contract claims only that
/// the result is the one named by `lowercase`.
#[verifier::external_body]
fn to_lowercase(s: &str) -> (lower: String)
    ensures
        lower@ == lowercase(s@),
{
    s.to_lowercase()
}

/// A lowercased URL that gets the search engine's tab look.
pub open spec fn looks_like_search_home(lower: Seq<char>) -> bool {
    ||| occurs_in("google.com"@, lower)
    ||| occurs_in("google"@, lower)
    ||| lower == "about:newtab"@
}

/// The site type for an already lowercased URL.
pub open spec fn site_type_for(lower: Seq<char>) -> Seq<char> {
    if looks_like_search_home(lower) {
        "google"@
    } else {
        "generic"@
    }
}

/// The site type of an already lowercased URL: `"google"` when it names
/// the search engine or is the new-tab page, `"generic"` otherwise.
pub fn site_type_of_lowercase(lower: &str) -> (kind: String)
    ensures
        kind@ == site_type_for(lower@),
{
    let l = chars_of(lower);
    let a = chars_of("google.com");
    let b = chars_of("google");
    if contains_seq(&l, &a) || contains_seq(&l, &b) || same_text(lower, "about:newtab") {
        "google".to_owned()
    } else {
        "generic".to_owned()
    }
}

/// The site type shown for a tab at `url`: the classification of its
/// lowercase form.
pub fn get_site_type(url: &str) -> (kind: String)
    ensures
        kind@ == site_type_for(lowercase(url@)),
{
    let lower = to_lowercase(url);
    site_type_of_lowercase(lower.as_str())
}

/// URLs the browser shows itself, without a web view.
pub open spec fn is_native(url: Seq<char>) -> bool {
    url == "about:newtab"@ || url == "about:blank"@ || url.len() == 0
}

/// Whether the browser renders `url` itself (new-tab and blank pages).
pub fn is_native_url(url: &str) -> (native: bool)
    ensures
        native == is_native(url@),
{
    same_text(url, "about:newtab") || same_text(url, "about:blank") || url.is_empty()
}

} // verus!
