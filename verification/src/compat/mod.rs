//! Web-compatibility shim layer on top of the rendering engine: the user
//! agent string presented to servers, the switches that turn the shims off,
//! the JavaScript polyfill bundle and the per-domain rules.
//!
//! The switches come from the environment (`FOE_USER_AGENT`,
//! `FOE_DISABLE_POLYFILLS`, `FOE_DISABLE_BASELINE_CSS`, `FOE_DISABLE_COMPAT`);
//! the functions here take the variables' values, as read by the caller.
pub mod polyfills;
pub mod site_rules;

use vstd::prelude::*;

use crate::text::is_blank;
use crate::text::is_blank_str;
use crate::text::same_text;

verus! {

broadcast use vstd::string::group_string_axioms;

/// Chrome 131 desktop UA on macOS. Many sites sniff the UA and serve a
/// stripped-down markup to agents they do not recognise.
pub const DESKTOP_UA: &'static str = "Mozilla/5.0 (Macintosh; Intel Mac OS X 10_15_7) \
                              AppleWebKit/537.36 (KHTML, like Gecko) \
                              Chrome/131.0.0.0 Safari/537.36";

/// The UA string chosen from the override's value: the override when it is
/// set and not blank, the desktop UA otherwise.
pub open spec fn chosen_user_agent(override_value: Option<Seq<char>>) -> Seq<char> {
    match override_value {
        Some(v) if !is_blank(v) => v,
        _ => DESKTOP_UA@,
    }
}

/// The values of a switch variable that turn it on.
pub open spec fn is_flag_on(value: Seq<char>) -> bool {
    ||| value == "1"@
    ||| value == "true"@
    ||| value == "TRUE"@
    ||| value == "yes"@
    ||| value == "YES"@
}

/// A switch variable with this value (`None`: unset) is on.
pub open spec fn flag_set(value: Option<Seq<char>>) -> bool {
    value matches Some(v) && is_flag_on(v)
}

/// The view of an optional string argument.
pub open spec fn opt_view(value: Option<&str>) -> Option<Seq<char>> {
    match value {
        Some(v) => Some(v@),
        None => None,
    }
}

/// The UA string presented to remote servers, given the value of
/// `FOE_USER_AGENT` (`None` when unset): that value unless it is blank,
/// [`DESKTOP_UA`] otherwise.
pub fn user_agent(override_value: Option<&str>) -> (ua: String)
    ensures
        ua@ == chosen_user_agent(opt_view(override_value)),
{
    match override_value {
        Some(v) => {
            if !is_blank_str(v) {
                return v.to_owned();
            }
        },
        None => {},
    }
    DESKTOP_UA.to_owned()
}

/// Whether a switch variable with this value is on: `1`, `true`, `TRUE`,
/// `yes` or `YES`.
pub fn env_flag(value: Option<&str>) -> (on: bool)
    ensures
        on == flag_set(opt_view(value)),
{
    match value {
        Some(v) => same_text(v, "1") || same_text(v, "true") || same_text(v, "TRUE") || same_text(
            v,
            "yes",
        ) || same_text(v, "YES"),
        None => false,
    }
}

/// True when the polyfill bundle is to be skipped: `FOE_DISABLE_POLYFILLS`
/// or the umbrella `FOE_DISABLE_COMPAT` is on.
pub fn polyfills_disabled(disable_polyfills: Option<&str>, disable_compat: Option<&str>) -> (off: bool)
    ensures
        off == (flag_set(opt_view(disable_polyfills)) || flag_set(opt_view(disable_compat))),
{
    env_flag(disable_polyfills) || env_flag(disable_compat)
}

/// True when the baseline stylesheet is to be skipped:
/// `FOE_DISABLE_BASELINE_CSS` or the umbrella `FOE_DISABLE_COMPAT` is on.
pub fn baseline_css_disabled(disable_baseline_css: Option<&str>, disable_compat: Option<&str>) -> (off: bool)
    ensures
        off == (flag_set(opt_view(disable_baseline_css)) || flag_set(opt_view(disable_compat))),
{
    env_flag(disable_baseline_css) || env_flag(disable_compat)
}

/// The JavaScript polyfill bundle built from `sources`; the DevTools loader
/// is appended only when `eruda_enabled`.
pub fn polyfill_bundle(sources: &polyfills::PolyfillSources, eruda_enabled: bool) -> (js: String)
    ensures
        js@ == polyfills::bundle_text(sources@, eruda_enabled),
{
    polyfills::bundle(sources, eruda_enabled)
}

/// The umbrella switch turns both polyfills and the baseline stylesheet off,
/// whatever the specific switches say.
pub proof fn lemma_compat_switch_disables_both(
    disable_polyfills: Option<Seq<char>>,
    disable_baseline_css: Option<Seq<char>>,
    disable_compat: Option<Seq<char>>,
)
    requires
        flag_set(disable_compat),
    ensures
        flag_set(disable_polyfills) || flag_set(disable_compat),
        flag_set(disable_baseline_css) || flag_set(disable_compat),
{
}

} // verus!
