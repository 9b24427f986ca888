//! JavaScript polyfills injected into every page. Each polyfill is its own
//! source text; they are concatenated into one bundle in a fixed order:
//! foundational primitives first, then the observer APIs, then the DOM and
//! global API patches, then the per-domain rules dispatcher.
use vstd::prelude::*;

verus! {

broadcast use vstd::string::group_string_axioms;

/// First line of every bundle.
pub const BUNDLE_HEADER: &'static str = "// === foe compat polyfills (injected by browser-core::compat) ===";

/// The source texts that make up the bundle.
pub struct PolyfillSources {
    pub queue_microtask: String,
    pub structured_clone: String,
    pub abort_controller: String,
    pub request_idle_callback: String,
    pub intersection_observer: String,
    pub resize_observer: String,
    pub svg_a_element: String,
    pub web_animations: String,
    pub dialog_element: String,
    pub custom_elements: String,
    pub pointer_events: String,
    pub crypto_random_uuid: String,
    pub url_can_parse: String,
    /// The per-domain rules dispatcher, always appended after the polyfills.
    pub site_rules_dispatcher: String,
    /// The opt-in DevTools loader.
    pub eruda_devtools: String,
}

/// The source texts, by their views.
pub struct PolyfillTexts {
    pub polyfills: Seq<Seq<char>>,
    pub site_rules_dispatcher: Seq<char>,
    pub eruda_devtools: Seq<char>,
}

impl View for PolyfillSources {
    type V = PolyfillTexts;

    open spec fn view(&self) -> PolyfillTexts {
        PolyfillTexts {
            polyfills: seq![
                self.queue_microtask@,
                self.structured_clone@,
                self.abort_controller@,
                self.request_idle_callback@,
                self.intersection_observer@,
                self.resize_observer@,
                self.svg_a_element@,
                self.web_animations@,
                self.dialog_element@,
                self.custom_elements@,
                self.pointer_events@,
                self.crypto_random_uuid@,
                self.url_can_parse@,
            ],
            site_rules_dispatcher: self.site_rules_dispatcher@,
            eruda_devtools: self.eruda_devtools@,
        }
    }
}

/// `parts` joined with a newline between each two.
pub open spec fn join_lines(parts: Seq<Seq<char>>) -> Seq<char>
    decreases parts.len(),
{
    if parts.len() == 0 {
        Seq::empty()
    } else if parts.len() == 1 {
        parts[0]
    } else {
        join_lines(parts.drop_last()) + seq!['\n'] + parts.last()
    }
}

/// The bundle: the header and the polyfills in load order, one per line,
/// then the dispatcher, then (when enabled) the DevTools loader.
pub open spec fn bundle_text(texts: PolyfillTexts, eruda_enabled: bool) -> Seq<char> {
    let core = join_lines(seq![BUNDLE_HEADER@] + texts.polyfills) + seq!['\n']
        + texts.site_rules_dispatcher;
    if eruda_enabled {
        core + seq!['\n'] + texts.eruda_devtools
    } else {
        core
    }
}

/// Appends `parts`, newline-separated, to an empty string.
fn join_with_newlines(parts: &Vec<&str>) -> (out: String)
    ensures
        out@ == join_lines(parts@.map_values(|p: &str| p@)),
{
    let mut out = String::new();
    let ghost views = parts@.map_values(|p: &str| p@);
    proof {
        reveal_strlit("\n");
    }
    for i in 0..parts.len()
        invariant
            views == parts@.map_values(|p: &str| p@),
            out@ == join_lines(views.take(i as int)),
    {
        proof {
            reveal_strlit("\n");
            assert(views.take(i + 1).drop_last() =~= views.take(i as int));
            assert(views.take(i + 1).last() == parts@[i as int]@);
            if i == 0 {
                assert(views.take(1) =~= seq![parts@[0]@]);
            }
        }
        if i != 0 {
            out.append("\n");
        }
        out.append(parts[i]);
    }
    assert(views.take(parts.len() as int) =~= views);
    out
}

/// The full polyfill bundle, ready to register as a user script.
pub fn bundle(sources: &PolyfillSources, eruda_enabled: bool) -> (js: String)
    ensures
        js@ == bundle_text(sources@, eruda_enabled),
{
    let mut parts: Vec<&str> = Vec::new();
    parts.push(BUNDLE_HEADER);
    parts.push(sources.queue_microtask.as_str());
    parts.push(sources.structured_clone.as_str());
    parts.push(sources.abort_controller.as_str());
    parts.push(sources.request_idle_callback.as_str());
    parts.push(sources.intersection_observer.as_str());
    parts.push(sources.resize_observer.as_str());
    parts.push(sources.svg_a_element.as_str());
    parts.push(sources.web_animations.as_str());
    parts.push(sources.dialog_element.as_str());
    parts.push(sources.custom_elements.as_str());
    parts.push(sources.pointer_events.as_str());
    parts.push(sources.crypto_random_uuid.as_str());
    parts.push(sources.url_can_parse.as_str());
    let mut out = join_with_newlines(&parts);
    assert(parts@.map_values(|p: &str| p@) =~= seq![BUNDLE_HEADER@] + sources@.polyfills);
    proof {
        reveal_strlit("\n");
    }
    out.append("\n");
    out.append(sources.site_rules_dispatcher.as_str());
    if eruda_enabled {
        out.append("\n");
        out.append(sources.eruda_devtools.as_str());
    }
    out
}

/// Turning the DevTools loader on only appends to the bundle: the bundle
/// without it is a prefix of the bundle with it.
pub proof fn lemma_eruda_only_appends(texts: PolyfillTexts)
    ensures
        bundle_text(texts, true) == bundle_text(texts, false) + seq!['\n'] + texts.eruda_devtools,
        bundle_text(texts, false).is_prefix_of(bundle_text(texts, true)),
{
    let a = bundle_text(texts, false);
    let b = bundle_text(texts, true);
    assert(b.subrange(0, a.len() as int) =~= a);
}

} // verus!
