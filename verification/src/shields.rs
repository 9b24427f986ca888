//! Host-based ad and tracker blocking.
use vstd::prelude::*;

use crate::compat::site_rules::domain_matches;
use crate::compat::site_rules::host_matches;
use crate::web_url::parse_url;
use crate::web_url::parsed_url_host;

verus! {

broadcast use vstd::string::group_string_axioms;

/// `host` is the blocked domain itself or ends with `"." + domain`.
pub open spec fn blocks_host(host: Seq<char>, domain: Seq<char>) -> bool {
    host == domain || (seq!['.'] + domain).is_suffix_of(host)
}

/// A host is blocked when blocking is on and one of the blocked domains
/// covers it.
pub open spec fn host_blocked(blocked: Seq<Seq<char>>, enabled: bool, host: Seq<char>) -> bool {
    &&& enabled
    &&& exists|i: int| 0 <= i < blocked.len() && blocks_host(host, #[trigger] blocked[i])
}

/// A URL is blocked when it has a host and that host is blocked.
pub open spec fn url_blocked(blocked: Seq<Seq<char>>, enabled: bool, url: Seq<char>) -> bool {
    parsed_url_host(url) matches Some(Some(h)) && host_blocked(blocked, enabled, h)
}

/// The abstract state of a shields engine.
pub struct ShieldsState {
    /// The blocked domains, each once.
    pub blocked: Seq<Seq<char>>,
    /// Whether blocking is on.
    pub enabled: bool,
}

/// The domains a fresh engine blocks.
pub open spec fn default_blocklist() -> Seq<Seq<char>> {
    seq![
        "doubleclick.net"@,
        "google-analytics.com"@,
        "ads.youtube.com"@,
        "adservice.google.com"@,
    ]
}

/// Host-based blocking of ads and trackers.
pub struct ShieldsEngine {
    blocked_domains: Vec<String>,
    enabled: bool,
}

impl View for ShieldsEngine {
    type V = ShieldsState;

    closed spec fn view(&self) -> ShieldsState {
        ShieldsState {
            blocked: self.blocked_domains@.map_values(|d: String| d@),
            enabled: self.enabled,
        }
    }
}

/// `"." + domain` ends `host` exactly when `host` is longer than `domain`,
/// ends with it, and has a dot just before it.
proof fn lemma_dotted_suffix(host: Seq<char>, domain: Seq<char>)
    ensures
        (seq!['.'] + domain).is_suffix_of(host) <==> (host.len() > domain.len()
            && domain.is_suffix_of(host) && host[host.len() - domain.len() - 1] == '.'),
{
    let dotted = seq!['.'] + domain;
    if dotted.is_suffix_of(host) {
        let start = host.len() - dotted.len();
        assert(host.subrange(start + 1, host.len() as int) =~= dotted.subrange(1, dotted.len() as int));
        assert(dotted.subrange(1, dotted.len() as int) =~= domain);
        assert(host[start] == host.subrange(start, host.len() as int)[0]);
    }
    if host.len() > domain.len() && domain.is_suffix_of(host) && host[host.len() - domain.len()
        - 1] == '.' {
        let start = host.len() - dotted.len();
        assert(host.subrange(start, host.len() as int) =~= dotted);
    }
}

/// `blocks_host` is the same relation as the one site rules use.
pub proof fn lemma_blocks_host_is_host_matches(host: Seq<char>, domain: Seq<char>)
    ensures
        blocks_host(host, domain) == host_matches(host, domain),
{
    lemma_dotted_suffix(host, domain);
}

impl ShieldsEngine {
    /// The blocklist holds each domain once, as the set it stands for.
    #[verifier::type_invariant]
    spec fn blocklist_is_a_set(self) -> bool {
        self@.blocked.no_duplicates()
    }

    /// A new engine, enabled, with the built-in blocklist.
    pub fn new() -> (engine: Self)
        ensures
            engine@.blocked == default_blocklist(),
            engine@.blocked.no_duplicates(),
            engine@.enabled,
    {
        proof {
            reveal_strlit("doubleclick.net");
            reveal_strlit("google-analytics.com");
            reveal_strlit("ads.youtube.com");
            reveal_strlit("adservice.google.com");
        }
        let mut blocked: Vec<String> = Vec::new();
        blocked.push(String::from_str("doubleclick.net"));
        blocked.push(String::from_str("google-analytics.com"));
        blocked.push(String::from_str("ads.youtube.com"));
        blocked.push(String::from_str("adservice.google.com"));
        assert(blocked@.map_values(|d: String| d@) =~= default_blocklist());
        assert(default_blocklist().no_duplicates()) by {
            let l = default_blocklist();
            assert(l[0][0] == 'd' && l[1][0] == 'g' && l[2][0] == 'a' && l[3][0] == 'a');
            assert(l[2][2] == 's' && l[3][2] == 's' && l[2][3] == '.' && l[3][3] == 'e');
        }
        ShieldsEngine { blocked_domains: blocked, enabled: true }
    }

    /// Turns blocking on or off; the blocklist is left as it is.
    pub fn set_enabled(&mut self, enabled: bool)
        ensures
            final(self)@.enabled == enabled,
            final(self)@.blocked == old(self)@.blocked,
    {
        proof {
            use_type_invariant(&*self);
        }
        self.enabled = enabled;
    }

    /// Whether blocking is on.
    pub fn is_enabled(&self) -> (b: bool)
        ensures
            b == self@.enabled,
    {
        self.enabled
    }

    /// Whether a request to `url` is to be blocked.
    pub fn should_block(&self, url: &str) -> (b: bool)
        ensures
            b == url_blocked(self@.blocked, self@.enabled, url@),
            !self@.enabled ==> !b,
    {
        if !self.enabled {
            return false;
        }
        match parse_url(url) {
            Some(Some(host)) => self.should_block_host(host.as_str()),
            _ => false,
        }
    }

    /// Whether requests to `host` are to be blocked.
    pub fn should_block_host(&self, host: &str) -> (b: bool)
        ensures
            b == host_blocked(self@.blocked, self@.enabled, host@),
    {
        if !self.enabled {
            return false;
        }
        let ghost blocked = self@.blocked;
        let n = self.blocked_domains.len();
        for i in 0..n
            invariant
                n == self.blocked_domains.len(),
                self.enabled,
                blocked == self@.blocked,
                blocked.len() == n,
                forall|j: int| 0 <= j < i ==> !blocks_host(host@, #[trigger] blocked[j]),
        {
            let d = &self.blocked_domains[i];
            proof {
                lemma_blocks_host_is_host_matches(host@, d@);
                assert(blocked[i as int] == d@);
            }
            if domain_matches(host, d.as_str()) {
                assert(blocks_host(host@, blocked[i as int]));
                return true;
            }
        }
        false
    }
}

/// A subdomain of a host that a domain blocks is blocked by it too.
pub proof fn lemma_block_covers_subdomains(label: Seq<char>, host: Seq<char>, domain: Seq<char>)
    requires
        blocks_host(host, domain),
    ensures
        blocks_host(label + seq!['.'] + host, domain),
{
    lemma_blocks_host_is_host_matches(host, domain);
    crate::compat::site_rules::lemma_match_extends_to_subdomains(label, host, domain);
    lemma_blocks_host_is_host_matches(label + seq!['.'] + host, domain);
}

/// A disabled engine lets every URL through, whatever its blocklist.
pub proof fn lemma_disabled_blocks_nothing(blocked: Seq<Seq<char>>, url: Seq<char>)
    ensures
        !url_blocked(blocked, false, url),
{
}

/// Every domain of the blocklist is itself blocked, with all its
/// subdomains, while the engine is on.
pub proof fn lemma_listed_domains_blocked(blocked: Seq<Seq<char>>, i: int, label: Seq<char>)
    requires
        0 <= i < blocked.len(),
    ensures
        host_blocked(blocked, true, blocked[i]),
        host_blocked(blocked, true, label + seq!['.'] + blocked[i]),
{
    crate::compat::site_rules::lemma_subdomain_matches(label, blocked[i]);
    lemma_blocks_host_is_host_matches(label + seq!['.'] + blocked[i], blocked[i]);
}

/// A fresh engine's blocklist is exactly the four trackers: a host is blocked
/// by it exactly when it is `doubleclick.net`, `google-analytics.com`,
/// `ads.youtube.com` or `adservice.google.com`, or a subdomain of one.
pub proof fn lemma_default_blocklist_is_the_four_trackers(host: Seq<char>)
    ensures
        default_blocklist().len() == 4,
        host_blocked(default_blocklist(), true, host) <==> {
            ||| host == "doubleclick.net"@ || (seq!['.'] + "doubleclick.net"@).is_suffix_of(host)
            ||| host == "google-analytics.com"@ || (seq!['.']
                + "google-analytics.com"@).is_suffix_of(host)
            ||| host == "ads.youtube.com"@ || (seq!['.'] + "ads.youtube.com"@).is_suffix_of(host)
            ||| host == "adservice.google.com"@ || (seq!['.']
                + "adservice.google.com"@).is_suffix_of(host)
        },
{
    let l = default_blocklist();
    assert(l[0] == "doubleclick.net"@);
    assert(l[1] == "google-analytics.com"@);
    assert(l[2] == "ads.youtube.com"@);
    assert(l[3] == "adservice.google.com"@);
    if host_blocked(l, true, host) {
        let i = choose|i: int| 0 <= i < l.len() && blocks_host(host, #[trigger] l[i]);
        assert(i == 0 || i == 1 || i == 2 || i == 3);
    }
    if blocks_host(host, l[0]) {
        assert(host_blocked(l, true, host));
    }
    if blocks_host(host, l[1]) {
        assert(host_blocked(l, true, host));
    }
    if blocks_host(host, l[2]) {
        assert(host_blocked(l, true, host));
    }
    if blocks_host(host, l[3]) {
        assert(host_blocked(l, true, host));
    }
}

} // verus!
