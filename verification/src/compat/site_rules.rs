//! Per-domain compatibility rules: patches that apply to one domain and to
//! every subdomain of it.
use vstd::prelude::*;

use crate::text::chars_of;
use crate::text::has_suffix;

verus! {

broadcast use vstd::string::group_string_axioms;

/// A compatibility patch scoped to one domain (and its subdomains).
#[derive(Debug, Clone, Copy)]
pub struct SiteRule {
    /// Bare domain (e.g. `"chatgpt.com"`). Matches the host itself or any
    /// subdomain (`"foo.chatgpt.com"`).
    pub domain_pattern: &'static str,
    /// CSS appended to the page, if any.
    pub inject_css: Option<&'static str>,
    /// JS appended to the page, if any.
    pub inject_js: Option<&'static str>,
}

/// `host` is `pattern` itself, or a subdomain of it: it ends with
/// `"." + pattern`.
pub open spec fn host_matches(host: Seq<char>, pattern: Seq<char>) -> bool {
    ||| host == pattern
    ||| host.len() > pattern.len() && pattern.is_suffix_of(host) && host[host.len()
        - pattern.len() - 1] == '.'
}

/// The rule table the browser ships with. It holds no entries yet.
pub open spec fn rule_table() -> Seq<SiteRule> {
    Seq::empty()
}

/// The rules of `rules`, in order, whose pattern matches `host`.
pub open spec fn matching_rules(rules: Seq<SiteRule>, host: Seq<char>) -> Seq<SiteRule> {
    rules.filter(|r: SiteRule| host_matches(host, r.domain_pattern@))
}

/// The rule table, as a vector.
pub fn site_rules() -> (rules: Vec<SiteRule>)
    ensures
        rules@ == rule_table(),
{
    let rules: Vec<SiteRule> = Vec::new();
    assert(rules@ =~= rule_table());
    rules
}

/// Whether `host` is `pattern` or a subdomain of it.
pub fn domain_matches(host: &str, pattern: &str) -> (b: bool)
    ensures
        b == host_matches(host@, pattern@),
{
    let h = chars_of(host);
    let p = chars_of(pattern);
    if h.len() == p.len() {
        if has_suffix(&h, &p) {
            assert(h@ =~= h@.subrange(0, h@.len() as int));
            assert(h@ =~= p@);
            return true;
        }
        return false;
    }
    h.len() > p.len() && has_suffix(&h, &p) && h[h.len() - p.len() - 1] == '.'
}

/// The rules of `rules`, in order, that apply to `host`.
pub fn rules_for_domain(rules: &Vec<SiteRule>, host: &str) -> (found: Vec<SiteRule>)
    ensures
        found@ == matching_rules(rules@, host@),
{
    let mut found: Vec<SiteRule> = Vec::new();
    let ghost pred = |r: SiteRule| host_matches(host@, r.domain_pattern@);
    for i in 0..rules.len()
        invariant
            pred == (|r: SiteRule| host_matches(host@, r.domain_pattern@)),
            found@ == rules@.take(i as int).filter(pred),
    {
        reveal_with_fuel(Seq::<_>::filter, 1);
        let rule = rules[i];
        let m = domain_matches(host, rule.domain_pattern);
        proof {
            assert(rules@.take(i + 1).drop_last() =~= rules@.take(i as int));
            assert(rules@.take(i + 1).last() == rule);
            assert(pred(rule) == m);
        }
        if m {
            found.push(rule);
        }
    }
    assert(rules@.take(rules.len() as int) =~= rules@);
    found
}

/// All shipped rules that apply to `host` (the host itself or a domain it is
/// a subdomain of).
pub fn for_domain(host: &str) -> (found: Vec<SiteRule>)
    ensures
        found@ == matching_rules(rule_table(), host@),
{
    let rules = site_rules();
    rules_for_domain(&rules, host)
}

/// Every domain matches itself.
pub proof fn lemma_domain_matches_itself(pattern: Seq<char>)
    ensures
        host_matches(pattern, pattern),
{
}

/// Any subdomain of a domain, `label + "." + pattern`, matches the domain.
pub proof fn lemma_subdomain_matches(label: Seq<char>, pattern: Seq<char>)
    ensures
        host_matches(label + seq!['.'] + pattern, pattern),
{
    let host = label + seq!['.'] + pattern;
    assert(host.subrange(host.len() - pattern.len(), host.len() as int) =~= pattern);
    assert(host[host.len() - pattern.len() - 1] == '.');
}

/// A subdomain of a host that matches a pattern matches the pattern too.
pub proof fn lemma_match_extends_to_subdomains(label: Seq<char>, host: Seq<char>, pattern: Seq<char>)
    requires
        host_matches(host, pattern),
    ensures
        host_matches(label + seq!['.'] + host, pattern),
{
    let sub = label + seq!['.'] + host;
    if host == pattern {
        lemma_subdomain_matches(label, pattern);
    } else {
        assert(sub.subrange(sub.len() - pattern.len(), sub.len() as int) =~= host.subrange(
            host.len() - pattern.len(),
            host.len() as int,
        ));
        assert(sub[sub.len() - pattern.len() - 1] == host[host.len() - pattern.len() - 1]);
    }
}

/// A host that matches a pattern ends with that pattern: hosts that merely
/// contain the pattern elsewhere, or that end with it without a label
/// boundary, never match.
pub proof fn lemma_match_ends_with_pattern(host: Seq<char>, pattern: Seq<char>)
    requires
        host_matches(host, pattern),
    ensures
        pattern.is_suffix_of(host),
        host.len() > pattern.len() ==> host[host.len() - pattern.len() - 1] == '.',
{
    if host == pattern {
        assert(host.subrange(0, host.len() as int) =~= host);
    }
}

} // verus!
