//! The fingerprint matcher: rules are tried in insertion order and the
//! first rule whose primary pattern matches the raw response wins — no
//! scoring, no best-match search. For the winning rule each secondary
//! pattern is applied independently to the same response; an extraction
//! that fails is simply absent, never an error.

use vstd::prelude::*;

verus! {

use crate::outside::{pattern_capture_first, pattern_is_match, regex_capture, regex_match};
use crate::text::strs_view;
use crate::types::{
    opt_str_view, service_view, opt_service_view, Service, ServicePattern, ServiceV, VulnHint,
};

/// What one optional secondary pattern extracts from the response: the
/// first capture group of its first match, or nothing.
pub open spec fn spec_extract(pat: Option<String>, text: Seq<char>) -> Option<Seq<char>> {
    match pat {
        Option::None => Option::None,
        Option::Some(p) => regex_capture(p@, text),
    }
}

/// The advisories of every vulnerability hint whose pattern matches the
/// response, in rule order.
pub open spec fn spec_advisories(hints: Seq<VulnHint>, text: Seq<char>) -> Seq<Seq<char>>
    decreases hints.len(),
{
    if hints.len() == 0 {
        Seq::empty()
    } else {
        let rest = spec_advisories(hints.drop_last(), text);
        if regex_match(hints.last().pattern@, text) {
            rest.push(hints.last().advisory@)
        } else {
            rest
        }
    }
}

/// The metadata the winning rule yields for a response.
pub open spec fn spec_service_of(rule: ServicePattern, text: Seq<char>) -> ServiceV {
    ServiceV {
        name: rule.name@,
        version: spec_extract(rule.version_regex, text),
        product: spec_extract(rule.product_regex, text),
        os_type: spec_extract(rule.os_regex, text),
        extra_info: spec_extract(rule.extra_info_regex, text),
        cpe: spec_extract(rule.cpe_regex, text),
        vulnerabilities: spec_advisories(rule.vulnerability_patterns@, text),
    }
}

/// First-match-wins over the rules in order: the metadata of the first rule
/// whose primary pattern matches, or nothing when none matches.
pub open spec fn spec_match_service(rules: Seq<ServicePattern>, text: Seq<char>) -> Option<
    ServiceV,
>
    decreases rules.len(),
{
    if rules.len() == 0 {
        Option::None
    } else if regex_match(rules.first().regex@, text) {
        Option::Some(spec_service_of(rules.first(), text))
    } else {
        spec_match_service(rules.drop_first(), text)
    }
}

/// Applies one optional secondary pattern to the response.
fn extract_first(pat: &Option<String>, text: &str) -> (r: Option<String>)
    ensures
        opt_str_view(r) == spec_extract(*pat, text@),
{
    match pat {
        Some(p) => pattern_capture_first(p.as_str(), text),
        None => None,
    }
}

/// Collects the advisories of every hint whose pattern matches.
fn collect_advisories(hints: &Vec<VulnHint>, text: &str) -> (r: Vec<String>)
    ensures
        strs_view(r@) == spec_advisories(hints@, text@),
{
    let mut out: Vec<String> = Vec::new();
    let mut i: usize = 0;
    proof {
        assert(hints@.take(0) =~= Seq::<VulnHint>::empty());
        assert(strs_view(out@) =~= Seq::<Seq<char>>::empty());
    }
    while i < hints.len()
        invariant
            0 <= i <= hints@.len(),
            strs_view(out@) == spec_advisories(hints@.take(i as int), text@),
        decreases hints@.len() - i,
    {
        let hint = &hints[i];
        proof {
            assert(hints@.take(i + 1).drop_last() =~= hints@.take(i as int));
            assert(hints@.take(i + 1).last() == hints@[i as int]);
        }
        if pattern_is_match(hint.pattern.as_str(), text) {
            let advisory = hint.advisory.clone();
            proof {
                assert(strs_view(out@.push(advisory)) =~= strs_view(out@).push(advisory@));
            }
            out.push(advisory);
        }
        i += 1;
    }
    proof {
        assert(hints@.take(hints@.len() as int) =~= hints@);
    }
    out
}

/// Matches a captured response against the database rules in order and
/// returns the first winning rule's metadata, or nothing — an open port
/// with an unidentified service, not an error.
pub fn match_service(rules: &Vec<ServicePattern>, raw_response: &str) -> (r: Option<Service>)
    ensures
        opt_service_view(r) == spec_match_service(rules@, raw_response@),
{
    let mut i: usize = 0;
    proof {
        assert(rules@.skip(0) =~= rules@);
    }
    while i < rules.len()
        invariant
            0 <= i <= rules@.len(),
            spec_match_service(rules@, raw_response@) == spec_match_service(
                rules@.skip(i as int),
                raw_response@,
            ),
        decreases rules@.len() - i,
    {
        let rule = &rules[i];
        proof {
            assert(rules@.skip(i as int).first() == rules@[i as int]);
        }
        if pattern_is_match(rule.regex.as_str(), raw_response) {
            let svc = Service {
                name: rule.name.clone(),
                version: extract_first(&rule.version_regex, raw_response),
                product: extract_first(&rule.product_regex, raw_response),
                os_type: extract_first(&rule.os_regex, raw_response),
                extra_info: extract_first(&rule.extra_info_regex, raw_response),
                cpe: extract_first(&rule.cpe_regex, raw_response),
                vulnerabilities: collect_advisories(&rule.vulnerability_patterns, raw_response),
            };
            proof {
                assert(service_view(svc) == spec_service_of(rules@[i as int], raw_response@));
            }
            return Some(svc);
        }
        proof {
            assert(rules@.skip(i as int).drop_first() =~= rules@.skip(i + 1));
        }
        i += 1;
    }
    None
}

/// Nothing is returned exactly when no rule's primary pattern matches the
/// response — which is no error, only an unidentified service.
pub proof fn lemma_match_none_iff_no_rule_matches(rules: Seq<ServicePattern>, text: Seq<char>)
    ensures
        spec_match_service(rules, text) is None <==> (forall|j: int|
            0 <= j < rules.len() ==> !regex_match(#[trigger] rules[j].regex@, text)),
    decreases rules.len(),
{
    if rules.len() == 0 {
    } else if regex_match(rules.first().regex@, text) {
        assert(regex_match(rules[0].regex@, text));
    } else {
        lemma_match_none_iff_no_rule_matches(rules.drop_first(), text);
        let rest = rules.drop_first();
        assert(forall|j: int| 0 <= j < rest.len() ==> rest[j] == rules[j + 1]);
        if spec_match_service(rules, text) is None {
            assert forall|j: int|
                0 <= j < rules.len() implies !regex_match(#[trigger] rules[j].regex@, text) by {
                if j == 0 {
                    assert(!regex_match(rules[0].regex@, text));
                } else {
                    assert(!regex_match(rest[j - 1].regex@, text));
                }
            }
        } else {
            let j = choose|j: int|
                0 <= j < rest.len() && regex_match(#[trigger] rest[j].regex@, text);
            assert(regex_match(rules[j + 1].regex@, text));
        }
    }
}

/// The first rule whose primary pattern matches decides the result: no
/// scoring, no best-match search.
pub proof fn lemma_first_match_wins(rules: Seq<ServicePattern>, text: Seq<char>, i: int)
    requires
        0 <= i < rules.len(),
        regex_match(rules[i].regex@, text),
        forall|j: int| 0 <= j < i ==> !regex_match(#[trigger] rules[j].regex@, text),
    ensures
        spec_match_service(rules, text) == Option::Some(spec_service_of(rules[i], text)),
    decreases i,
{
    if i > 0 {
        assert(!regex_match(rules.first().regex@, text));
        lemma_first_match_wins(rules.drop_first(), text, i - 1);
        assert(rules.drop_first()[i - 1] == rules[i]);
        assert(forall|j: int|
            0 <= j < i - 1 ==> rules.drop_first()[j] == rules[j + 1]);
    }
}

/// The matcher is deterministic: two runs on the same raw response against
/// the same database yield identical metadata.
pub proof fn lemma_match_idempotent(
    rules: Seq<ServicePattern>,
    text: Seq<char>,
    r1: Option<ServiceV>,
    r2: Option<ServiceV>,
)
    requires
        r1 == spec_match_service(rules, text),
        r2 == spec_match_service(rules, text),
    ensures
        r1 == r2,
{
}

} // verus!
