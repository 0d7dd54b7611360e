//! The signature database: built-in rules for the common protocols, and the
//! merge of rules parsed from an external probe-definition file. A match
//! pattern holding `**`, a backslash, or a caret is rejected and skipped —
//! a documented compatibility limit of the matcher, not a bug to fix — and
//! so is any pattern the regex engine does not accept.

use vstd::prelude::*;

verus! {

use vstd::string::StringExecFns;
use crate::outside::{pattern_compiles, pattern_valid};
use crate::text::{contains_char, contains_seq, has_char, has_sub, sub_at};
use crate::types::{
    opt_str_view, nmap_match_view, nmap_probe_view, pattern_view, patterns_view, probes_view,
    NmapMatchV,
    NmapProbe, NmapProbeV, ServicePattern, ServicePatternV,
};

/// The built-in SSH rule.
pub open spec fn ssh_rule() -> ServicePatternV {
    ServicePatternV {
        name: "SSH"@,
        regex: "^SSH-\\d\\.\\d"@,
        probe: "SSH-2.0-OpenSSH_8.2p1\r\n"@,
        version_regex: Option::Some("SSH-(\\d\\.\\d)"@),
        product_regex: Option::Some("OpenSSH_([^\\r\\n]+)"@),
        os_regex: Option::Some("OpenSSH.*?([^\\r\\n]+)"@),
        extra_info_regex: Option::None,
        cpe_regex: Option::None,
        vulnerability_patterns: Seq::empty(),
        total_wait_ms: 6000,
        tcp_wrapped_ms: 3000,
    }
}

/// The built-in HTTP rule.
pub open spec fn http_rule() -> ServicePatternV {
    ServicePatternV {
        name: "HTTP"@,
        regex: "^HTTP/\\d\\.\\d"@,
        probe: "HEAD / HTTP/1.1\r\nHost: localhost\r\n\r\n"@,
        version_regex: Option::Some("HTTP/(\\d\\.\\d)"@),
        product_regex: Option::Some("Server: ([^\\r\\n]+)"@),
        os_regex: Option::None,
        extra_info_regex: Option::None,
        cpe_regex: Option::None,
        vulnerability_patterns: Seq::empty(),
        total_wait_ms: 6000,
        tcp_wrapped_ms: 3000,
    }
}

/// The built-in FTP rule.
pub open spec fn ftp_rule() -> ServicePatternV {
    ServicePatternV {
        name: "FTP"@,
        regex: "^220"@,
        probe: "USER anonymous\r\n"@,
        version_regex: Option::Some("220 ([^\\r\\n]+)"@),
        product_regex: Option::None,
        os_regex: Option::None,
        extra_info_regex: Option::None,
        cpe_regex: Option::None,
        vulnerability_patterns: Seq::empty(),
        total_wait_ms: 6000,
        tcp_wrapped_ms: 3000,
    }
}

/// The built-in MySQL rule.
pub open spec fn mysql_rule() -> ServicePatternV {
    ServicePatternV {
        name: "MySQL"@,
        regex: "^\\x00"@,
        probe: "\x4a\x00\x00\x00\x0a\x35\x2e\x35\x2e\x35"@,
        version_regex: Option::Some("(\\d+\\.\\d+\\.\\d+)"@),
        product_regex: Option::None,
        os_regex: Option::None,
        extra_info_regex: Option::None,
        cpe_regex: Option::None,
        vulnerability_patterns: Seq::empty(),
        total_wait_ms: 6000,
        tcp_wrapped_ms: 3000,
    }
}

/// The built-in Redis rule.
pub open spec fn redis_rule() -> ServicePatternV {
    ServicePatternV {
        name: "Redis"@,
        regex: "^[+\\$\\*:-]"@,
        probe: "PING\r\n"@,
        version_regex: Option::Some("redis_version:(\\d+\\.\\d+\\.\\d+)"@),
        product_regex: Option::None,
        os_regex: Option::None,
        extra_info_regex: Option::None,
        cpe_regex: Option::None,
        vulnerability_patterns: Seq::empty(),
        total_wait_ms: 6000,
        tcp_wrapped_ms: 3000,
    }
}

/// The built-in rules in insertion order.
pub open spec fn spec_builtin_rules() -> Seq<ServicePatternV> {
    seq![ssh_rule(), http_rule(), ftp_rule(), mysql_rule(), redis_rule()]
}

pub fn get_ssh_patterns() -> (r: Vec<ServicePattern>)
    ensures
        r@.len() == 1,
        pattern_view(r@[0]) == ssh_rule(),
{
    let p = ServicePattern {
        name: String::from_str("SSH"),
        regex: String::from_str("^SSH-\\d\\.\\d"),
        probe: String::from_str("SSH-2.0-OpenSSH_8.2p1\r\n"),
        version_regex: Some(String::from_str("SSH-(\\d\\.\\d)")),
        product_regex: Some(String::from_str("OpenSSH_([^\\r\\n]+)")),
        os_regex: Some(String::from_str("OpenSSH.*?([^\\r\\n]+)")),
        extra_info_regex: None,
        cpe_regex: None,
        vulnerability_patterns: Vec::new(),
        total_wait_ms: 6000,
        tcp_wrapped_ms: 3000,
    };
    let mut v: Vec<ServicePattern> = Vec::new();
    v.push(p);
    proof {
        assert(pattern_view(v@[0]) =~~= ssh_rule());
    }
    v
}

pub fn get_http_patterns() -> (r: Vec<ServicePattern>)
    ensures
        r@.len() == 1,
        pattern_view(r@[0]) == http_rule(),
{
    let p = ServicePattern {
        name: String::from_str("HTTP"),
        regex: String::from_str("^HTTP/\\d\\.\\d"),
        probe: String::from_str("HEAD / HTTP/1.1\r\nHost: localhost\r\n\r\n"),
        version_regex: Some(String::from_str("HTTP/(\\d\\.\\d)")),
        product_regex: Some(String::from_str("Server: ([^\\r\\n]+)")),
        os_regex: None,
        extra_info_regex: None,
        cpe_regex: None,
        vulnerability_patterns: Vec::new(),
        total_wait_ms: 6000,
        tcp_wrapped_ms: 3000,
    };
    let mut v: Vec<ServicePattern> = Vec::new();
    v.push(p);
    proof {
        assert(pattern_view(v@[0]) =~~= http_rule());
    }
    v
}

pub fn get_ftp_patterns() -> (r: Vec<ServicePattern>)
    ensures
        r@.len() == 1,
        pattern_view(r@[0]) == ftp_rule(),
{
    let p = ServicePattern {
        name: String::from_str("FTP"),
        regex: String::from_str("^220"),
        probe: String::from_str("USER anonymous\r\n"),
        version_regex: Some(String::from_str("220 ([^\\r\\n]+)")),
        product_regex: None,
        os_regex: None,
        extra_info_regex: None,
        cpe_regex: None,
        vulnerability_patterns: Vec::new(),
        total_wait_ms: 6000,
        tcp_wrapped_ms: 3000,
    };
    let mut v: Vec<ServicePattern> = Vec::new();
    v.push(p);
    proof {
        assert(pattern_view(v@[0]) =~~= ftp_rule());
    }
    v
}

pub fn get_mysql_patterns() -> (r: Vec<ServicePattern>)
    ensures
        r@.len() == 1,
        pattern_view(r@[0]) == mysql_rule(),
{
    let p = ServicePattern {
        name: String::from_str("MySQL"),
        regex: String::from_str("^\\x00"),
        probe: String::from_str("\x4a\x00\x00\x00\x0a\x35\x2e\x35\x2e\x35"),
        version_regex: Some(String::from_str("(\\d+\\.\\d+\\.\\d+)")),
        product_regex: None,
        os_regex: None,
        extra_info_regex: None,
        cpe_regex: None,
        vulnerability_patterns: Vec::new(),
        total_wait_ms: 6000,
        tcp_wrapped_ms: 3000,
    };
    let mut v: Vec<ServicePattern> = Vec::new();
    v.push(p);
    proof {
        assert(pattern_view(v@[0]) =~~= mysql_rule());
    }
    v
}

pub fn get_redis_patterns() -> (r: Vec<ServicePattern>)
    ensures
        r@.len() == 1,
        pattern_view(r@[0]) == redis_rule(),
{
    let p = ServicePattern {
        name: String::from_str("Redis"),
        regex: String::from_str("^[+\\$\\*:-]"),
        probe: String::from_str("PING\r\n"),
        version_regex: Some(String::from_str("redis_version:(\\d+\\.\\d+\\.\\d+)")),
        product_regex: None,
        os_regex: None,
        extra_info_regex: None,
        cpe_regex: None,
        vulnerability_patterns: Vec::new(),
        total_wait_ms: 6000,
        tcp_wrapped_ms: 3000,
    };
    let mut v: Vec<ServicePattern> = Vec::new();
    v.push(p);
    proof {
        assert(pattern_view(v@[0]) =~~= redis_rule());
    }
    v
}

/// Two stars in a row somewhere in the pattern.
pub open spec fn has_double_star(s: Seq<char>) -> bool {
    exists|i: int| 0 <= i && i + 1 < s.len() && #[trigger] s[i] == '*' && s[i + 1] == '*'
}

/// A match pattern the simplified matcher refuses outright: `**`, a
/// backslash, or a caret anywhere in it.
pub open spec fn spec_reject_pattern(s: Seq<char>) -> bool {
    has_double_star(s) || contains_char(s, '\\') || contains_char(s, '^')
}

/// Does the matcher refuse this pattern outright?
pub fn reject_pattern(pattern: &str) -> (r: bool)
    ensures
        r == spec_reject_pattern(pattern@),
{
    let star = has_sub(pattern, "**");
    proof {
        reveal_strlit("**");
        assert("**"@.len() == 2 && "**"@[0] == '*' && "**"@[1] == '*');
        assert(contains_seq(pattern@, "**"@) == has_double_star(pattern@)) by {
            if contains_seq(pattern@, "**"@) {
                let i = choose|i: int| sub_at(pattern@, "**"@, i);
                assert(pattern@[i + 0] == '*' && pattern@[i + 1] == '*');
                assert(has_double_star(pattern@));
            }
            if has_double_star(pattern@) {
                let i = choose|i: int|
                    0 <= i && i + 1 < pattern@.len() && #[trigger] pattern@[i] == '*'
                        && pattern@[i + 1] == '*';
                assert(sub_at(pattern@, "**"@, i)) by {
                    assert(forall|j: int|
                        0 <= j < 2 ==> pattern@[i + j] == "**"@[j]) by {
                        assert(pattern@[i + 0] == '*');
                        assert(pattern@[i + 1] == '*');
                    }
                }
            }
        }
    }
    star || has_char(pattern, '\\') || has_char(pattern, '^')
}

/// A secondary extraction source survives only if the regex engine accepts
/// it.
pub open spec fn valid_source(o: Option<Seq<char>>) -> Option<Seq<char>> {
    match o {
        Option::Some(v) => if pattern_valid(v) {
            Option::Some(v)
        } else {
            Option::None
        },
        Option::None => Option::None,
    }
}

/// Keeps a secondary extraction source only if it compiles.
fn compiled_source(o: &Option<String>) -> (r: Option<String>)
    ensures
        opt_str_view(r) == valid_source(opt_str_view(*o)),
{
    match o {
        Some(v) => {
            if pattern_compiles(v.as_str()) {
                Some(v.clone())
            } else {
                None
            }
        },
        None => None,
    }
}

/// A parsed match declaration becomes a rule only when its pattern is not
/// refused outright and the regex engine accepts it.
pub open spec fn spec_rule_accepted(m: NmapMatchV) -> bool {
    !spec_reject_pattern(m.pattern) && pattern_valid(m.pattern)
}

/// The rule one accepted match declaration yields under its probe.
pub open spec fn spec_rule_of(p: NmapProbeV, m: NmapMatchV) -> ServicePatternV {
    ServicePatternV {
        name: m.service,
        regex: m.pattern,
        probe: p.probe_string,
        version_regex: valid_source(m.version_info),
        product_regex: valid_source(m.product_info),
        os_regex: valid_source(m.os_info),
        extra_info_regex: valid_source(m.extra_info),
        cpe_regex: valid_source(m.cpe),
        vulnerability_patterns: Seq::empty(),
        total_wait_ms: p.total_wait_ms,
        tcp_wrapped_ms: p.tcp_wrapped_ms,
    }
}

/// The rules the first `n` match declarations of one probe yield.
pub open spec fn spec_probe_rules(p: NmapProbeV, ms: Seq<NmapMatchV>) -> Seq<ServicePatternV>
    decreases ms.len(),
{
    if ms.len() == 0 {
        Seq::empty()
    } else {
        spec_probe_rules(p, ms.drop_last()) + (if spec_rule_accepted(ms.last()) {
            seq![spec_rule_of(p, ms.last())]
        } else {
            Seq::empty()
        })
    }
}

/// The rules a parsed probe list yields, probe by probe, in order.
pub open spec fn spec_merged_rules(ps: Seq<NmapProbeV>) -> Seq<ServicePatternV>
    decreases ps.len(),
{
    if ps.len() == 0 {
        Seq::empty()
    } else {
        spec_merged_rules(ps.drop_last()) + spec_probe_rules(ps.last(), ps.last().matches)
    }
}

/// Builds the whole ruleset: the built-in rules, then one rule per accepted
/// match declaration of the parsed probes, duplicates retained, insertion
/// order kept — matching tries rules in this order and the first winner
/// decides.
pub fn get_all_patterns(probes: &Vec<NmapProbe>) -> (r: Vec<ServicePattern>)
    ensures
        patterns_view(r@) == spec_builtin_rules() + spec_merged_rules(probes_view(probes@)),
{
    let mut out = get_ssh_patterns();
    let mut more = get_http_patterns();
    out.append(&mut more);
    let mut more = get_ftp_patterns();
    out.append(&mut more);
    let mut more = get_mysql_patterns();
    out.append(&mut more);
    let mut more = get_redis_patterns();
    out.append(&mut more);
    proof {
        assert(patterns_view(out@) =~= spec_builtin_rules()) by {
            assert(out@.len() == 5);
            assert(pattern_view(out@[0]) == ssh_rule());
            assert(pattern_view(out@[1]) == http_rule());
            assert(pattern_view(out@[2]) == ftp_rule());
            assert(pattern_view(out@[3]) == mysql_rule());
            assert(pattern_view(out@[4]) == redis_rule());
        }
        assert(probes_view(probes@).take(0) =~= Seq::<NmapProbeV>::empty());
        assert(patterns_view(out@) + spec_merged_rules(probes_view(probes@).take(0)) =~= patterns_view(out@));
    }
    let mut pi: usize = 0;
    while pi < probes.len()
        invariant
            0 <= pi <= probes@.len(),
            patterns_view(out@) == spec_builtin_rules() + spec_merged_rules(
                probes_view(probes@).take(pi as int),
            ),
        decreases probes@.len() - pi,
    {
        let probe = &probes[pi];
        let ghost pv = nmap_probe_view(probes@[pi as int]);
        let ghost base = patterns_view(out@);
        proof {
            assert(pv.matches.take(0) =~= Seq::<NmapMatchV>::empty());
            assert(base + spec_probe_rules(pv, pv.matches.take(0)) =~= base);
        }
        let mut mi: usize = 0;
        while mi < probe.matches.len()
            invariant
                0 <= mi <= probe.matches@.len(),
                pv == nmap_probe_view(*probe),
                pv.matches.len() == probe.matches@.len(),
                patterns_view(out@) == base + spec_probe_rules(pv, pv.matches.take(mi as int)),
            decreases probe.matches@.len() - mi,
        {
            let m = &probe.matches[mi];
            let ghost mv = nmap_match_view(probe.matches@[mi as int]);
            proof {
                assert(pv.matches[mi as int] == mv);
                assert(pv.matches.take(mi + 1).drop_last() =~= pv.matches.take(mi as int));
                assert(pv.matches.take(mi + 1).last() == mv);
            }
            if !reject_pattern(m.pattern.as_str()) && pattern_compiles(m.pattern.as_str()) {
                let rule = ServicePattern {
                    name: m.service.clone(),
                    regex: m.pattern.clone(),
                    probe: probe.probe_string.clone(),
                    version_regex: compiled_source(&m.version_info),
                    product_regex: compiled_source(&m.product_info),
                    os_regex: compiled_source(&m.os_info),
                    extra_info_regex: compiled_source(&m.extra_info),
                    cpe_regex: compiled_source(&m.cpe),
                    vulnerability_patterns: Vec::new(),
                    total_wait_ms: probe.total_wait_ms,
                    tcp_wrapped_ms: probe.tcp_wrapped_ms,
                };
                proof {
                    assert(pattern_view(rule) =~~= spec_rule_of(pv, mv));
                    assert(patterns_view(out@.push(rule)) =~= patterns_view(out@).push(
                        pattern_view(rule),
                    ));
                    assert(spec_probe_rules(pv, pv.matches.take(mi + 1)) =~= spec_probe_rules(
                        pv,
                        pv.matches.take(mi as int),
                    ).push(spec_rule_of(pv, mv)));
                }
                out.push(rule);
            } else {
                proof {
                    assert(spec_probe_rules(pv, pv.matches.take(mi + 1)) =~= spec_probe_rules(
                        pv,
                        pv.matches.take(mi as int),
                    ));
                }
            }
            mi += 1;
        }
        proof {
            assert(pv.matches.take(probe.matches@.len() as int) =~= pv.matches);
            assert(probes_view(probes@).take(pi + 1).drop_last() =~= probes_view(probes@).take(
                pi as int,
            ));
            assert(probes_view(probes@).take(pi + 1).last() == pv);
            assert(spec_merged_rules(probes_view(probes@).take(pi + 1)) =~= spec_merged_rules(
                probes_view(probes@).take(pi as int),
            ) + spec_probe_rules(pv, pv.matches));
        }
        pi += 1;
    }
    proof {
        assert(probes_view(probes@).take(probes@.len() as int) =~= probes_view(probes@));
    }
    out
}

} // verus!
