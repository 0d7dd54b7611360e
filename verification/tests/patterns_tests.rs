use portscan::patterns::{
    get_all_patterns, get_ftp_patterns, get_http_patterns, get_mysql_patterns,
    get_redis_patterns, get_ssh_patterns, reject_pattern,
};
use portscan::types::{NmapMatch, NmapProbe};

#[test]
fn builtin_ssh_rule_fields() {
    let rules = get_ssh_patterns();
    assert_eq!(rules.len(), 1);
    let r = &rules[0];
    assert_eq!(r.name, "SSH");
    assert_eq!(r.regex, "^SSH-\\d\\.\\d");
    assert_eq!(r.probe, "SSH-2.0-OpenSSH_8.2p1\r\n");
    assert_eq!(r.version_regex.as_deref(), Some("SSH-(\\d\\.\\d)"));
    assert_eq!(r.product_regex.as_deref(), Some("OpenSSH_([^\\r\\n]+)"));
    assert_eq!(r.total_wait_ms, 6000);
    assert_eq!(r.tcp_wrapped_ms, 3000);
    assert!(r.vulnerability_patterns.is_empty());
}

#[test]
fn builtin_rules_cover_the_five_protocols_in_order() {
    let rules = get_all_patterns(&vec![]);
    assert_eq!(rules.len(), 5);
    assert_eq!(rules[0].name, "SSH");
    assert_eq!(rules[1].name, "HTTP");
    assert_eq!(rules[2].name, "FTP");
    assert_eq!(rules[3].name, "MySQL");
    assert_eq!(rules[4].name, "Redis");
}

#[test]
fn builtin_getters_agree_with_the_merged_set() {
    let rules = get_all_patterns(&vec![]);
    assert_eq!(rules[1], get_http_patterns()[0]);
    assert_eq!(rules[2], get_ftp_patterns()[0]);
    assert_eq!(rules[3], get_mysql_patterns()[0]);
    assert_eq!(rules[4], get_redis_patterns()[0]);
}

#[test]
fn rejects_double_star_backslash_and_caret() {
    assert!(reject_pattern("a**b"));
    assert!(reject_pattern("a\\d"));
    assert!(reject_pattern("^anchored"));
    assert!(!reject_pattern("a*b"));
    assert!(!reject_pattern("plain"));
}

fn probe_with(matches: Vec<NmapMatch>) -> NmapProbe {
    NmapProbe {
        name: String::from("TCP"),
        protocol: String::from("GetRequest"),
        probe_string: String::from("PING"),
        total_wait_ms: 5000,
        tcp_wrapped_ms: 2500,
        matches,
    }
}

fn match_with(pattern: &str) -> NmapMatch {
    NmapMatch {
        service: String::from("svc"),
        pattern: String::from(pattern),
        version_info: None,
        product_info: None,
        os_info: None,
        extra_info: None,
        cpe: None,
    }
}

#[test]
fn merge_keeps_good_rules_and_probe_timings() {
    let probes = vec![probe_with(vec![match_with("HTTP")])];
    let rules = get_all_patterns(&probes);
    assert_eq!(rules.len(), 6);
    let merged = &rules[5];
    assert_eq!(merged.name, "svc");
    assert_eq!(merged.regex, "HTTP");
    assert_eq!(merged.probe, "PING");
    assert_eq!(merged.total_wait_ms, 5000);
    assert_eq!(merged.tcp_wrapped_ms, 2500);
}

#[test]
fn merge_skips_rejected_and_uncompilable_patterns() {
    let probes = vec![probe_with(vec![
        match_with("a**b"),
        match_with("(unclosed"),
        match_with("fine"),
        match_with("tail\\d"),
    ])];
    let rules = get_all_patterns(&probes);
    assert_eq!(rules.len(), 6);
    assert_eq!(rules[5].regex, "fine");
}

#[test]
fn merge_drops_secondary_sources_that_do_not_compile() {
    let mut m = match_with("HTTP");
    m.version_info = Some(String::from("v(\\d+)"));
    m.product_info = Some(String::from("(unclosed"));
    let probes = vec![probe_with(vec![m])];
    let rules = get_all_patterns(&probes);
    let merged = &rules[5];
    assert_eq!(merged.version_regex.as_deref(), Some("v(\\d+)"));
    assert_eq!(merged.product_regex, None);
}

#[test]
fn duplicate_service_names_are_both_retained() {
    let probes = vec![probe_with(vec![match_with("one"), match_with("two")])];
    let rules = get_all_patterns(&probes);
    assert_eq!(rules.len(), 7);
    assert_eq!(rules[5].name, "svc");
    assert_eq!(rules[6].name, "svc");
    assert_eq!(rules[5].regex, "one");
    assert_eq!(rules[6].regex, "two");
}
