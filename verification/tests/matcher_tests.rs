use portscan::matcher::match_service;
use portscan::patterns::get_all_patterns;
use portscan::types::{ServicePattern, VulnHint};

fn plain_rule(name: &str, regex: &str) -> ServicePattern {
    ServicePattern {
        name: String::from(name),
        regex: String::from(regex),
        probe: String::new(),
        version_regex: None,
        product_regex: None,
        os_regex: None,
        extra_info_regex: None,
        cpe_regex: None,
        vulnerability_patterns: vec![],
        total_wait_ms: 6000,
        tcp_wrapped_ms: 3000,
    }
}

#[test]
fn ssh_banner_matches_and_extracts_version_and_product() {
    let rules = get_all_patterns(&vec![]);
    let got = match_service(&rules, "SSH-2.0-OpenSSH_8.2p1").unwrap();
    assert_eq!(got.name, "SSH");
    assert_eq!(got.version.as_deref(), Some("2.0"));
    assert!(got.product.as_deref().unwrap().contains("8.2p1"));
}

#[test]
fn http_response_matches_and_extracts_server_product() {
    let rules = get_all_patterns(&vec![]);
    let got = match_service(&rules, "HTTP/1.1 200 OK\r\nServer: nginx/1.18.0\r\n").unwrap();
    assert_eq!(got.name, "HTTP");
    assert_eq!(got.version.as_deref(), Some("1.1"));
    assert_eq!(got.product.as_deref(), Some("nginx/1.18.0"));
}

#[test]
fn ftp_banner_matches_with_version_line() {
    let rules = get_all_patterns(&vec![]);
    let got = match_service(&rules, "220 ProFTPD Server ready.\r\n").unwrap();
    assert_eq!(got.name, "FTP");
    assert_eq!(got.version.as_deref(), Some("ProFTPD Server ready."));
}

#[test]
fn unidentified_response_matches_nothing() {
    let rules = get_all_patterns(&vec![]);
    assert_eq!(match_service(&rules, "garbage with no banner"), None);
    assert_eq!(match_service(&rules, ""), None);
}

#[test]
fn first_matching_rule_wins() {
    let rules = vec![plain_rule("first", "abc"), plain_rule("second", "abc")];
    let got = match_service(&rules, "xxabcxx").unwrap();
    assert_eq!(got.name, "first");
}

#[test]
fn match_is_idempotent_on_the_same_response_and_database() {
    let rules = get_all_patterns(&vec![]);
    let text = "SSH-2.0-OpenSSH_8.2p1";
    let once = match_service(&rules, text);
    let twice = match_service(&rules, text);
    assert_eq!(once, twice);
}

#[test]
fn failed_extraction_leaves_the_field_empty() {
    let mut rule = plain_rule("svc", "hello");
    rule.version_regex = Some(String::from("version=(\\d+)"));
    let got = match_service(&vec![rule], "hello world").unwrap();
    assert_eq!(got.name, "svc");
    assert_eq!(got.version, None);
}

#[test]
fn all_matching_vulnerability_advisories_are_collected() {
    let mut rule = plain_rule("svc", "banner");
    rule.vulnerability_patterns = vec![
        VulnHint { pattern: String::from("v1\\.0"), advisory: String::from("old release") },
        VulnHint { pattern: String::from("nomatch"), advisory: String::from("not this") },
        VulnHint { pattern: String::from("debug"), advisory: String::from("debug enabled") },
    ];
    let got = match_service(&vec![rule], "banner v1.0 debug").unwrap();
    assert_eq!(got.vulnerabilities, vec![
        String::from("old release"),
        String::from("debug enabled"),
    ]);
}
