use portscan::patterns::get_all_patterns;
use portscan::sigfile::{parse_nmap_probes, parse_nmap_services};

#[test]
fn parses_probes_matches_and_timings() {
    let text = "# a comment\n\
                \n\
                Probe TCP GetRequest q|PING|\n\
                match http m|HTTP| p/TestServer/ v/1.0/\n\
                totalwaitms 5000\n\
                tcpwrappedms 2000\n\
                match ssh m|SSH| cpe:/a:openbsd:openssh\n\
                Probe TCP NULL q||\n\
                match ftp m|220|\n";
    let probes = parse_nmap_probes(text);
    assert_eq!(probes.len(), 2);

    let first = &probes[0];
    assert_eq!(first.name, "TCP");
    assert_eq!(first.protocol, "GetRequest");
    assert_eq!(first.probe_string, "PING");
    assert_eq!(first.total_wait_ms, 5000);
    assert_eq!(first.tcp_wrapped_ms, 2000);
    assert_eq!(first.matches.len(), 2);
    assert_eq!(first.matches[0].service, "http");
    assert_eq!(first.matches[0].pattern, "HTTP");
    assert_eq!(first.matches[0].product_info.as_deref(), Some("TestServer/"));
    assert_eq!(first.matches[0].version_info.as_deref(), Some("1.0/"));
    assert_eq!(first.matches[1].service, "ssh");
    assert_eq!(first.matches[1].cpe.as_deref(), Some("cpe:/a:openbsd:openssh"));

    let second = &probes[1];
    assert_eq!(second.probe_string, "");
    assert_eq!(second.total_wait_ms, 6000);
    assert_eq!(second.tcp_wrapped_ms, 3000);
    assert_eq!(second.matches.len(), 1);
    assert_eq!(second.matches[0].pattern, "220");
}

#[test]
fn double_star_pattern_is_skipped_and_parsing_continues() {
    let text = "Probe TCP One q|X|\n\
                match bad m|a**b|\n\
                match good m|HTTP|\n";
    let probes = parse_nmap_probes(text);
    assert_eq!(probes.len(), 1);
    assert_eq!(probes[0].matches.len(), 1);
    assert_eq!(probes[0].matches[0].service, "good");
    let rules = get_all_patterns(&probes);
    assert_eq!(rules.len(), 6);
    assert_eq!(rules[5].name, "good");
}

#[test]
fn match_before_any_probe_is_ignored() {
    let text = "match orphan m|HTTP|\nProbe TCP One q|X|\n";
    let probes = parse_nmap_probes(text);
    assert_eq!(probes.len(), 1);
    assert_eq!(probes[0].matches.len(), 0);
}

#[test]
fn malformed_probe_line_flushes_and_opens_nothing() {
    let text = "Probe TCP One q|X|\nmatch a m|Y|\nProbe TCP\nmatch b m|Z|\n";
    let probes = parse_nmap_probes(text);
    assert_eq!(probes.len(), 1);
    assert_eq!(probes[0].matches.len(), 1);
    assert_eq!(probes[0].matches[0].service, "a");
}

#[test]
fn unparseable_wait_keeps_the_old_value() {
    let text = "Probe TCP One q|X|\ntotalwaitms abc\n";
    let probes = parse_nmap_probes(text);
    assert_eq!(probes[0].total_wait_ms, 6000);
}

#[test]
fn later_key_value_token_wins() {
    let text = "Probe TCP One q|X|\nmatch s m|Y| v/1/ v/2/\n";
    let probes = parse_nmap_probes(text);
    assert_eq!(probes[0].matches[0].version_info.as_deref(), Some("2/"));
}

#[test]
fn parses_service_listing_lines() {
    let text = "# Well-known services\n\
                http 80/tcp World Wide Web\n\
                \n\
                ssh 22/tcp Secure Shell\n\
                short line\n\
                dns 53 Domain Name System\n\
                big 99999/udp Too Big\n";
    let services = parse_nmap_services(text);
    assert_eq!(services.len(), 4);
    assert_eq!(services[0].name, "http");
    assert_eq!(services[0].port, 80);
    assert_eq!(services[0].protocol, "tcp");
    assert_eq!(services[0].description.as_deref(), Some("World Wide Web"));
    assert_eq!(services[1].name, "ssh");
    assert_eq!(services[1].port, 22);
    assert_eq!(services[2].name, "dns");
    assert_eq!(services[2].protocol, "tcp");
    assert_eq!(services[3].port, 0);
    assert_eq!(services[3].protocol, "udp");
}

#[test]
fn empty_text_parses_to_nothing() {
    assert_eq!(parse_nmap_probes("").len(), 0);
    assert_eq!(parse_nmap_services("").len(), 0);
}
