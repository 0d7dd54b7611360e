use portscan::channel::{build_probe, identify_response};
use portscan::patterns::{get_all_patterns, get_ssh_patterns};

#[test]
fn probe_payload_concatenates_every_builtin_probe() {
    let rules = get_all_patterns(&vec![]);
    let payload = build_probe(&rules);
    let mut want: Vec<u8> = Vec::new();
    want.extend_from_slice(b"SSH-2.0-OpenSSH_8.2p1\r\n");
    want.extend_from_slice(b"HEAD / HTTP/1.1\r\nHost: localhost\r\n\r\n");
    want.extend_from_slice(b"USER anonymous\r\n");
    want.extend_from_slice(b"\x4a\x00\x00\x00\x0a\x35\x2e\x35\x2e\x35");
    want.extend_from_slice(b"PING\r\n");
    assert_eq!(payload, want);
}

#[test]
fn empty_probes_are_left_out_of_the_payload() {
    let mut rules = get_ssh_patterns();
    rules[0].probe = String::new();
    assert_eq!(build_probe(&rules), Vec::<u8>::new());
}

#[test]
fn identification_decodes_and_matches() {
    let rules = get_all_patterns(&vec![]);
    let (service, raw) = identify_response(&rules, b"SSH-2.0-OpenSSH_8.2p1\r\n");
    assert_eq!(raw, "SSH-2.0-OpenSSH_8.2p1\r\n");
    assert_eq!(service.unwrap().name, "SSH");
}

#[test]
fn identification_of_nothing_is_empty_and_unmatched() {
    let rules = get_all_patterns(&vec![]);
    let (service, raw) = identify_response(&rules, b"");
    assert_eq!(raw, "");
    assert_eq!(service, None);
}

#[test]
fn invalid_bytes_are_replaced_not_rejected() {
    let rules = get_all_patterns(&vec![]);
    let (service, raw) = identify_response(&rules, b"220 hi \xff\xfe there\r\n");
    assert!(raw.starts_with("220 hi "));
    assert!(raw.contains('\u{FFFD}'));
    assert_eq!(service.unwrap().name, "FTP");
}
