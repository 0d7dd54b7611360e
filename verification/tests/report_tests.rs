use portscan::report::fingerprint_payload;

#[test]
fn captured_response_is_encoded_in_base64() {
    assert_eq!(fingerprint_payload("hello"), "aGVsbG8=");
    assert_eq!(fingerprint_payload("SSH-2.0\r\n"), "U1NILTIuMA0K");
}

#[test]
fn empty_response_yields_the_fixed_notice() {
    assert_eq!(fingerprint_payload(""), "No raw response available");
}
