use portscan::targets::{expand_v4, resolve_target, TargetError};
use portscan::types::Address;

#[test]
fn cidr_slash_30_yields_four_addresses() {
    let got = resolve_target("192.168.1.0/30", true).unwrap();
    let want = vec![
        Address::V4(0xC0A8_0100),
        Address::V4(0xC0A8_0101),
        Address::V4(0xC0A8_0102),
        Address::V4(0xC0A8_0103),
    ];
    assert_eq!(got, want);
}

#[test]
fn cidr_expansion_masks_host_bits() {
    let got = resolve_target("192.168.1.5/30", true).unwrap();
    let want = vec![
        Address::V4(0xC0A8_0104),
        Address::V4(0xC0A8_0105),
        Address::V4(0xC0A8_0106),
        Address::V4(0xC0A8_0107),
    ];
    assert_eq!(got, want);
}

#[test]
fn bare_address_in_subnet_mode_is_one_host() {
    let got = resolve_target("10.0.0.1", true).unwrap();
    assert_eq!(got, vec![Address::V4(0x0A00_0001)]);
}

#[test]
fn literal_address_without_subnet_mode() {
    let got = resolve_target("10.0.0.1", false).unwrap();
    assert_eq!(got, vec![Address::V4(0x0A00_0001)]);
}

#[test]
fn v6_literal_address() {
    let got = resolve_target("::1", false).unwrap();
    assert_eq!(got, vec![Address::V6(1)]);
}

#[test]
fn v6_cidr_slash_127_yields_two_addresses() {
    let got = resolve_target("::1/127", true).unwrap();
    assert_eq!(got, vec![Address::V6(0), Address::V6(1)]);
}

#[test]
fn cidr_notation_rejected_without_subnet_mode() {
    assert_eq!(resolve_target("192.168.1.0/30", false), Err(TargetError::Invalid));
}

#[test]
fn garbage_target_rejected() {
    assert_eq!(resolve_target("not an address", false), Err(TargetError::Invalid));
    assert_eq!(resolve_target("not an address", true), Err(TargetError::Invalid));
}

#[test]
fn out_of_range_prefix_rejected() {
    assert_eq!(resolve_target("10.0.0.0/33", true), Err(TargetError::Invalid));
}

#[test]
fn huge_v6_block_reports_too_large() {
    assert_eq!(resolve_target("::/0", true), Err(TargetError::TooLarge));
}

#[test]
fn expand_single_address_block() {
    assert_eq!(expand_v4(0x7F00_0001, 32), vec![Address::V4(0x7F00_0001)]);
}
