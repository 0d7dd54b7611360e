use portscan::ports::{parse_port_range, PortRangeError};

#[test]
fn accepts_full_default_range() {
    assert_eq!(parse_port_range("1-1024"), Ok((1, 1024)));
}

#[test]
fn accepts_single_port_range() {
    assert_eq!(parse_port_range("80-80"), Ok((80, 80)));
}

#[test]
fn accepts_largest_port() {
    assert_eq!(parse_port_range("65535-65535"), Ok((65535, 65535)));
}

#[test]
fn rejects_missing_dash() {
    assert_eq!(parse_port_range("80"), Err(PortRangeError::Format));
}

#[test]
fn rejects_three_pieces() {
    assert_eq!(parse_port_range("1-2-3"), Err(PortRangeError::Format));
}

#[test]
fn rejects_non_numeric_start() {
    assert_eq!(parse_port_range("a-1024"), Err(PortRangeError::InvalidStart));
}

#[test]
fn rejects_empty_start() {
    assert_eq!(parse_port_range("-1024"), Err(PortRangeError::InvalidStart));
}

#[test]
fn rejects_non_numeric_end() {
    assert_eq!(parse_port_range("1-abc"), Err(PortRangeError::InvalidEnd));
}

#[test]
fn rejects_end_beyond_port_space() {
    assert_eq!(parse_port_range("1-70000"), Err(PortRangeError::InvalidEnd));
}

#[test]
fn rejects_zero_start_port() {
    assert_eq!(parse_port_range("0-5"), Err(PortRangeError::ZeroPort));
}

#[test]
fn rejects_inverted_range() {
    assert_eq!(parse_port_range("1024-1"), Err(PortRangeError::Inverted));
}
