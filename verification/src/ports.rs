//! Port-range parsing: the `start-end` form, both ends inclusive, with
//! every out-of-bounds or malformed input rejected before a scan begins.

use vstd::prelude::*;

verus! {

use vstd::string::StrSliceExecFns;
use crate::text::{find_from, spec_parse_u16, find_char_from, parse_u16};

/// Why a port-range string was rejected.
#[derive(Clone, Copy, Debug, PartialEq, Eq, Structural)]
pub enum PortRangeError {
    /// Not exactly one `-` between two pieces.
    Format,
    /// The piece before the `-` is not a decimal number within 0..=65535.
    InvalidStart,
    /// The piece after the `-` is not a decimal number within 0..=65535.
    InvalidEnd,
    /// The start port is 0; ports begin at 1.
    ZeroPort,
    /// The start port is greater than the end port.
    Inverted,
}

/// What port-range parsing yields: `Ok((a, b))` exactly when the string is
/// `a-b` with decimal `a` and `b`, `1 <= a <= b <= 65535`; otherwise the
/// error naming the first rule broken, in the order format, start, end,
/// zero start, inverted.
pub open spec fn spec_port_range(s: Seq<char>) -> Result<(u16, u16), PortRangeError> {
    let j = find_from(s, '-', 0);
    if j == s.len() {
        Result::Err(PortRangeError::Format)
    } else if find_from(s, '-', j + 1) != s.len() {
        Result::Err(PortRangeError::Format)
    } else {
        let a = spec_parse_u16(s.take(j));
        let b = spec_parse_u16(s.skip(j + 1));
        if a is None {
            Result::Err(PortRangeError::InvalidStart)
        } else if b is None {
            Result::Err(PortRangeError::InvalidEnd)
        } else if a->0 == 0 {
            Result::Err(PortRangeError::ZeroPort)
        } else if a->0 > b->0 {
            Result::Err(PortRangeError::Inverted)
        } else {
            Result::Ok((a->0, b->0))
        }
    }
}

/// Parses a `start-end` port range, both ends inclusive.
pub fn parse_port_range(s: &str) -> (r: Result<(u16, u16), PortRangeError>)
    ensures
        r == spec_port_range(s@),
{
    let n = s.unicode_len();
    let j = find_char_from(s, '-', 0);
    if j == n {
        return Err(PortRangeError::Format);
    }
    let j2 = find_char_from(s, '-', j + 1);
    if j2 < n {
        return Err(PortRangeError::Format);
    }
    let head = s.substring_char(0, j);
    let tail = s.substring_char(j + 1, n);
    proof {
        assert(head@ =~= s@.take(j as int));
        assert(tail@ =~= s@.skip(j + 1));
    }
    let a = match parse_u16(head) {
        Some(v) => v,
        None => {
            return Err(PortRangeError::InvalidStart);
        },
    };
    let b = match parse_u16(tail) {
        Some(v) => v,
        None => {
            return Err(PortRangeError::InvalidEnd);
        },
    };
    if a == 0 {
        return Err(PortRangeError::ZeroPort);
    }
    if a > b {
        return Err(PortRangeError::Inverted);
    }
    Ok((a, b))
}

} // verus!
