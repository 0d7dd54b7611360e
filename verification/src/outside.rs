//! The trusted boundary: every call into an outside crate, each behind a
//! wrapper whose contract states what the outside source shows. Results
//! that are functions of the arguments alone but too large to state are
//! named by bodiless spec functions; the wrappers tie the names to the
//! calls, and the verified logic speaks only of the names.

use core::str::FromStr;
use base64::Engine;
use vstd::prelude::*;

verus! {

use crate::types::opt_str_view;

/// Whether the regex engine accepts `pat` as a pattern source.
pub uninterp spec fn pattern_valid(pat: Seq<char>) -> bool;

/// Relies on regex::Regex::new: whether a pattern source compiles.
/// Compilation is deterministic in the source text.
#[verifier::external_body]
pub(crate) fn pattern_compiles(pat: &str) -> (r: bool)
    ensures
        r == pattern_valid(pat@),
{
    regex::Regex::new(pat).is_ok()
}

/// Whether the pattern, compiled by the regex engine, matches anywhere in
/// the text; false where the pattern does not compile.
pub uninterp spec fn regex_match(pat: Seq<char>, text: Seq<char>) -> bool;

/// Relies on regex::Regex::new and regex::Regex::is_match: true if and only
/// if the compiled pattern matches somewhere in the text, a function of
/// pattern source and text alone.
#[verifier::external_body]
pub(crate) fn pattern_is_match(pat: &str, text: &str) -> (r: bool)
    ensures
        r == regex_match(pat@, text@),
        !pattern_valid(pat@) ==> r == false,
{
    match regex::Regex::new(pat) {
        Ok(re) => re.is_match(text),
        Err(_) => false,
    }
}

/// The first capture group of the leftmost match of the pattern in the
/// text; nothing where there is no match, the group did not participate,
/// or the pattern does not compile.
pub uninterp spec fn regex_capture(pat: Seq<char>, text: Seq<char>) -> Option<Seq<char>>;

/// Relies on regex::Regex::captures and regex::Captures::get: the first
/// capture group of the leftmost match, a function of pattern source and
/// text alone.
#[verifier::external_body]
pub(crate) fn pattern_capture_first(pat: &str, text: &str) -> (r: Option<String>)
    ensures
        opt_str_view(r) == regex_capture(pat@, text@),
{
    match regex::Regex::new(pat) {
        Ok(re) => match re.captures(text) {
            Some(caps) => caps.get(1).map(|m| m.as_str().to_string()),
            None => None,
        },
        Err(_) => None,
    }
}

/// The standard-alphabet, padded base64 encoding of a byte sequence.
pub uninterp spec fn base64_of(bytes: Seq<u8>) -> Seq<char>;

/// Relies on base64's STANDARD engine (Engine::encode): the encoding is a
/// function of the bytes alone.
#[verifier::external_body]
pub(crate) fn encode_base64(bytes: &[u8]) -> (r: String)
    ensures
        r@ == base64_of(bytes@),
{
    base64::engine::general_purpose::STANDARD.encode(bytes)
}

/// The lossy text decoding of a byte sequence: valid UTF-8 decoded exactly,
/// every invalid sequence replaced, never rejected.
pub uninterp spec fn lossy_of(bytes: Seq<u8>) -> Seq<char>;

/// Relies on String::from_utf8_lossy: valid UTF-8 decodes to the same
/// character sequence; invalid sequences become replacement characters;
/// a function of the bytes alone.
#[verifier::external_body]
pub(crate) fn lossy_string(bytes: &[u8]) -> (r: String)
    ensures
        r@ == lossy_of(bytes@),
        vstd::utf8::valid_utf8(bytes@) ==> r@ == vstd::utf8::decode_utf8(bytes@),
{
    String::from_utf8_lossy(bytes).to_string()
}

/// What parsing a target string as an IP network yields: nothing, or
/// (v4?, address value, prefix length).
pub uninterp spec fn network_of(s: Seq<char>) -> Option<(bool, u128, u8)>;

/// Relies on ipnetwork::IpNetwork::from_str: parses an IP address or a CIDR
/// network, v4 tried before v6, a bare address getting the full prefix
/// length; the constructors reject a prefix beyond the address width.
#[verifier::external_body]
pub(crate) fn parse_network(s: &str) -> (r: Option<(bool, u128, u8)>)
    ensures
        r == network_of(s@),
        match r {
            Option::Some((v4, a, p)) => (v4 ==> a <= u32::MAX && p <= 32) && (!v4 ==> p <= 128),
            Option::None => true,
        },
{
    match ipnetwork::IpNetwork::from_str(s) {
        Ok(ipnetwork::IpNetwork::V4(n)) => Some((true, u32::from(n.ip()) as u128, n.prefix())),
        Ok(ipnetwork::IpNetwork::V6(n)) => Some((false, u128::from(n.ip()), n.prefix())),
        Err(_) => None,
    }
}

} // verus!
