//! The data model: addresses, scan tasks and results, service metadata, and
//! the signature-rule types that the probe-file parser and the fingerprint
//! matcher share.

use vstd::prelude::*;

verus! {

use crate::text::strs_view;

/// An IP address, v4 or v6, held as its numeric value.
#[derive(Clone, Copy, Debug, PartialEq, Eq, Structural)]
pub enum Address {
    V4(u32),
    V6(u128),
}

/// One unit of work: a single (address, port) connection attempt.
#[derive(Clone, Copy, Debug, PartialEq, Eq, Structural)]
pub struct ScanTask {
    pub addr: Address,
    pub port: u16,
}

/// How one connection attempt ended.
#[derive(Clone, Debug)]
pub enum ConnectOutcome {
    /// The connection was established; the caller holds the socket.
    Open,
    /// The peer refused or reset the connection: definite, never retried.
    Closed,
    /// The deadline elapsed before the connect resolved: may be retried.
    Timeout,
    /// Some other network error: definite, never retried.
    Failed(String),
}

/// Structured metadata extracted for one matched service.
#[derive(Clone, Debug, PartialEq, Eq)]
pub struct Service {
    pub name: String,
    pub version: Option<String>,
    pub product: Option<String>,
    pub os_type: Option<String>,
    pub extra_info: Option<String>,
    pub cpe: Option<String>,
    pub vulnerabilities: Vec<String>,
}

/// Spec-level image of a `Service`: every field as a character sequence.
#[verifier::ext_equal]
pub ghost struct ServiceV {
    pub name: Seq<char>,
    pub version: Option<Seq<char>>,
    pub product: Option<Seq<char>>,
    pub os_type: Option<Seq<char>>,
    pub extra_info: Option<Seq<char>>,
    pub cpe: Option<Seq<char>>,
    pub vulnerabilities: Seq<Seq<char>>,
}

/// View of an optional owned string as an optional character sequence.
pub open spec fn opt_str_view(o: Option<String>) -> Option<Seq<char>> {
    match o {
        Option::None => Option::None,
        Option::Some(s) => Option::Some(s@),
    }
}

pub open spec fn service_view(s: Service) -> ServiceV {
    ServiceV {
        name: s.name@,
        version: opt_str_view(s.version),
        product: opt_str_view(s.product),
        os_type: opt_str_view(s.os_type),
        extra_info: opt_str_view(s.extra_info),
        cpe: opt_str_view(s.cpe),
        vulnerabilities: strs_view(s.vulnerabilities@),
    }
}

pub open spec fn opt_service_view(o: Option<Service>) -> Option<ServiceV> {
    match o {
        Option::None => Option::None,
        Option::Some(s) => Option::Some(service_view(s)),
    }
}

/// A vulnerability hint on a rule: a pattern tried against the response and
/// the advisory reported when it matches.
#[derive(Clone, Debug, PartialEq, Eq)]
pub struct VulnHint {
    pub pattern: String,
    pub advisory: String,
}

/// One compiled signature. The `regex` field and the optional secondary
/// fields hold regular-expression source text; the matcher hands them to the
/// regex engine. The primary pattern decides the match; the secondary
/// extractions are best-effort and independently nullable.
#[derive(Clone, Debug, PartialEq, Eq)]
pub struct ServicePattern {
    pub name: String,
    pub regex: String,
    pub probe: String,
    pub version_regex: Option<String>,
    pub product_regex: Option<String>,
    pub os_regex: Option<String>,
    pub extra_info_regex: Option<String>,
    pub cpe_regex: Option<String>,
    pub vulnerability_patterns: Vec<VulnHint>,
    pub total_wait_ms: u64,
    pub tcp_wrapped_ms: u64,
}

/// Terminal record for one open port.
#[derive(Clone, Debug, PartialEq, Eq)]
pub struct ScanResult {
    pub ip: Address,
    pub port: u16,
    pub service: Option<Service>,
    pub raw_response: String,
}

/// One line of a service-name listing file.
#[derive(Clone, Debug, PartialEq, Eq)]
pub struct NmapService {
    pub name: String,
    pub port: u16,
    pub protocol: String,
    pub description: Option<String>,
}

/// One probe directive of a probe-definition file, with the match
/// declarations and timing overrides that followed it.
#[derive(Clone, Debug, PartialEq, Eq)]
pub struct NmapProbe {
    pub name: String,
    pub protocol: String,
    pub probe_string: String,
    pub total_wait_ms: u64,
    pub tcp_wrapped_ms: u64,
    pub matches: Vec<NmapMatch>,
}

/// One match declaration of a probe-definition file. The `*_info` fields
/// hold regular-expression source text still to be compiled.
#[derive(Clone, Debug, PartialEq, Eq)]
pub struct NmapMatch {
    pub service: String,
    pub pattern: String,
    pub version_info: Option<String>,
    pub product_info: Option<String>,
    pub os_info: Option<String>,
    pub extra_info: Option<String>,
    pub cpe: Option<String>,
}

/// Spec-level image of an `NmapMatch`.
#[verifier::ext_equal]
pub ghost struct NmapMatchV {
    pub service: Seq<char>,
    pub pattern: Seq<char>,
    pub version_info: Option<Seq<char>>,
    pub product_info: Option<Seq<char>>,
    pub os_info: Option<Seq<char>>,
    pub extra_info: Option<Seq<char>>,
    pub cpe: Option<Seq<char>>,
}

/// Spec-level image of an `NmapProbe`.
#[verifier::ext_equal]
pub ghost struct NmapProbeV {
    pub name: Seq<char>,
    pub protocol: Seq<char>,
    pub probe_string: Seq<char>,
    pub total_wait_ms: u64,
    pub tcp_wrapped_ms: u64,
    pub matches: Seq<NmapMatchV>,
}

/// Spec-level image of an `NmapService`.
#[verifier::ext_equal]
pub ghost struct NmapServiceV {
    pub name: Seq<char>,
    pub port: u16,
    pub protocol: Seq<char>,
    pub description: Option<Seq<char>>,
}

pub open spec fn nmap_match_view(m: NmapMatch) -> NmapMatchV {
    NmapMatchV {
        service: m.service@,
        pattern: m.pattern@,
        version_info: opt_str_view(m.version_info),
        product_info: opt_str_view(m.product_info),
        os_info: opt_str_view(m.os_info),
        extra_info: opt_str_view(m.extra_info),
        cpe: opt_str_view(m.cpe),
    }
}

pub open spec fn nmap_probe_view(p: NmapProbe) -> NmapProbeV {
    NmapProbeV {
        name: p.name@,
        protocol: p.protocol@,
        probe_string: p.probe_string@,
        total_wait_ms: p.total_wait_ms,
        tcp_wrapped_ms: p.tcp_wrapped_ms,
        matches: p.matches@.map_values(|m: NmapMatch| nmap_match_view(m)),
    }
}

pub open spec fn nmap_service_view(s: NmapService) -> NmapServiceV {
    NmapServiceV {
        name: s.name@,
        port: s.port,
        protocol: s.protocol@,
        description: opt_str_view(s.description),
    }
}

/// Spec-level image of a `VulnHint`.
#[verifier::ext_equal]
pub ghost struct VulnHintV {
    pub pattern: Seq<char>,
    pub advisory: Seq<char>,
}

pub open spec fn vuln_hint_view(h: VulnHint) -> VulnHintV {
    VulnHintV { pattern: h.pattern@, advisory: h.advisory@ }
}

/// Spec-level image of a `ServicePattern`.
#[verifier::ext_equal]
pub ghost struct ServicePatternV {
    pub name: Seq<char>,
    pub regex: Seq<char>,
    pub probe: Seq<char>,
    pub version_regex: Option<Seq<char>>,
    pub product_regex: Option<Seq<char>>,
    pub os_regex: Option<Seq<char>>,
    pub extra_info_regex: Option<Seq<char>>,
    pub cpe_regex: Option<Seq<char>>,
    pub vulnerability_patterns: Seq<VulnHintV>,
    pub total_wait_ms: u64,
    pub tcp_wrapped_ms: u64,
}

pub open spec fn pattern_view(p: ServicePattern) -> ServicePatternV {
    ServicePatternV {
        name: p.name@,
        regex: p.regex@,
        probe: p.probe@,
        version_regex: opt_str_view(p.version_regex),
        product_regex: opt_str_view(p.product_regex),
        os_regex: opt_str_view(p.os_regex),
        extra_info_regex: opt_str_view(p.extra_info_regex),
        cpe_regex: opt_str_view(p.cpe_regex),
        vulnerability_patterns: p.vulnerability_patterns@.map_values(
            |h: VulnHint| vuln_hint_view(h),
        ),
        total_wait_ms: p.total_wait_ms,
        tcp_wrapped_ms: p.tcp_wrapped_ms,
    }
}

pub open spec fn patterns_view(s: Seq<ServicePattern>) -> Seq<ServicePatternV> {
    s.map_values(|p: ServicePattern| pattern_view(p))
}

pub open spec fn probes_view(s: Seq<NmapProbe>) -> Seq<NmapProbeV> {
    s.map_values(|p: NmapProbe| nmap_probe_view(p))
}

pub open spec fn services_view(s: Seq<NmapService>) -> Seq<NmapServiceV> {
    s.map_values(|x: NmapService| nmap_service_view(x))
}

pub open spec fn opt_probe_view(o: Option<NmapProbe>) -> Option<NmapProbeV> {
    match o {
        Option::None => Option::None,
        Option::Some(p) => Option::Some(nmap_probe_view(p)),
    }
}

} // verus!
