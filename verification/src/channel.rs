//! The probe/response channel's pure halves: the probe payload sent over a
//! fresh connection, and the identification of whatever bytes came back.
//! The socket write and the deadline-bounded reads live outside; they hand
//! the captured bytes in as plain values.

use vstd::prelude::*;

verus! {

use vstd::string::StrSliceExecFns;
use vstd::utf8::encode_utf8;
use crate::matcher::{match_service, spec_match_service};
use crate::outside::{lossy_of, lossy_string};
use crate::types::{opt_service_view, Service, ServicePattern};

/// The concatenation of every non-empty probe payload in rule order, as the
/// bytes that go on the wire.
pub open spec fn spec_probe_bytes(rules: Seq<ServicePattern>) -> Seq<u8>
    decreases rules.len(),
{
    if rules.len() == 0 {
        Seq::empty()
    } else {
        spec_probe_bytes(rules.drop_last()) + (if rules.last().probe@.len() == 0 {
            Seq::<u8>::empty()
        } else {
            encode_utf8(rules.last().probe@)
        })
    }
}

/// Builds the probe payload: every rule's non-empty probe, concatenated in
/// rule order.
pub fn build_probe(rules: &Vec<ServicePattern>) -> (r: Vec<u8>)
    ensures
        r@ == spec_probe_bytes(rules@),
{
    let mut out: Vec<u8> = Vec::new();
    let mut i: usize = 0;
    proof {
        assert(rules@.take(0) =~= Seq::<ServicePattern>::empty());
        assert(out@ =~= spec_probe_bytes(rules@.take(0)));
    }
    while i < rules.len()
        invariant
            0 <= i <= rules@.len(),
            out@ == spec_probe_bytes(rules@.take(i as int)),
        decreases rules@.len() - i,
    {
        let rule = &rules[i];
        proof {
            assert(rules@.take(i + 1).drop_last() =~= rules@.take(i as int));
            assert(rules@.take(i + 1).last() == rules@[i as int]);
        }
        if !rule.probe.as_str().is_empty() {
            let mut bytes = rule.probe.as_str().as_bytes_vec();
            proof {
                assert(bytes@ == encode_utf8(rule.probe@));
            }
            out.append(&mut bytes);
        } else {
            proof {
                assert(out@ + Seq::<u8>::empty() =~= out@);
            }
        }
        i += 1;
    }
    proof {
        assert(rules@.take(rules@.len() as int) =~= rules@);
    }
    out
}

/// Decodes a captured response lossily — empty stays empty, anything else
/// is decoded text, never rejected — and matches it against the rules,
/// first match wins.
pub fn identify_response(rules: &Vec<ServicePattern>, response: &[u8]) -> (r: (
    Option<Service>,
    String,
))
    ensures
        response@.len() == 0 ==> r.1@ == Seq::<char>::empty(),
        response@.len() > 0 ==> r.1@ == lossy_of(response@),
        opt_service_view(r.0) == spec_match_service(rules@, r.1@),
{
    let raw_response = if response.len() == 0 {
        String::new()
    } else {
        lossy_string(response)
    };
    let service = match_service(rules, raw_response.as_str());
    (service, raw_response)
}

} // verus!
