//! The forensic fingerprint payload of a result record: the raw response
//! encoded in base64, or a fixed notice when nothing was captured. The
//! template text around it is plain rendering and lives outside.

use vstd::prelude::*;

verus! {

use vstd::string::StrSliceExecFns;
use vstd::string::StringExecFns;
use vstd::utf8::encode_utf8;
use crate::outside::{base64_of, encode_base64};

/// The base64 fingerprint of a captured response, or the fixed notice for
/// an empty one.
pub fn fingerprint_payload(raw_response: &str) -> (r: String)
    ensures
        raw_response@.len() > 0 ==> r@ == base64_of(encode_utf8(raw_response@)),
        raw_response@.len() == 0 ==> r@ == "No raw response available"@,
{
    if !raw_response.is_empty() {
        let bytes = raw_response.as_bytes_vec();
        encode_base64(bytes.as_slice())
    } else {
        String::from_str("No raw response available")
    }
}

} // verus!
