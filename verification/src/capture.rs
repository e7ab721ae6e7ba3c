//! The Request Capturer: shapes the request phase's data into an immutable
//! capture record, the sole channel by which request data reaches the
//! response phase.

use vstd::prelude::*;

use crate::headers::{
    authority_key, headers_json, host_key, keyed_entries, normalize_headers, normalized_keys,
    normalized_map,
};
use crate::json::json_object;
use crate::text::{append_bytes, clone_bytes, lossy_utf8, pairs_view, utf8_lossy};

verus! {

/// The host value a capture reports: the `host` entry, else the authority
/// entry, else empty.
pub open spec fn resolved_host(m: Map<Seq<u8>, Seq<u8>>) -> Seq<u8> {
    if m.contains_key(host_key()) {
        m[host_key()]
    } else if m.contains_key(authority_key()) {
        m[authority_key()]
    } else {
        Seq::empty()
    }
}

/// An immutable record of one request phase: the full URL (resolved host
/// followed by the request path), the method, the headers serialized as a
/// JSON object, and the best-effort-decoded body.
pub struct CaptureRecord {
    /// Resolved host followed by the request path.
    pub url: Vec<u8>,
    /// The HTTP verb as the host reported it.
    pub method: Vec<u8>,
    /// The normalized request headers as a JSON object.
    pub request_headers: Vec<u8>,
    /// The request body after best-effort UTF-8 decoding.
    pub request_body: Vec<u8>,
}

/// The request headers JSON that capture yields for raw pairs.
pub open spec fn normalized_headers_json(pairs: Seq<(Seq<u8>, Seq<u8>)>) -> Seq<u8> {
    json_object(keyed_entries(normalized_keys(pairs), normalized_map(pairs)))
}

/// Consumes the request phase's data: normalizes the headers, resolves the
/// host, concatenates it with the path, and decodes the body.
pub fn build_capture_record(
    raw_headers: &Vec<(Vec<u8>, Vec<u8>)>,
    method: &[u8],
    path: &[u8],
    body: &[u8],
) -> (r: CaptureRecord)
    ensures
        r.url@ == resolved_host(normalized_map(pairs_view(raw_headers@))) + path@,
        r.method@ == method@,
        r.request_headers@ == normalized_headers_json(pairs_view(raw_headers@)),
        r.request_body@ == lossy_utf8(body@),
        (forall|i: int| 0 <= i < body@.len() ==> body@[i] < 0x80) ==> r.request_body@ == body@,
{
    let m = normalize_headers(raw_headers);
    let request_headers = headers_json(&m);
    proof {
        reveal_strlit("host");
        assert(vstd::string::is_ascii("host"));
    }
    let hk = crate::text::ascii_bytes_of("host");
    let mut url: Vec<u8> = match m.get(hk.as_slice()) {
        Some(h) => clone_bytes(h),
        None => Vec::new(),
    };
    proof {
        assert(url@ =~= resolved_host(m.as_map()));
    }
    append_bytes(&mut url, path);
    let mut method_v: Vec<u8> = Vec::new();
    append_bytes(&mut method_v, method);
    proof {
        assert(method_v@ =~= method@);
    }
    let request_body = utf8_lossy(body);
    CaptureRecord { url, method: method_v, request_headers, request_body }
}

} // verus!
