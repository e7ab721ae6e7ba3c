use flex_policy::batch::{
    build_batch, capture_response, serialize_batch, CapturedTransaction, TransactionOutcome,
};
use flex_policy::capture::build_capture_record;
use flex_policy::config::Config;
use flex_policy::export::EXPORT_TIMEOUT_SECS;
use flex_policy::pipeline::{mirror_response, respond_with};

fn b(s: &str) -> Vec<u8> {
    s.as_bytes().to_vec()
}

fn pairs(raw: &[(&str, &str)]) -> Vec<(Vec<u8>, Vec<u8>)> {
    raw.iter().map(|(k, v)| (b(k), b(v))).collect()
}

fn cfg(p: Option<i64>) -> Config {
    Config { ingestion_url: b("http://ingest.example/api"), sampling_percentage: p }
}

fn parse_entry(body: &[u8]) -> serde_json::Value {
    let doc: serde_json::Value = serde_json::from_slice(body).expect("export body must be JSON");
    let arr = doc.get("batchData").expect("batchData").as_array().expect("array");
    assert_eq!(arr.len(), 1, "one entry per export call");
    arr[0].clone()
}

#[test]
fn basic_get_transaction_is_exported() {
    let record = build_capture_record(
        &pairs(&[("host", "api.example.com")]),
        b"GET",
        b"/orders",
        b"",
    );
    assert_eq!(record.url.as_slice(), b"api.example.com/orders");
    let r = respond_with(
        &cfg(None),
        Some(record),
        1,
        &pairs(&[("content-type", "application/json")]),
        200,
        b"{\"ok\":true}",
        1234,
    )
    .expect("always-keep sampling must export");
    assert_eq!(r.url.as_slice(), b"http://ingest.example/api");
    assert_eq!(r.content_type.as_slice(), b"application/json");
    assert_eq!(r.timeout_secs, EXPORT_TIMEOUT_SECS);
    assert_eq!(r.timeout_secs, 10);
    let entry = parse_entry(&r.body);
    assert_eq!(entry["path"], "api.example.com/orders");
    assert_eq!(entry["method"], "GET");
    assert_eq!(entry["statusCode"], 200);
    assert_eq!(entry["responsePayload"], "{\"ok\":true}");
    assert_eq!(entry["requestPayload"], "");
    assert_eq!(entry["time"], 1234);
    assert_eq!(entry["ip"], "0.0.0.0");
    assert_eq!(entry["type"], "HTTP/1.1");
    assert_eq!(entry["status"], "");
    assert_eq!(entry["akto_account_id"], "1000000");
    assert_eq!(entry["akto_vxlan_id"], "123");
    assert_eq!(entry["is_pending"], "false");
    assert_eq!(entry["source"], "MIRRORING");
    assert_eq!(entry["requestHeaders"], "{\"host\":\"api.example.com\"}");
    assert_eq!(entry["responseHeaders"], "{\"content-type\":\"application/json\"}");
}

#[test]
fn missing_host_and_authority_yields_raw_path() {
    let record = build_capture_record(&pairs(&[("accept", "*/*")]), b"GET", b"/orders", b"");
    assert_eq!(record.url.as_slice(), b"/orders");
    let r = respond_with(&cfg(Some(100)), Some(record), 100, &pairs(&[]), 204, b"", 0)
        .expect("kept");
    let entry = parse_entry(&r.body);
    assert_eq!(entry["path"], "/orders");
}

#[test]
fn skipped_request_phase_exports_nothing() {
    let r = respond_with(&cfg(None), None, 1, &pairs(&[]), 200, b"", 0);
    assert!(r.is_none());
    let r = mirror_response(&cfg(None), None, &pairs(&[]), 200, b"");
    assert!(r.is_none());
}

#[test]
fn sampling_drop_exports_nothing() {
    let record = build_capture_record(&pairs(&[]), b"GET", b"/", b"");
    let r = respond_with(&cfg(Some(50)), Some(record), 51, &pairs(&[]), 200, b"", 0);
    assert!(r.is_none());
    let record = build_capture_record(&pairs(&[]), b"GET", b"/", b"");
    let r = mirror_response(&cfg(Some(0)), Some(record), &pairs(&[]), 200, b"");
    assert!(r.is_none());
}

#[test]
fn mirror_response_always_keeps_at_100() {
    for _ in 0..100 {
        let record = build_capture_record(&pairs(&[]), b"GET", b"/", b"");
        let r = mirror_response(&cfg(None), Some(record), &pairs(&[]), 200, b"");
        assert!(r.is_some());
    }
}

#[test]
fn batch_build_is_idempotent_except_time() {
    let record = build_capture_record(
        &pairs(&[("host", "h"), ("x", "y")]),
        b"POST",
        b"/p",
        b"req-body",
    );
    let outcome = capture_response(Some(record), true, &pairs(&[("k", "v")]), 503, b"resp");
    let c: CapturedTransaction = match outcome {
        TransactionOutcome::Captured(c) => c,
        TransactionOutcome::Skipped => panic!("must capture"),
    };
    let b1 = build_batch(&c, 1111);
    let b2 = build_batch(&c, 2222);
    assert_eq!(b1.path, b2.path);
    assert_eq!(b1.request_headers, b2.request_headers);
    assert_eq!(b1.response_headers, b2.response_headers);
    assert_eq!(b1.method, b2.method);
    assert_eq!(b1.request_payload, b2.request_payload);
    assert_eq!(b1.response_payload, b2.response_payload);
    assert_eq!(b1.status_code, b2.status_code);
    assert_ne!(b1.time, b2.time);
    let mut v1 = parse_entry(&serialize_batch(&b1));
    let mut v2 = parse_entry(&serialize_batch(&b2));
    assert_eq!(v1["time"], 1111);
    assert_eq!(v2["time"], 2222);
    let o1 = v1.as_object_mut().unwrap();
    o1.remove("time");
    let o2 = v2.as_object_mut().unwrap();
    o2.remove("time");
    assert_eq!(o1, o2);
}

#[test]
fn document_text_is_exact() {
    let record = build_capture_record(&pairs(&[]), b"GET", b"/", b"");
    let outcome = capture_response(Some(record), true, &pairs(&[]), 200, b"");
    let c = match outcome {
        TransactionOutcome::Captured(c) => c,
        TransactionOutcome::Skipped => panic!("must capture"),
    };
    let doc = String::from_utf8(serialize_batch(&build_batch(&c, 5))).unwrap();
    assert_eq!(
        doc,
        "{\"batchData\":[{\"path\":\"/\",\"requestHeaders\":\"{}\",\
         \"responseHeaders\":\"{}\",\"method\":\"GET\",\"requestPayload\":\"\",\
         \"responsePayload\":\"\",\"ip\":\"0.0.0.0\",\"time\":5,\"statusCode\":200,\
         \"type\":\"HTTP/1.1\",\"status\":\"\",\"akto_account_id\":\"1000000\",\
         \"akto_vxlan_id\":\"123\",\"is_pending\":\"false\",\"source\":\"MIRRORING\"}]}"
    );
}

#[test]
fn negative_and_extreme_times_serialize_in_decimal() {
    let record = build_capture_record(&pairs(&[]), b"GET", b"/", b"");
    let outcome = capture_response(Some(record), true, &pairs(&[]), 200, b"");
    let c = match outcome {
        TransactionOutcome::Captured(c) => c,
        TransactionOutcome::Skipped => panic!("must capture"),
    };
    let doc = String::from_utf8(serialize_batch(&build_batch(&c, -5))).unwrap();
    assert!(doc.contains("\"time\":-5,"), "{doc}");
    let doc = String::from_utf8(serialize_batch(&build_batch(&c, i64::MIN))).unwrap();
    assert!(doc.contains("\"time\":-9223372036854775808,"), "{doc}");
    let doc = String::from_utf8(serialize_batch(&build_batch(&c, i64::MAX))).unwrap();
    assert!(doc.contains("\"time\":9223372036854775807,"), "{doc}");
}

#[test]
fn bodies_with_json_specials_are_escaped() {
    let body = "line1\nline2\t\"quoted\" back\\slash \u{0001}ctl";
    let record = build_capture_record(&pairs(&[]), b"PUT", b"/x", body.as_bytes());
    let outcome = capture_response(Some(record), true, &pairs(&[]), 200, "r\"e\"s".as_bytes());
    let c = match outcome {
        TransactionOutcome::Captured(c) => c,
        TransactionOutcome::Skipped => panic!("must capture"),
    };
    let entry = parse_entry(&serialize_batch(&build_batch(&c, 7)));
    assert_eq!(entry["requestPayload"], body);
    assert_eq!(entry["responsePayload"], "r\"e\"s");
}

#[test]
fn invalid_utf8_bodies_are_decoded_lossily() {
    let record = build_capture_record(&pairs(&[]), b"GET", b"/", &[0xff, 0x61]);
    assert_eq!(record.request_body, "\u{FFFD}a".as_bytes());
    let outcome = capture_response(Some(record), true, &pairs(&[]), 200, &[0x62, 0xC3]);
    let c = match outcome {
        TransactionOutcome::Captured(c) => c,
        TransactionOutcome::Skipped => panic!("must capture"),
    };
    assert_eq!(c.response_body, "b\u{FFFD}".as_bytes());
}

#[test]
fn header_names_and_values_are_escaped_in_embedded_json() {
    let record = build_capture_record(
        &pairs(&[("x-note", "say \"hi\"")]),
        b"GET",
        b"/",
        b"",
    );
    let outcome = capture_response(Some(record), true, &pairs(&[]), 200, b"");
    let c = match outcome {
        TransactionOutcome::Captured(c) => c,
        TransactionOutcome::Skipped => panic!("must capture"),
    };
    let entry = parse_entry(&serialize_batch(&build_batch(&c, 0)));
    let rh = entry["requestHeaders"].as_str().unwrap();
    let inner: serde_json::Value = serde_json::from_str(rh).unwrap();
    assert_eq!(inner["x-note"], "say \"hi\"");
}
