use lookup_latency::harness::LookupRecord;
use lookup_latency::json::render_records;

fn rec(body: &[u8], nanos: u64, found: bool) -> LookupRecord {
    LookupRecord { body: body.to_vec(), nanos, found }
}

#[test]
fn empty_run_renders_empty_array() {
    let out = render_records(&Vec::new());
    assert_eq!(out, b"[]".to_vec());
}

#[test]
fn one_record_renders_exactly() {
    let out = render_records(&vec![rec(b"hi", 1_500_000_123, true)]);
    assert_eq!(
        String::from_utf8(out).unwrap(),
        r#"[{"body":"hi","found":true,"lookupTimeTaken":{"secs":1,"nanos":500000123}}]"#
    );
}

#[test]
fn two_records_stay_in_order() {
    let out = render_records(&vec![rec(b"first", 0, true), rec(b"second", 42, false)]);
    let mut expected = String::from(r#"[{"body":"first","found":true,"lookupTimeTaken":{"secs":0,"nanos":0}},"#);
    expected.push_str(r#"{"body":"second","found":false,"lookupTimeTaken":{"secs":0,"nanos":42}}]"#);
    assert_eq!(String::from_utf8(out).unwrap(), expected);
}

#[test]
fn widest_duration_splits_exactly() {
    let out = render_records(&vec![rec(b"", u64::MAX, false)]);
    assert_eq!(
        String::from_utf8(out).unwrap(),
        r#"[{"body":"","found":false,"lookupTimeTaken":{"secs":18446744073,"nanos":709551615}}]"#
    );
}

#[test]
fn special_bytes_are_escaped() {
    let out = render_records(&vec![rec(b"a\"b\\c\nd\te\x01f\x1fg\x7f", 1, true)]);
    let text = String::from_utf8(out).unwrap();
    assert_eq!(
        text,
        r#"[{"body":"a\"b\\c\nd\te\u0001f\u001fg␡","found":true,"lookupTimeTaken":{"secs":0,"nanos":1}}]"#
            .replace('␡', "\x7f")
    );
}

#[test]
fn short_escapes_match_their_bytes() {
    let out = render_records(&vec![rec(b"\x08\x09\x0a\x0c\x0d", 0, false)]);
    let text = String::from_utf8(out).unwrap();
    assert!(text.contains(r#""body":"\b\t\n\f\r""#));
}

#[test]
fn rendered_json_parses_back() {
    let body: Vec<u8> = b"Hello! \"quoted\" \\slash\\ and\nnewline \x02".to_vec();
    let out = render_records(&vec![rec(&body, 2_000_000_001, true)]);
    let v: serde_json::Value = serde_json::from_slice(&out).unwrap();
    let arr = v.as_array().unwrap();
    assert_eq!(arr.len(), 1);
    assert_eq!(
        arr[0]["body"].as_str().unwrap().as_bytes(),
        body.as_slice()
    );
    assert_eq!(arr[0]["found"].as_bool().unwrap(), true);
    assert_eq!(arr[0]["lookupTimeTaken"]["secs"].as_u64().unwrap(), 2);
    assert_eq!(arr[0]["lookupTimeTaken"]["nanos"].as_u64().unwrap(), 1);
}
