use lookup_latency::response::{
    bad_gateway, bad_request, method_not_allowed, not_found, ok_json, service_header,
};

#[test]
fn bad_gateway_is_fully_formed() {
    let r = bad_gateway();
    assert_eq!(r.status, 502);
    assert_eq!(r.headers.len(), 2);
    assert_eq!(r.headers[0].name, b"content-type".to_vec());
    assert_eq!(r.headers[1].name, b"x-service-name".to_vec());
    assert_eq!(r.body, b"The lookup service reported an error\n".to_vec());
}

#[test]
fn method_not_allowed_is_fully_formed() {
    let r = method_not_allowed();
    assert_eq!(r.status, 405);
    assert_eq!(r.headers.len(), 2);
    assert_eq!(r.headers[0].name, b"allow".to_vec());
    assert_eq!(r.headers[0].value, b"GET, HEAD".to_vec());
    assert_eq!(r.headers[1].name, b"content-type".to_vec());
    assert_eq!(r.headers[1].value, b"text/plain; charset=utf-8".to_vec());
    assert_eq!(r.body, b"This method is not allowed\n".to_vec());
}

#[test]
fn not_found_is_fully_formed() {
    let r = not_found();
    assert_eq!(r.status, 404);
    assert_eq!(r.headers.len(), 2);
    assert_eq!(r.headers[0].name, b"content-type".to_vec());
    assert_eq!(r.headers[0].value, b"text/plain; charset=utf-8".to_vec());
    assert_eq!(r.headers[1].name, b"x-service-name".to_vec());
    assert_eq!(r.headers[1].value, b"JesseCacheDService".to_vec());
    assert_eq!(r.body, b"The page you requested could not be found\n".to_vec());
}

#[test]
fn bad_request_is_fully_formed() {
    let r = bad_request();
    assert_eq!(r.status, 400);
    assert_eq!(r.headers.len(), 2);
    assert_eq!(
        r.body,
        b"The iterations parameter is missing or not a number\n".to_vec()
    );
}

#[test]
fn ok_json_carries_the_rendered_records() {
    let r = ok_json(&Vec::new());
    assert_eq!(r.status, 200);
    assert_eq!(r.headers.len(), 2);
    assert_eq!(r.headers[0].name, b"content-type".to_vec());
    assert_eq!(r.headers[0].value, b"application/json".to_vec());
    assert_eq!(r.headers[1].name, b"x-service-name".to_vec());
    assert_eq!(r.headers[1].value, b"JesseCacheDService".to_vec());
    assert_eq!(r.body, b"[]".to_vec());
}

#[test]
fn service_header_names_the_service() {
    let h = service_header();
    assert_eq!(h.name, b"x-service-name".to_vec());
    assert_eq!(h.value, b"JesseCacheDService".to_vec());
}
