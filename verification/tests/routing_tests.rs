use lookup_latency::router::{handle_request, HandlerStep, TestKind};

#[test]
fn post_is_refused_with_405() {
    let step = handle_request(b"POST", b"/lookup-test", Some(b"3"), None);
    match step {
        HandlerStep::Respond(resp) => {
            assert_eq!(resp.status, 405);
            assert_eq!(resp.body, b"This method is not allowed\n".to_vec());
            assert_eq!(resp.headers.len(), 2);
            assert_eq!(resp.headers[0].name, b"allow".to_vec());
            assert_eq!(resp.headers[0].value, b"GET, HEAD".to_vec());
            assert_eq!(resp.headers[1].name, b"content-type".to_vec());
            assert_eq!(resp.headers[1].value, b"text/plain; charset=utf-8".to_vec());
        },
        _ => panic!("a POST must be answered directly"),
    }
}

#[test]
fn delete_on_root_is_refused_with_405() {
    let step = handle_request(b"DELETE", b"/", None, None);
    match step {
        HandlerStep::Respond(resp) => assert_eq!(resp.status, 405),
        _ => panic!("a DELETE must be answered directly"),
    }
}

#[test]
fn get_unknown_path_is_404() {
    let step = handle_request(b"GET", b"/somewhere-else", Some(b"3"), None);
    match step {
        HandlerStep::Respond(resp) => {
            assert_eq!(resp.status, 404);
            assert_eq!(
                resp.body,
                b"The page you requested could not be found\n".to_vec()
            );
            assert_eq!(resp.headers[1].name, b"x-service-name".to_vec());
            assert_eq!(resp.headers[1].value, b"JesseCacheDService".to_vec());
        },
        _ => panic!("an unknown path must be answered directly"),
    }
}

#[test]
fn head_unknown_path_is_404() {
    let step = handle_request(b"HEAD", b"/lookup-test/", None, None);
    match step {
        HandlerStep::Respond(resp) => assert_eq!(resp.status, 404),
        _ => panic!("an unknown path must be answered directly"),
    }
}

#[test]
fn get_root_proxies_home() {
    let step = handle_request(b"GET", b"/", None, None);
    assert!(matches!(step, HandlerStep::ProxyHome));
}

#[test]
fn cache_test_dispatches_with_parsed_params() {
    let step = handle_request(b"GET", b"/lookup-test", Some(b"3"), Some(b"my-key"));
    match step {
        HandlerStep::RunTest(kind, p) => {
            assert_eq!(kind, TestKind::Cache);
            assert_eq!(p.iterations, 3);
            assert_eq!(p.key, b"my-key".to_vec());
        },
        _ => panic!("a well-formed test request must dispatch"),
    }
}

#[test]
fn kv_test_dispatches_with_default_key() {
    let step = handle_request(b"HEAD", b"/kv-lookup-test", Some(b"0"), None);
    match step {
        HandlerStep::RunTest(kind, p) => {
            assert_eq!(kind, TestKind::KvStore);
            assert_eq!(p.iterations, 0);
            assert_eq!(p.key, b"some sort of cache key".to_vec());
        },
        _ => panic!("a well-formed test request must dispatch"),
    }
}

#[test]
fn missing_iterations_is_400() {
    let step = handle_request(b"GET", b"/lookup-test", None, None);
    match step {
        HandlerStep::Respond(resp) => {
            assert_eq!(resp.status, 400);
            assert_eq!(
                resp.body,
                b"The iterations parameter is missing or not a number\n".to_vec()
            );
        },
        _ => panic!("a test request without an iteration count must be answered directly"),
    }
}

#[test]
fn malformed_iterations_is_400() {
    let step = handle_request(b"GET", b"/kv-lookup-test", Some(b"three"), None);
    match step {
        HandlerStep::Respond(resp) => assert_eq!(resp.status, 400),
        _ => panic!("a test request with a bad iteration count must be answered directly"),
    }
}
