use lookup_latency::harness::{record_outcome, Harness, IterationEvent};
use lookup_latency::router::{finish_lookup_test, handle_request, HandlerStep, TestKind};
use lookup_latency::seed::{seed_decision, CacheLookupOutcome, SeedAction};

#[test]
fn zero_iterations_is_done_at_once() {
    let h = Harness::new(0);
    assert!(h.done());
    assert_eq!(h.iterations_target(), 0);
    let records = h.results();
    assert_eq!(records.len(), 0);
}

#[test]
fn negative_iterations_runs_none() {
    let h = Harness::new(-5);
    assert!(h.done());
    assert_eq!(h.iterations_target(), 0);
}

#[test]
fn run_produces_exactly_n_records_in_order() {
    let mut h = Harness::new(3);
    let bodies: [&[u8]; 3] = [b"first", b"second", b"third"];
    let mut i = 0;
    while !h.done() {
        h.begin_iteration();
        h.finish_iteration(bodies[i].to_vec(), true);
        i += 1;
    }
    assert_eq!(i, 3);
    let records = h.results();
    assert_eq!(records.len(), 3);
    for (k, r) in records.iter().enumerate() {
        assert_eq!(r.body, bodies[k].to_vec());
        assert!(r.found);
    }
}

#[test]
fn start_times_never_regress() {
    let mut h = Harness::new(4);
    while !h.done() {
        h.begin_iteration();
        h.finish_iteration(b"x".to_vec(), true);
    }
    let starts = h.start_times();
    assert_eq!(starts.len(), 4);
    for w in starts.windows(2) {
        assert!(w[0] <= w[1]);
    }
}

#[test]
fn an_absent_key_is_recorded_not_fatal() {
    let mut h = Harness::new(2);
    h.begin_iteration();
    assert!(record_outcome(&mut h, IterationEvent::Found(b"here".to_vec())));
    h.begin_iteration();
    assert!(record_outcome(&mut h, IterationEvent::NotFound));
    assert!(h.done());
    let records = h.results();
    assert_eq!(records.len(), 2);
    assert!(records[0].found);
    assert_eq!(records[0].body, b"here".to_vec());
    assert!(!records[1].found);
    assert_eq!(records[1].body, Vec::<u8>::new());
}

#[test]
fn a_store_failure_abandons_the_run() {
    let mut h = Harness::new(3);
    h.begin_iteration();
    assert!(!record_outcome(&mut h, IterationEvent::StoreFailed));
    let records = h.results();
    assert_eq!(records.len(), 0);
}

#[test]
fn seed_decision_inserts_only_on_a_miss() {
    match seed_decision(CacheLookupOutcome::Missing) {
        SeedAction::Insert { ttl_secs, message } => {
            assert_eq!(ttl_secs, 600);
            assert_eq!(message, b"Hello! Let's test some latency!".to_vec());
        },
        SeedAction::LeaveAlone => panic!("a missing key must be seeded"),
    }
    assert!(matches!(
        seed_decision(CacheLookupOutcome::Found),
        SeedAction::LeaveAlone
    ));
    assert!(matches!(
        seed_decision(CacheLookupOutcome::Failed),
        SeedAction::LeaveAlone
    ));
}

#[test]
fn three_iterations_make_three_found_objects() {
    let step = handle_request(b"GET", b"/lookup-test", Some(b"3"), Some(b"fixed-key"));
    let params = match step {
        HandlerStep::RunTest(TestKind::Cache, p) => p,
        _ => panic!("the request must dispatch to the cache test"),
    };
    assert_eq!(params.iterations, 3);

    let seeded = match seed_decision(CacheLookupOutcome::Missing) {
        SeedAction::Insert { message, .. } => message,
        SeedAction::LeaveAlone => panic!("a missing key must be seeded"),
    };

    let mut h = Harness::new(params.iterations);
    while !h.done() {
        h.begin_iteration();
        h.finish_iteration(seeded.clone(), true);
    }
    let resp = finish_lookup_test(h);
    assert_eq!(resp.status, 200);
    assert_eq!(resp.headers[0].name, b"content-type".to_vec());
    assert_eq!(resp.headers[0].value, b"application/json".to_vec());

    let v: serde_json::Value = serde_json::from_slice(&resp.body).unwrap();
    let arr = v.as_array().unwrap();
    assert_eq!(arr.len(), 3);
    for obj in arr {
        assert_eq!(obj["found"].as_bool().unwrap(), true);
        assert_eq!(
            obj["body"].as_str().unwrap(),
            "Hello! Let's test some latency!"
        );
        assert!(obj["lookupTimeTaken"]["secs"].as_u64().is_some());
        assert!(obj["lookupTimeTaken"]["nanos"].as_u64().unwrap() < 1_000_000_000);
    }
}
