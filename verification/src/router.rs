//! Request routing: the method allow-list, the fixed path table, and the
//! assembly of a finished run into its response.

use vstd::prelude::*;
use crate::bytes_eq;
use crate::harness::Harness;
use crate::params;
use crate::params::TestParams;
use crate::response;
use crate::response::HttpResponse;
use crate::text;

verus! {

/// The lookup test variants the service offers.
#[derive(Debug, Clone, Copy, PartialEq, Eq, Structural)]
pub enum TestKind {
    /// The transactional cache lookup test.
    Cache,
    /// The KV store lookup test.
    KvStore,
}

/// What a routed request asks the caller to do next.
pub enum HandlerStep {
    /// Answer with this response.
    Respond(HttpResponse),
    /// Forward the request to the home backend.
    ProxyHome,
    /// Run a lookup test with these parameters and answer with its records.
    RunTest(TestKind, TestParams),
}

/// GET and HEAD are the only allowed methods.
pub open spec fn method_allowed(method: Seq<u8>) -> bool {
    method == text::get_method() || method == text::head_method()
}

/// The paths the service recognizes.
pub open spec fn is_known_path(path: Seq<u8>) -> bool {
    ||| path == text::root_path()
    ||| path == text::cache_test_path()
    ||| path == text::kv_test_path()
}

/// The `iterations` parameter is missing or not an accepted integer.
pub open spec fn bad_params(iterations: Option<&[u8]>) -> bool {
    match iterations {
        None => true,
        Some(s) => !params::valid_i32(s@),
    }
}

/// `p` holds what the request's parameters say: the parsed iteration count
/// and the given key, or the default key where none was given.
pub open spec fn params_of(p: TestParams, iterations: Option<&[u8]>, key: Option<&[u8]>) -> bool {
    &&& iterations matches Some(s) && params::valid_i32(s@) && p.iterations == params::i32_value(
        s@,
    )
    &&& p.key@ == match key {
        Some(k) => k@,
        None => text::default_key(),
    }
}

/// What the router must hand back for a request: a 405 for a refused method,
/// the proxy step for the home path, a 404 for an unknown path, a 400 for a
/// test request without a usable iteration count, and otherwise the test to
/// run with its parameters.
pub open spec fn handler_step_ok(
    r: HandlerStep,
    method: Seq<u8>,
    path: Seq<u8>,
    iterations: Option<&[u8]>,
    key: Option<&[u8]>,
) -> bool {
    if !method_allowed(method) {
        r matches HandlerStep::Respond(resp) && response::is_method_not_allowed(resp)
    } else if path == text::root_path() {
        r is ProxyHome
    } else if path == text::cache_test_path() || path == text::kv_test_path() {
        if bad_params(iterations) {
            r matches HandlerStep::Respond(resp) && response::is_bad_request(resp)
        } else {
            r matches HandlerStep::RunTest(kind, p) && params_of(p, iterations, key) && (kind
                == TestKind::Cache <==> path == text::cache_test_path())
        }
    } else {
        r matches HandlerStep::Respond(resp) && response::is_not_found(resp)
    }
}

/// Route one request from its method, path and query parameters.
pub fn handle_request(
    method: &[u8],
    path: &[u8],
    iterations: Option<&[u8]>,
    key: Option<&[u8]>,
) -> (r: HandlerStep)
    ensures
        handler_step_ok(r, method@, path@, iterations, key),
{
    let allowed = bytes_eq(method, text::get_method_vec().as_slice()) || bytes_eq(
        method,
        text::head_method_vec().as_slice(),
    );
    if !allowed {
        return HandlerStep::Respond(response::method_not_allowed());
    }
    if bytes_eq(path, text::root_path_vec().as_slice()) {
        return HandlerStep::ProxyHome;
    }
    let cache = bytes_eq(path, text::cache_test_path_vec().as_slice());
    let kv = bytes_eq(path, text::kv_test_path_vec().as_slice());
    if cache || kv {
        match params::extract_params(iterations, key) {
            Err(_) => HandlerStep::Respond(response::bad_request()),
            Ok(p) => HandlerStep::RunTest(
                if cache {
                    TestKind::Cache
                } else {
                    TestKind::KvStore
                },
                p,
            ),
        }
    } else {
        HandlerStep::Respond(response::not_found())
    }
}

/// Answer a finished run: its records, in iteration order, as the JSON body
/// of a 200 response.
pub fn finish_lookup_test(h: Harness) -> (r: HttpResponse)
    ensures
        response::is_ok_json(r, h.recs()),
{
    let records = h.results();
    response::ok_json(&records)
}

/// Law: a request whose method is neither GET nor HEAD is always answered 405
/// with the allowed methods named, and an allowed request for a path the
/// service does not know is always answered 404, whatever else the request
/// holds.
pub proof fn lemma_routing_refusals(
    r: HandlerStep,
    method: Seq<u8>,
    path: Seq<u8>,
    iterations: Option<&[u8]>,
    key: Option<&[u8]>,
)
    requires
        handler_step_ok(r, method, path, iterations, key),
    ensures
        !method_allowed(method) ==> (r matches HandlerStep::Respond(resp)
            && response::is_method_not_allowed(resp)),
        method_allowed(method) && !is_known_path(path) ==> (r matches HandlerStep::Respond(resp)
            && response::is_not_found(resp)),
{
}

} // verus!
