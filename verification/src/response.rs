//! The HTTP responses the service produces, as plain data: a status code, a
//! list of headers, and a body.

use vstd::prelude::*;
use crate::harness::LookupRecord;
use crate::json;
use crate::text;

verus! {

/// One response header.
pub struct Header {
    pub name: Vec<u8>,
    pub value: Vec<u8>,
}

/// An HTTP response as plain data.
pub struct HttpResponse {
    pub status: u16,
    pub headers: Vec<Header>,
    pub body: Vec<u8>,
}

/// The header of `r` at position `i` is `name: value`.
pub open spec fn header_is(r: HttpResponse, i: int, name: Seq<u8>, value: Seq<u8>) -> bool {
    &&& r.headers@[i].name@ == name
    &&& r.headers@[i].value@ == value
}

/// The response refusing a method other than GET or HEAD: a 405 that names
/// the allowed methods.
pub open spec fn is_method_not_allowed(r: HttpResponse) -> bool {
    &&& r.status == 405
    &&& r.headers@.len() == 2
    &&& header_is(r, 0, text::allow_name(), text::allow_value())
    &&& header_is(r, 1, text::content_type_name(), text::plain_content_type())
    &&& r.body@ == text::method_not_allowed_body()
}

/// The response for a path the service does not know: a plain-text 404.
pub open spec fn is_not_found(r: HttpResponse) -> bool {
    &&& r.status == 404
    &&& r.headers@.len() == 2
    &&& header_is(r, 0, text::content_type_name(), text::plain_content_type())
    &&& header_is(r, 1, text::service_header_name(), text::service_header_value())
    &&& r.body@ == text::not_found_body()
}

/// The response for a lookup test whose `iterations` parameter is missing or
/// malformed: a plain-text 400.
pub open spec fn is_bad_request(r: HttpResponse) -> bool {
    &&& r.status == 400
    &&& r.headers@.len() == 2
    &&& header_is(r, 0, text::content_type_name(), text::plain_content_type())
    &&& header_is(r, 1, text::service_header_name(), text::service_header_value())
    &&& r.body@ == text::bad_request_body()
}

/// The response for a run the underlying store made fail: a plain-text 502.
pub open spec fn is_bad_gateway(r: HttpResponse) -> bool {
    &&& r.status == 502
    &&& r.headers@.len() == 2
    &&& header_is(r, 0, text::content_type_name(), text::plain_content_type())
    &&& header_is(r, 1, text::service_header_name(), text::service_header_value())
    &&& r.body@ == text::service_error_body()
}

/// The response of a finished run: a 200 whose body is the JSON array of the
/// given records.
pub open spec fn is_ok_json(r: HttpResponse, recs: Seq<LookupRecord>) -> bool {
    &&& r.status == 200
    &&& r.headers@.len() == 2
    &&& header_is(r, 0, text::content_type_name(), text::json_content_type())
    &&& header_is(r, 1, text::service_header_name(), text::service_header_value())
    &&& r.body@ == json::json_records(recs)
}

/// The header identifying the service, carried by every response the service
/// builds itself.
pub fn service_header() -> (h: Header)
    ensures
        h.name@ == text::service_header_name(),
        h.value@ == text::service_header_value(),
{
    Header { name: text::service_header_name_vec(), value: text::service_header_value_vec() }
}

/// Build the 405 response for a refused method.
pub fn method_not_allowed() -> (r: HttpResponse)
    ensures
        is_method_not_allowed(r),
{
    let mut headers: Vec<Header> = Vec::new();
    headers.push(Header { name: text::allow_name_vec(), value: text::allow_value_vec() });
    headers.push(
        Header { name: text::content_type_name_vec(), value: text::plain_content_type_vec() },
    );
    HttpResponse { status: 405, headers, body: text::method_not_allowed_body_vec() }
}

/// Build the 404 response for an unknown path.
pub fn not_found() -> (r: HttpResponse)
    ensures
        is_not_found(r),
{
    let mut headers: Vec<Header> = Vec::new();
    headers.push(
        Header { name: text::content_type_name_vec(), value: text::plain_content_type_vec() },
    );
    headers.push(service_header());
    HttpResponse { status: 404, headers, body: text::not_found_body_vec() }
}

/// Build the 400 response for a rejected iteration count.
pub fn bad_request() -> (r: HttpResponse)
    ensures
        is_bad_request(r),
{
    let mut headers: Vec<Header> = Vec::new();
    headers.push(
        Header { name: text::content_type_name_vec(), value: text::plain_content_type_vec() },
    );
    headers.push(service_header());
    HttpResponse { status: 400, headers, body: text::bad_request_body_vec() }
}

/// Build the 502 response for a run the underlying store made fail.
pub fn bad_gateway() -> (r: HttpResponse)
    ensures
        is_bad_gateway(r),
{
    let mut headers: Vec<Header> = Vec::new();
    headers.push(
        Header { name: text::content_type_name_vec(), value: text::plain_content_type_vec() },
    );
    headers.push(service_header());
    HttpResponse { status: 502, headers, body: text::service_error_body_vec() }
}

/// Build the 200 response carrying a run's records as JSON.
pub fn ok_json(records: &Vec<LookupRecord>) -> (r: HttpResponse)
    ensures
        is_ok_json(r, records@),
{
    let mut headers: Vec<Header> = Vec::new();
    headers.push(
        Header { name: text::content_type_name_vec(), value: text::json_content_type_vec() },
    );
    headers.push(service_header());
    HttpResponse { status: 200, headers, body: json::render_records(records) }
}

} // verus!
