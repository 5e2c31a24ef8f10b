//! The fixed byte strings of the service: methods, paths, header names and
//! values, response bodies, and the seeded value, each as a spec-level byte
//! sequence with an executable builder proved to produce exactly it.

use vstd::prelude::*;

verus! {

/// Bytes of the request method `GET`.
pub open spec fn get_method() -> Seq<u8> {
    seq![
        'G' as u8, 'E' as u8, 'T' as u8,
    ]
}

/// Build the request method `GET` as a byte vector.
pub fn get_method_vec() -> (r: Vec<u8>)
    ensures
        r@ == get_method(),
{
    let mut v: Vec<u8> = Vec::new();
    v.push('G' as u8);
    v.push('E' as u8);
    v.push('T' as u8);
    proof {
        assert(v@ =~= get_method());
    }
    v
}

/// Bytes of the request method `HEAD`.
pub open spec fn head_method() -> Seq<u8> {
    seq![
        'H' as u8, 'E' as u8, 'A' as u8, 'D' as u8,
    ]
}

/// Build the request method `HEAD` as a byte vector.
pub fn head_method_vec() -> (r: Vec<u8>)
    ensures
        r@ == head_method(),
{
    let mut v: Vec<u8> = Vec::new();
    v.push('H' as u8);
    v.push('E' as u8);
    v.push('A' as u8);
    v.push('D' as u8);
    proof {
        assert(v@ =~= head_method());
    }
    v
}

/// Bytes of the home path.
pub open spec fn root_path() -> Seq<u8> {
    seq![
        '/' as u8,
    ]
}

/// Build the home path as a byte vector.
pub fn root_path_vec() -> (r: Vec<u8>)
    ensures
        r@ == root_path(),
{
    let mut v: Vec<u8> = Vec::new();
    v.push('/' as u8);
    proof {
        assert(v@ =~= root_path());
    }
    v
}

/// Bytes of the path of the cache lookup test.
pub open spec fn cache_test_path() -> Seq<u8> {
    seq![
        '/' as u8, 'l' as u8, 'o' as u8, 'o' as u8, 'k' as u8, 'u' as u8,
        'p' as u8, '-' as u8, 't' as u8, 'e' as u8, 's' as u8, 't' as u8,
    ]
}

/// Build the path of the cache lookup test as a byte vector.
pub fn cache_test_path_vec() -> (r: Vec<u8>)
    ensures
        r@ == cache_test_path(),
{
    let mut v: Vec<u8> = Vec::new();
    v.push('/' as u8);
    v.push('l' as u8);
    v.push('o' as u8);
    v.push('o' as u8);
    v.push('k' as u8);
    v.push('u' as u8);
    v.push('p' as u8);
    v.push('-' as u8);
    v.push('t' as u8);
    v.push('e' as u8);
    v.push('s' as u8);
    v.push('t' as u8);
    proof {
        assert(v@ =~= cache_test_path());
    }
    v
}

/// Bytes of the path of the KV store lookup test.
pub open spec fn kv_test_path() -> Seq<u8> {
    seq![
        '/' as u8, 'k' as u8, 'v' as u8, '-' as u8, 'l' as u8, 'o' as u8,
        'o' as u8, 'k' as u8, 'u' as u8, 'p' as u8, '-' as u8, 't' as u8,
        'e' as u8, 's' as u8, 't' as u8,
    ]
}

/// Build the path of the KV store lookup test as a byte vector.
pub fn kv_test_path_vec() -> (r: Vec<u8>)
    ensures
        r@ == kv_test_path(),
{
    let mut v: Vec<u8> = Vec::new();
    v.push('/' as u8);
    v.push('k' as u8);
    v.push('v' as u8);
    v.push('-' as u8);
    v.push('l' as u8);
    v.push('o' as u8);
    v.push('o' as u8);
    v.push('k' as u8);
    v.push('u' as u8);
    v.push('p' as u8);
    v.push('-' as u8);
    v.push('t' as u8);
    v.push('e' as u8);
    v.push('s' as u8);
    v.push('t' as u8);
    proof {
        assert(v@ =~= kv_test_path());
    }
    v
}

/// Bytes of the `Allow` header name.
pub open spec fn allow_name() -> Seq<u8> {
    seq![
        'a' as u8, 'l' as u8, 'l' as u8, 'o' as u8, 'w' as u8,
    ]
}

/// Build the `Allow` header name as a byte vector.
pub fn allow_name_vec() -> (r: Vec<u8>)
    ensures
        r@ == allow_name(),
{
    let mut v: Vec<u8> = Vec::new();
    v.push('a' as u8);
    v.push('l' as u8);
    v.push('l' as u8);
    v.push('o' as u8);
    v.push('w' as u8);
    proof {
        assert(v@ =~= allow_name());
    }
    v
}

/// Bytes of the value of the `Allow` header on a refused method.
pub open spec fn allow_value() -> Seq<u8> {
    seq![
        'G' as u8, 'E' as u8, 'T' as u8, ',' as u8, ' ' as u8, 'H' as u8,
        'E' as u8, 'A' as u8, 'D' as u8,
    ]
}

/// Build the value of the `Allow` header on a refused method as a byte vector.
pub fn allow_value_vec() -> (r: Vec<u8>)
    ensures
        r@ == allow_value(),
{
    let mut v: Vec<u8> = Vec::new();
    v.push('G' as u8);
    v.push('E' as u8);
    v.push('T' as u8);
    v.push(',' as u8);
    v.push(' ' as u8);
    v.push('H' as u8);
    v.push('E' as u8);
    v.push('A' as u8);
    v.push('D' as u8);
    proof {
        assert(v@ =~= allow_value());
    }
    v
}

/// Bytes of the `Content-Type` header name.
pub open spec fn content_type_name() -> Seq<u8> {
    seq![
        'c' as u8, 'o' as u8, 'n' as u8, 't' as u8, 'e' as u8, 'n' as u8,
        't' as u8, '-' as u8, 't' as u8, 'y' as u8, 'p' as u8, 'e' as u8,
    ]
}

/// Build the `Content-Type` header name as a byte vector.
pub fn content_type_name_vec() -> (r: Vec<u8>)
    ensures
        r@ == content_type_name(),
{
    let mut v: Vec<u8> = Vec::new();
    v.push('c' as u8);
    v.push('o' as u8);
    v.push('n' as u8);
    v.push('t' as u8);
    v.push('e' as u8);
    v.push('n' as u8);
    v.push('t' as u8);
    v.push('-' as u8);
    v.push('t' as u8);
    v.push('y' as u8);
    v.push('p' as u8);
    v.push('e' as u8);
    proof {
        assert(v@ =~= content_type_name());
    }
    v
}

/// Bytes of the JSON content type.
pub open spec fn json_content_type() -> Seq<u8> {
    seq![
        'a' as u8, 'p' as u8, 'p' as u8, 'l' as u8, 'i' as u8, 'c' as u8,
        'a' as u8, 't' as u8, 'i' as u8, 'o' as u8, 'n' as u8, '/' as u8,
        'j' as u8, 's' as u8, 'o' as u8, 'n' as u8,
    ]
}

/// Build the JSON content type as a byte vector.
pub fn json_content_type_vec() -> (r: Vec<u8>)
    ensures
        r@ == json_content_type(),
{
    let mut v: Vec<u8> = Vec::new();
    v.push('a' as u8);
    v.push('p' as u8);
    v.push('p' as u8);
    v.push('l' as u8);
    v.push('i' as u8);
    v.push('c' as u8);
    v.push('a' as u8);
    v.push('t' as u8);
    v.push('i' as u8);
    v.push('o' as u8);
    v.push('n' as u8);
    v.push('/' as u8);
    v.push('j' as u8);
    v.push('s' as u8);
    v.push('o' as u8);
    v.push('n' as u8);
    proof {
        assert(v@ =~= json_content_type());
    }
    v
}

/// Bytes of the plain-text content type.
pub open spec fn plain_content_type() -> Seq<u8> {
    seq![
        't' as u8, 'e' as u8, 'x' as u8, 't' as u8, '/' as u8, 'p' as u8,
        'l' as u8, 'a' as u8, 'i' as u8, 'n' as u8, ';' as u8, ' ' as u8,
        'c' as u8, 'h' as u8, 'a' as u8, 'r' as u8, 's' as u8, 'e' as u8,
        't' as u8, '=' as u8, 'u' as u8, 't' as u8, 'f' as u8, '-' as u8,
        '8' as u8,
    ]
}

/// Build the plain-text content type as a byte vector.
pub fn plain_content_type_vec() -> (r: Vec<u8>)
    ensures
        r@ == plain_content_type(),
{
    let mut v: Vec<u8> = Vec::new();
    v.push('t' as u8);
    v.push('e' as u8);
    v.push('x' as u8);
    v.push('t' as u8);
    v.push('/' as u8);
    v.push('p' as u8);
    v.push('l' as u8);
    v.push('a' as u8);
    v.push('i' as u8);
    v.push('n' as u8);
    v.push(';' as u8);
    v.push(' ' as u8);
    v.push('c' as u8);
    v.push('h' as u8);
    v.push('a' as u8);
    v.push('r' as u8);
    v.push('s' as u8);
    v.push('e' as u8);
    v.push('t' as u8);
    v.push('=' as u8);
    v.push('u' as u8);
    v.push('t' as u8);
    v.push('f' as u8);
    v.push('-' as u8);
    v.push('8' as u8);
    proof {
        assert(v@ =~= plain_content_type());
    }
    v
}

/// Bytes of the service identification header name.
pub open spec fn service_header_name() -> Seq<u8> {
    seq![
        'x' as u8, '-' as u8, 's' as u8, 'e' as u8, 'r' as u8, 'v' as u8,
        'i' as u8, 'c' as u8, 'e' as u8, '-' as u8, 'n' as u8, 'a' as u8,
        'm' as u8, 'e' as u8,
    ]
}

/// Build the service identification header name as a byte vector.
pub fn service_header_name_vec() -> (r: Vec<u8>)
    ensures
        r@ == service_header_name(),
{
    let mut v: Vec<u8> = Vec::new();
    v.push('x' as u8);
    v.push('-' as u8);
    v.push('s' as u8);
    v.push('e' as u8);
    v.push('r' as u8);
    v.push('v' as u8);
    v.push('i' as u8);
    v.push('c' as u8);
    v.push('e' as u8);
    v.push('-' as u8);
    v.push('n' as u8);
    v.push('a' as u8);
    v.push('m' as u8);
    v.push('e' as u8);
    proof {
        assert(v@ =~= service_header_name());
    }
    v
}

/// Bytes of the service identification header value.
pub open spec fn service_header_value() -> Seq<u8> {
    seq![
        'J' as u8, 'e' as u8, 's' as u8, 's' as u8, 'e' as u8, 'C' as u8,
        'a' as u8, 'c' as u8, 'h' as u8, 'e' as u8, 'D' as u8, 'S' as u8,
        'e' as u8, 'r' as u8, 'v' as u8, 'i' as u8, 'c' as u8, 'e' as u8,
    ]
}

/// Build the service identification header value as a byte vector.
pub fn service_header_value_vec() -> (r: Vec<u8>)
    ensures
        r@ == service_header_value(),
{
    let mut v: Vec<u8> = Vec::new();
    v.push('J' as u8);
    v.push('e' as u8);
    v.push('s' as u8);
    v.push('s' as u8);
    v.push('e' as u8);
    v.push('C' as u8);
    v.push('a' as u8);
    v.push('c' as u8);
    v.push('h' as u8);
    v.push('e' as u8);
    v.push('D' as u8);
    v.push('S' as u8);
    v.push('e' as u8);
    v.push('r' as u8);
    v.push('v' as u8);
    v.push('i' as u8);
    v.push('c' as u8);
    v.push('e' as u8);
    proof {
        assert(v@ =~= service_header_value());
    }
    v
}

/// Bytes of the body of a 405 response.
pub open spec fn method_not_allowed_body() -> Seq<u8> {
    seq![
        'T' as u8, 'h' as u8, 'i' as u8, 's' as u8, ' ' as u8, 'm' as u8,
        'e' as u8, 't' as u8, 'h' as u8, 'o' as u8, 'd' as u8, ' ' as u8,
        'i' as u8, 's' as u8, ' ' as u8, 'n' as u8, 'o' as u8, 't' as u8,
        ' ' as u8, 'a' as u8, 'l' as u8, 'l' as u8, 'o' as u8, 'w' as u8,
        'e' as u8, 'd' as u8, '\n' as u8,
    ]
}

/// Build the body of a 405 response as a byte vector.
pub fn method_not_allowed_body_vec() -> (r: Vec<u8>)
    ensures
        r@ == method_not_allowed_body(),
{
    let mut v: Vec<u8> = Vec::new();
    v.push('T' as u8);
    v.push('h' as u8);
    v.push('i' as u8);
    v.push('s' as u8);
    v.push(' ' as u8);
    v.push('m' as u8);
    v.push('e' as u8);
    v.push('t' as u8);
    v.push('h' as u8);
    v.push('o' as u8);
    v.push('d' as u8);
    v.push(' ' as u8);
    v.push('i' as u8);
    v.push('s' as u8);
    v.push(' ' as u8);
    v.push('n' as u8);
    v.push('o' as u8);
    v.push('t' as u8);
    v.push(' ' as u8);
    v.push('a' as u8);
    v.push('l' as u8);
    v.push('l' as u8);
    v.push('o' as u8);
    v.push('w' as u8);
    v.push('e' as u8);
    v.push('d' as u8);
    v.push('\n' as u8);
    proof {
        assert(v@ =~= method_not_allowed_body());
    }
    v
}

/// Bytes of the body of a 404 response.
pub open spec fn not_found_body() -> Seq<u8> {
    seq![
        'T' as u8, 'h' as u8, 'e' as u8, ' ' as u8, 'p' as u8, 'a' as u8,
        'g' as u8, 'e' as u8, ' ' as u8, 'y' as u8, 'o' as u8, 'u' as u8,
        ' ' as u8, 'r' as u8, 'e' as u8, 'q' as u8, 'u' as u8, 'e' as u8,
        's' as u8, 't' as u8, 'e' as u8, 'd' as u8, ' ' as u8, 'c' as u8,
        'o' as u8, 'u' as u8, 'l' as u8, 'd' as u8, ' ' as u8, 'n' as u8,
        'o' as u8, 't' as u8, ' ' as u8, 'b' as u8, 'e' as u8, ' ' as u8,
        'f' as u8, 'o' as u8, 'u' as u8, 'n' as u8, 'd' as u8, '\n' as u8,
    ]
}

/// Build the body of a 404 response as a byte vector.
pub fn not_found_body_vec() -> (r: Vec<u8>)
    ensures
        r@ == not_found_body(),
{
    let mut v: Vec<u8> = Vec::new();
    v.push('T' as u8);
    v.push('h' as u8);
    v.push('e' as u8);
    v.push(' ' as u8);
    v.push('p' as u8);
    v.push('a' as u8);
    v.push('g' as u8);
    v.push('e' as u8);
    v.push(' ' as u8);
    v.push('y' as u8);
    v.push('o' as u8);
    v.push('u' as u8);
    v.push(' ' as u8);
    v.push('r' as u8);
    v.push('e' as u8);
    v.push('q' as u8);
    v.push('u' as u8);
    v.push('e' as u8);
    v.push('s' as u8);
    v.push('t' as u8);
    v.push('e' as u8);
    v.push('d' as u8);
    v.push(' ' as u8);
    v.push('c' as u8);
    v.push('o' as u8);
    v.push('u' as u8);
    v.push('l' as u8);
    v.push('d' as u8);
    v.push(' ' as u8);
    v.push('n' as u8);
    v.push('o' as u8);
    v.push('t' as u8);
    v.push(' ' as u8);
    v.push('b' as u8);
    v.push('e' as u8);
    v.push(' ' as u8);
    v.push('f' as u8);
    v.push('o' as u8);
    v.push('u' as u8);
    v.push('n' as u8);
    v.push('d' as u8);
    v.push('\n' as u8);
    proof {
        assert(v@ =~= not_found_body());
    }
    v
}

/// Bytes of the body of a 400 response.
pub open spec fn bad_request_body() -> Seq<u8> {
    seq![
        'T' as u8, 'h' as u8, 'e' as u8, ' ' as u8, 'i' as u8, 't' as u8,
        'e' as u8, 'r' as u8, 'a' as u8, 't' as u8, 'i' as u8, 'o' as u8,
        'n' as u8, 's' as u8, ' ' as u8, 'p' as u8, 'a' as u8, 'r' as u8,
        'a' as u8, 'm' as u8, 'e' as u8, 't' as u8, 'e' as u8, 'r' as u8,
        ' ' as u8, 'i' as u8, 's' as u8, ' ' as u8, 'm' as u8, 'i' as u8,
        's' as u8, 's' as u8, 'i' as u8, 'n' as u8, 'g' as u8, ' ' as u8,
        'o' as u8, 'r' as u8, ' ' as u8, 'n' as u8, 'o' as u8, 't' as u8,
        ' ' as u8, 'a' as u8, ' ' as u8, 'n' as u8, 'u' as u8, 'm' as u8,
        'b' as u8, 'e' as u8, 'r' as u8, '\n' as u8,
    ]
}

/// Build the body of a 400 response as a byte vector.
pub fn bad_request_body_vec() -> (r: Vec<u8>)
    ensures
        r@ == bad_request_body(),
{
    let mut v: Vec<u8> = Vec::new();
    v.push('T' as u8);
    v.push('h' as u8);
    v.push('e' as u8);
    v.push(' ' as u8);
    v.push('i' as u8);
    v.push('t' as u8);
    v.push('e' as u8);
    v.push('r' as u8);
    v.push('a' as u8);
    v.push('t' as u8);
    v.push('i' as u8);
    v.push('o' as u8);
    v.push('n' as u8);
    v.push('s' as u8);
    v.push(' ' as u8);
    v.push('p' as u8);
    v.push('a' as u8);
    v.push('r' as u8);
    v.push('a' as u8);
    v.push('m' as u8);
    v.push('e' as u8);
    v.push('t' as u8);
    v.push('e' as u8);
    v.push('r' as u8);
    v.push(' ' as u8);
    v.push('i' as u8);
    v.push('s' as u8);
    v.push(' ' as u8);
    v.push('m' as u8);
    v.push('i' as u8);
    v.push('s' as u8);
    v.push('s' as u8);
    v.push('i' as u8);
    v.push('n' as u8);
    v.push('g' as u8);
    v.push(' ' as u8);
    v.push('o' as u8);
    v.push('r' as u8);
    v.push(' ' as u8);
    v.push('n' as u8);
    v.push('o' as u8);
    v.push('t' as u8);
    v.push(' ' as u8);
    v.push('a' as u8);
    v.push(' ' as u8);
    v.push('n' as u8);
    v.push('u' as u8);
    v.push('m' as u8);
    v.push('b' as u8);
    v.push('e' as u8);
    v.push('r' as u8);
    v.push('\n' as u8);
    proof {
        assert(v@ =~= bad_request_body());
    }
    v
}

/// Bytes of the body of a 502 response.
pub open spec fn service_error_body() -> Seq<u8> {
    seq![
        'T' as u8, 'h' as u8, 'e' as u8, ' ' as u8, 'l' as u8, 'o' as u8,
        'o' as u8, 'k' as u8, 'u' as u8, 'p' as u8, ' ' as u8, 's' as u8,
        'e' as u8, 'r' as u8, 'v' as u8, 'i' as u8, 'c' as u8, 'e' as u8,
        ' ' as u8, 'r' as u8, 'e' as u8, 'p' as u8, 'o' as u8, 'r' as u8,
        't' as u8, 'e' as u8, 'd' as u8, ' ' as u8, 'a' as u8, 'n' as u8,
        ' ' as u8, 'e' as u8, 'r' as u8, 'r' as u8, 'o' as u8, 'r' as u8,
        '\n' as u8,
    ]
}

/// Build the body of a 502 response as a byte vector.
pub fn service_error_body_vec() -> (r: Vec<u8>)
    ensures
        r@ == service_error_body(),
{
    let mut v: Vec<u8> = Vec::new();
    v.push('T' as u8);
    v.push('h' as u8);
    v.push('e' as u8);
    v.push(' ' as u8);
    v.push('l' as u8);
    v.push('o' as u8);
    v.push('o' as u8);
    v.push('k' as u8);
    v.push('u' as u8);
    v.push('p' as u8);
    v.push(' ' as u8);
    v.push('s' as u8);
    v.push('e' as u8);
    v.push('r' as u8);
    v.push('v' as u8);
    v.push('i' as u8);
    v.push('c' as u8);
    v.push('e' as u8);
    v.push(' ' as u8);
    v.push('r' as u8);
    v.push('e' as u8);
    v.push('p' as u8);
    v.push('o' as u8);
    v.push('r' as u8);
    v.push('t' as u8);
    v.push('e' as u8);
    v.push('d' as u8);
    v.push(' ' as u8);
    v.push('a' as u8);
    v.push('n' as u8);
    v.push(' ' as u8);
    v.push('e' as u8);
    v.push('r' as u8);
    v.push('r' as u8);
    v.push('o' as u8);
    v.push('r' as u8);
    v.push('\n' as u8);
    proof {
        assert(v@ =~= service_error_body());
    }
    v
}

/// Bytes of the lookup key used when none is given.
pub open spec fn default_key() -> Seq<u8> {
    seq![
        's' as u8, 'o' as u8, 'm' as u8, 'e' as u8, ' ' as u8, 's' as u8,
        'o' as u8, 'r' as u8, 't' as u8, ' ' as u8, 'o' as u8, 'f' as u8,
        ' ' as u8, 'c' as u8, 'a' as u8, 'c' as u8, 'h' as u8, 'e' as u8,
        ' ' as u8, 'k' as u8, 'e' as u8, 'y' as u8,
    ]
}

/// Build the lookup key used when none is given as a byte vector.
pub fn default_key_vec() -> (r: Vec<u8>)
    ensures
        r@ == default_key(),
{
    let mut v: Vec<u8> = Vec::new();
    v.push('s' as u8);
    v.push('o' as u8);
    v.push('m' as u8);
    v.push('e' as u8);
    v.push(' ' as u8);
    v.push('s' as u8);
    v.push('o' as u8);
    v.push('r' as u8);
    v.push('t' as u8);
    v.push(' ' as u8);
    v.push('o' as u8);
    v.push('f' as u8);
    v.push(' ' as u8);
    v.push('c' as u8);
    v.push('a' as u8);
    v.push('c' as u8);
    v.push('h' as u8);
    v.push('e' as u8);
    v.push(' ' as u8);
    v.push('k' as u8);
    v.push('e' as u8);
    v.push('y' as u8);
    proof {
        assert(v@ =~= default_key());
    }
    v
}

/// Bytes of the value written under the lookup key.
pub open spec fn seed_message() -> Seq<u8> {
    seq![
        'H' as u8, 'e' as u8, 'l' as u8, 'l' as u8, 'o' as u8, '!' as u8,
        ' ' as u8, 'L' as u8, 'e' as u8, 't' as u8, '\'' as u8, 's' as u8,
        ' ' as u8, 't' as u8, 'e' as u8, 's' as u8, 't' as u8, ' ' as u8,
        's' as u8, 'o' as u8, 'm' as u8, 'e' as u8, ' ' as u8, 'l' as u8,
        'a' as u8, 't' as u8, 'e' as u8, 'n' as u8, 'c' as u8, 'y' as u8,
        '!' as u8,
    ]
}

/// Build the value written under the lookup key as a byte vector.
pub fn seed_message_vec() -> (r: Vec<u8>)
    ensures
        r@ == seed_message(),
{
    let mut v: Vec<u8> = Vec::new();
    v.push('H' as u8);
    v.push('e' as u8);
    v.push('l' as u8);
    v.push('l' as u8);
    v.push('o' as u8);
    v.push('!' as u8);
    v.push(' ' as u8);
    v.push('L' as u8);
    v.push('e' as u8);
    v.push('t' as u8);
    v.push('\'' as u8);
    v.push('s' as u8);
    v.push(' ' as u8);
    v.push('t' as u8);
    v.push('e' as u8);
    v.push('s' as u8);
    v.push('t' as u8);
    v.push(' ' as u8);
    v.push('s' as u8);
    v.push('o' as u8);
    v.push('m' as u8);
    v.push('e' as u8);
    v.push(' ' as u8);
    v.push('l' as u8);
    v.push('a' as u8);
    v.push('t' as u8);
    v.push('e' as u8);
    v.push('n' as u8);
    v.push('c' as u8);
    v.push('y' as u8);
    v.push('!' as u8);
    proof {
        assert(v@ =~= seed_message());
    }
    v
}

} // verus!
