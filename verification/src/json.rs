//! The result serializer: renders the records of a run as a JSON array, one
//! object per iteration in iteration order, with the elapsed time split into
//! whole seconds and the nanosecond remainder.

use vstd::prelude::*;
use crate::harness::LookupRecord;

verus! {

/// Bytes of the opening brace and `body` key of a record object.
pub open spec fn body_key() -> Seq<u8> {
    seq![
        '{' as u8, '"' as u8, 'b' as u8, 'o' as u8, 'd' as u8, 'y' as u8,
        '"' as u8, ':' as u8,
    ]
}

/// Append the opening brace and `body` key of a record object.
fn push_body_key(out: &mut Vec<u8>)
    ensures
        final(out)@ == old(out)@ + body_key(),
{
    out.push('{' as u8);
    out.push('"' as u8);
    out.push('b' as u8);
    out.push('o' as u8);
    out.push('d' as u8);
    out.push('y' as u8);
    out.push('"' as u8);
    out.push(':' as u8);
    proof {
        assert(out@ =~= old(out)@ + body_key());
    }
}

/// Bytes of the `found` key of a record object.
pub open spec fn found_key() -> Seq<u8> {
    seq![
        ',' as u8, '"' as u8, 'f' as u8, 'o' as u8, 'u' as u8, 'n' as u8,
        'd' as u8, '"' as u8, ':' as u8,
    ]
}

/// Append the `found` key of a record object.
fn push_found_key(out: &mut Vec<u8>)
    ensures
        final(out)@ == old(out)@ + found_key(),
{
    out.push(',' as u8);
    out.push('"' as u8);
    out.push('f' as u8);
    out.push('o' as u8);
    out.push('u' as u8);
    out.push('n' as u8);
    out.push('d' as u8);
    out.push('"' as u8);
    out.push(':' as u8);
    proof {
        assert(out@ =~= old(out)@ + found_key());
    }
}

/// Bytes of the `lookupTimeTaken` key of a record object.
pub open spec fn time_key() -> Seq<u8> {
    seq![
        ',' as u8, '"' as u8, 'l' as u8, 'o' as u8, 'o' as u8, 'k' as u8,
        'u' as u8, 'p' as u8, 'T' as u8, 'i' as u8, 'm' as u8, 'e' as u8,
        'T' as u8, 'a' as u8, 'k' as u8, 'e' as u8, 'n' as u8, '"' as u8,
        ':' as u8,
    ]
}

/// Append the `lookupTimeTaken` key of a record object.
fn push_time_key(out: &mut Vec<u8>)
    ensures
        final(out)@ == old(out)@ + time_key(),
{
    out.push(',' as u8);
    out.push('"' as u8);
    out.push('l' as u8);
    out.push('o' as u8);
    out.push('o' as u8);
    out.push('k' as u8);
    out.push('u' as u8);
    out.push('p' as u8);
    out.push('T' as u8);
    out.push('i' as u8);
    out.push('m' as u8);
    out.push('e' as u8);
    out.push('T' as u8);
    out.push('a' as u8);
    out.push('k' as u8);
    out.push('e' as u8);
    out.push('n' as u8);
    out.push('"' as u8);
    out.push(':' as u8);
    proof {
        assert(out@ =~= old(out)@ + time_key());
    }
}

/// Bytes of the opening brace and `secs` key of a duration object.
pub open spec fn secs_key() -> Seq<u8> {
    seq![
        '{' as u8, '"' as u8, 's' as u8, 'e' as u8, 'c' as u8, 's' as u8,
        '"' as u8, ':' as u8,
    ]
}

/// Append the opening brace and `secs` key of a duration object.
fn push_secs_key(out: &mut Vec<u8>)
    ensures
        final(out)@ == old(out)@ + secs_key(),
{
    out.push('{' as u8);
    out.push('"' as u8);
    out.push('s' as u8);
    out.push('e' as u8);
    out.push('c' as u8);
    out.push('s' as u8);
    out.push('"' as u8);
    out.push(':' as u8);
    proof {
        assert(out@ =~= old(out)@ + secs_key());
    }
}

/// Bytes of the `nanos` key of a duration object.
pub open spec fn nanos_key() -> Seq<u8> {
    seq![
        ',' as u8, '"' as u8, 'n' as u8, 'a' as u8, 'n' as u8, 'o' as u8,
        's' as u8, '"' as u8, ':' as u8,
    ]
}

/// Append the `nanos` key of a duration object.
fn push_nanos_key(out: &mut Vec<u8>)
    ensures
        final(out)@ == old(out)@ + nanos_key(),
{
    out.push(',' as u8);
    out.push('"' as u8);
    out.push('n' as u8);
    out.push('a' as u8);
    out.push('n' as u8);
    out.push('o' as u8);
    out.push('s' as u8);
    out.push('"' as u8);
    out.push(':' as u8);
    proof {
        assert(out@ =~= old(out)@ + nanos_key());
    }
}

/// Bytes of the JSON literal `true`.
pub open spec fn true_lit() -> Seq<u8> {
    seq![
        't' as u8, 'r' as u8, 'u' as u8, 'e' as u8,
    ]
}

/// Append the JSON literal `true`.
fn push_true_lit(out: &mut Vec<u8>)
    ensures
        final(out)@ == old(out)@ + true_lit(),
{
    out.push('t' as u8);
    out.push('r' as u8);
    out.push('u' as u8);
    out.push('e' as u8);
    proof {
        assert(out@ =~= old(out)@ + true_lit());
    }
}

/// Bytes of the JSON literal `false`.
pub open spec fn false_lit() -> Seq<u8> {
    seq![
        'f' as u8, 'a' as u8, 'l' as u8, 's' as u8, 'e' as u8,
    ]
}

/// Append the JSON literal `false`.
fn push_false_lit(out: &mut Vec<u8>)
    ensures
        final(out)@ == old(out)@ + false_lit(),
{
    out.push('f' as u8);
    out.push('a' as u8);
    out.push('l' as u8);
    out.push('s' as u8);
    out.push('e' as u8);
    proof {
        assert(out@ =~= old(out)@ + false_lit());
    }
}
/// The byte standing for the hex value `n`, in lower case.
pub open spec fn hex_digit(n: u8) -> u8
    recommends
        n < 16,
{
    if n < 10 {
        ('0' as u8 + n) as u8
    } else {
        ('a' as u8 + (n - 10)) as u8
    }
}

/// How one byte of a string appears inside a JSON string: quote and backslash
/// get a backslash escape, the control bytes with short escapes use them, the
/// remaining control bytes appear as `\u00` and two hex digits, and every
/// other byte stands as it is.
pub open spec fn escape_byte(b: u8) -> Seq<u8> {
    if b == '"' as u8 {
        seq!['\\' as u8, '"' as u8]
    } else if b == '\\' as u8 {
        seq!['\\' as u8, '\\' as u8]
    } else if b == 8 {
        seq!['\\' as u8, 'b' as u8]
    } else if b == 9 {
        seq!['\\' as u8, 't' as u8]
    } else if b == 10 {
        seq!['\\' as u8, 'n' as u8]
    } else if b == 12 {
        seq!['\\' as u8, 'f' as u8]
    } else if b == 13 {
        seq!['\\' as u8, 'r' as u8]
    } else if b < 32 {
        seq!['\\' as u8, 'u' as u8, '0' as u8, '0' as u8, hex_digit(b / 16), hex_digit(b % 16)]
    } else {
        seq![b]
    }
}

/// A whole byte string escaped for JSON.
pub open spec fn escape_bytes(s: Seq<u8>) -> Seq<u8>
    decreases s.len(),
{
    if s.len() == 0 {
        Seq::empty()
    } else {
        escape_bytes(s.drop_last()) + escape_byte(s.last())
    }
}

/// A byte string as a JSON string: escaped, between quotes.
pub open spec fn json_string(s: Seq<u8>) -> Seq<u8> {
    seq!['"' as u8] + escape_bytes(s) + seq!['"' as u8]
}

/// The decimal digits of `n`, most significant first.
pub open spec fn dec_digits(n: nat) -> Seq<u8>
    decreases n,
{
    if n < 10 {
        seq![('0' as u8 + n) as u8]
    } else {
        dec_digits(n / 10) + seq![('0' as u8 + n % 10) as u8]
    }
}

/// A JSON boolean.
pub open spec fn json_bool(b: bool) -> Seq<u8> {
    if b {
        true_lit()
    } else {
        false_lit()
    }
}

/// An elapsed time of `nanos` nanoseconds as a JSON object of whole seconds
/// and the nanosecond remainder.
pub open spec fn json_duration(nanos: u64) -> Seq<u8> {
    secs_key() + dec_digits(nanos as nat / 1_000_000_000) + nanos_key() + dec_digits(
        nanos as nat % 1_000_000_000,
    ) + seq!['}' as u8]
}

/// One record as a JSON object with its `body`, `found` and `lookupTimeTaken`
/// members.
pub open spec fn json_record(r: LookupRecord) -> Seq<u8> {
    body_key() + json_string(r.body@) + found_key() + json_bool(r.found) + time_key()
        + json_duration(r.nanos) + seq!['}' as u8]
}

/// The members of the result array, comma separated, in record order.
pub open spec fn json_records_body(rs: Seq<LookupRecord>) -> Seq<u8>
    decreases rs.len(),
{
    if rs.len() == 0 {
        Seq::empty()
    } else if rs.len() == 1 {
        json_record(rs[0])
    } else {
        json_records_body(rs.drop_last()) + seq![',' as u8] + json_record(rs.last())
    }
}

/// A whole run's records as a JSON array, in iteration order.
pub open spec fn json_records(rs: Seq<LookupRecord>) -> Seq<u8> {
    seq!['[' as u8] + json_records_body(rs) + seq![']' as u8]
}

/// Append the decimal digits of `n`.
fn push_dec(out: &mut Vec<u8>, n: u64)
    ensures
        final(out)@ == old(out)@ + dec_digits(n as nat),
    decreases n,
{
    if n >= 10 {
        push_dec(out, n / 10);
        out.push('0' as u8 + (n % 10) as u8);
        proof {
            assert(out@ =~= old(out)@ + dec_digits(n as nat));
        }
    } else {
        out.push('0' as u8 + n as u8);
        proof {
            assert(out@ =~= old(out)@ + dec_digits(n as nat));
        }
    }
}

/// Append one byte escaped for JSON.
fn push_escaped_byte(out: &mut Vec<u8>, b: u8)
    ensures
        final(out)@ == old(out)@ + escape_byte(b),
{
    if b == '"' as u8 {
        out.push('\\' as u8);
        out.push('"' as u8);
    } else if b == '\\' as u8 {
        out.push('\\' as u8);
        out.push('\\' as u8);
    } else if b == 8 {
        out.push('\\' as u8);
        out.push('b' as u8);
    } else if b == 9 {
        out.push('\\' as u8);
        out.push('t' as u8);
    } else if b == 10 {
        out.push('\\' as u8);
        out.push('n' as u8);
    } else if b == 12 {
        out.push('\\' as u8);
        out.push('f' as u8);
    } else if b == 13 {
        out.push('\\' as u8);
        out.push('r' as u8);
    } else if b < 32 {
        out.push('\\' as u8);
        out.push('u' as u8);
        out.push('0' as u8);
        out.push('0' as u8);
        let hi = b / 16;
        let lo = b % 16;
        out.push(if hi < 10 {
            '0' as u8 + hi
        } else {
            'a' as u8 + (hi - 10)
        });
        out.push(if lo < 10 {
            '0' as u8 + lo
        } else {
            'a' as u8 + (lo - 10)
        });
    } else {
        out.push(b);
    }
    proof {
        assert(out@ =~= old(out)@ + escape_byte(b));
    }
}

/// Append a byte string as a JSON string.
fn push_json_string(out: &mut Vec<u8>, s: &[u8])
    ensures
        final(out)@ == old(out)@ + json_string(s@),
{
    out.push('"' as u8);
    let n: usize = s.len();
    let mut i: usize = 0;
    while i < n
        invariant
            0 <= i <= n,
            n == s@.len(),
            out@ == old(out)@ + seq!['"' as u8] + escape_bytes(s@.take(i as int)),
        decreases n - i,
    {
        push_escaped_byte(out, s[i]);
        proof {
            assert(s@.take(i + 1).drop_last() =~= s@.take(i as int));
            assert(s@.take(i + 1).last() == s@[i as int]);
            assert(out@ =~= old(out)@ + seq!['"' as u8] + escape_bytes(s@.take(i + 1)));
        }
        i += 1;
    }
    out.push('"' as u8);
    proof {
        assert(s@.take(n as int) =~= s@);
        assert(out@ =~= old(out)@ + json_string(s@));
    }
}

/// Append the elapsed-time object of a record.
fn push_duration(out: &mut Vec<u8>, nanos: u64)
    ensures
        final(out)@ == old(out)@ + json_duration(nanos),
{
    push_secs_key(out);
    push_dec(out, nanos / 1_000_000_000);
    push_nanos_key(out);
    push_dec(out, nanos % 1_000_000_000);
    out.push('}' as u8);
    proof {
        assert(out@ =~= old(out)@ + json_duration(nanos));
    }
}

/// Append one record as a JSON object.
fn push_record(out: &mut Vec<u8>, r: &LookupRecord)
    ensures
        final(out)@ == old(out)@ + json_record(*r),
{
    push_body_key(out);
    push_json_string(out, r.body.as_slice());
    push_found_key(out);
    if r.found {
        push_true_lit(out);
    } else {
        push_false_lit(out);
    }
    push_time_key(out);
    push_duration(out, r.nanos);
    out.push('}' as u8);
    proof {
        assert(out@ =~= old(out)@ + json_record(*r));
    }
}

/// Render a run's records as the JSON array of the response body.
pub fn render_records(rs: &Vec<LookupRecord>) -> (out: Vec<u8>)
    ensures
        out@ == json_records(rs@),
{
    let mut out: Vec<u8> = Vec::new();
    out.push('[' as u8);
    let n: usize = rs.len();
    let mut i: usize = 0;
    while i < n
        invariant
            0 <= i <= n,
            n == rs@.len(),
            out@ == seq!['[' as u8] + json_records_body(rs@.take(i as int)),
        decreases n - i,
    {
        if i > 0 {
            out.push(',' as u8);
        }
        push_record(&mut out, &rs[i]);
        proof {
            assert(rs@.take(i + 1).drop_last() =~= rs@.take(i as int));
            assert(rs@.take(i + 1).last() == rs@[i as int]);
            assert(out@ =~= seq!['[' as u8] + json_records_body(rs@.take(i + 1)));
        }
        i += 1;
    }
    out.push(']' as u8);
    proof {
        assert(rs@.take(n as int) =~= rs@);
        assert(out@ =~= json_records(rs@));
    }
    out
}

} // verus!
