//! Query parameter handling: parsing the `iterations` count and choosing the
//! lookup key, with a rejected request reported instead of aborted.

use vstd::prelude::*;
use crate::text;

verus! {

/// Why the query parameters of a lookup test were rejected.
#[derive(Debug, Clone, Copy, PartialEq, Eq, Structural)]
pub enum ParamError {
    /// The `iterations` parameter was absent.
    MissingIterations,
    /// The `iterations` parameter was not a decimal integer within `i32`'s range.
    InvalidIterations,
}

/// The parameters of one lookup test request.
#[derive(Debug)]
pub struct TestParams {
    /// How many timed lookups to run; a negative count means none.
    pub iterations: i32,
    /// The key to look up.
    pub key: Vec<u8>,
}

/// `b` is the byte of a decimal digit.
pub open spec fn is_digit(b: u8) -> bool {
    '0' as u8 <= b <= '9' as u8
}

/// Every byte of `s` is a decimal digit.
pub open spec fn all_digits(s: Seq<u8>) -> bool {
    forall|i: int| 0 <= i < s.len() ==> is_digit(#[trigger] s[i])
}

/// The digits of `s`, with a leading `+` or `-` removed.
pub open spec fn digits_of(s: Seq<u8>) -> Seq<u8> {
    if s.len() > 0 && (s[0] == '+' as u8 || s[0] == '-' as u8) {
        s.drop_first()
    } else {
        s
    }
}

/// The sign carried by `s`: negative exactly when it starts with `-`.
pub open spec fn sign_of(s: Seq<u8>) -> int {
    if s.len() > 0 && s[0] == '-' as u8 {
        -1
    } else {
        1
    }
}

/// The value of a digit string, most significant digit first.
pub open spec fn digits_val(s: Seq<u8>) -> nat
    decreases s.len(),
{
    if s.len() == 0 {
        0
    } else {
        digits_val(s.drop_last()) * 10 + (s.last() - '0' as u8) as nat
    }
}

/// `s` is a decimal integer literal accepted for the iteration count: an
/// optional sign, at least one digit, nothing else, and a value within
/// `i32`'s range.
pub open spec fn valid_i32(s: Seq<u8>) -> bool {
    &&& digits_of(s).len() > 0
    &&& all_digits(digits_of(s))
    &&& -0x8000_0000 <= sign_of(s) * digits_val(digits_of(s)) <= 0x7fff_ffff
}

/// The integer value of a valid literal.
pub open spec fn i32_value(s: Seq<u8>) -> int {
    sign_of(s) * digits_val(digits_of(s))
}

/// Parse a decimal `i32` literal: an optional `+` or `-` sign followed by at
/// least one digit, rejected when any other byte occurs or the value does not
/// fit.
pub fn parse_i32(s: &[u8]) -> (r: Option<i32>)
    ensures
        r is Some <==> valid_i32(s@),
        r matches Some(v) ==> v == i32_value(s@),
{
    let n: usize = s.len();
    let mut start: usize = 0;
    let mut neg = false;
    if n > 0 && (s[0] == '+' as u8 || s[0] == '-' as u8) {
        neg = s[0] == '-' as u8;
        start = 1;
    }
    let ghost digits = digits_of(s@);
    proof {
        assert(digits =~= s@.skip(start as int));
    }
    if start == n {
        return None;
    }
    let mut acc: u64 = 0;
    let mut big = false;
    let mut j: usize = start;
    while j < n
        invariant
            start <= j <= n,
            n == s@.len(),
            n > start,
            digits == s@.skip(start as int),
            digits == digits_of(s@),
            forall|k: int| start <= k < j ==> is_digit(#[trigger] s@[k]),
            !big ==> acc == digits_val(digits.take(j - start)) && acc <= 0x8000_0000,
            big ==> digits_val(digits.take(j - start)) > 0x8000_0000,
        decreases n - j,
    {
        let b = s[j];
        if b < '0' as u8 || b > '9' as u8 {
            proof {
                assert(digits[j - start] == s@[j as int]);
                assert(!all_digits(digits));
            }
            return None;
        }
        proof {
            let m = (j - start) as int;
            assert(digits.take(m + 1).drop_last() =~= digits.take(m));
            assert(digits.take(m + 1).last() == s@[j as int]);
        }
        if !big {
            let d: u64 = (b - '0' as u8) as u64;
            acc = acc * 10 + d;
            if acc > 0x8000_0000 {
                big = true;
            }
        } else {
            proof {
                let m = (j - start) as int;
                let prev = digits_val(digits.take(m));
                assert(digits_val(digits.take(m + 1)) == prev * 10 + (s@[j as int] - '0' as u8) as nat);
                assert(prev * 10 >= prev);
            }
        }
        j += 1;
    }
    proof {
        assert(digits.take(n - start) =~= digits);
        assert forall|k: int| 0 <= k < digits.len() implies is_digit(#[trigger] digits[k]) by {
            assert(digits[k] == s@[start + k]);
        }
        assert(all_digits(digits));
    }
    if big {
        proof {
            assert(digits_val(digits) > 0x8000_0000);
        }
        return None;
    }
    if neg {
        proof {
            assert(sign_of(s@) == -1);
            assert(i32_value(s@) == -(digits_val(digits) as int));
        }
        let v: i64 = -(acc as i64);
        Some(v as i32)
    } else {
        proof {
            assert(sign_of(s@) == 1);
        }
        if acc > 0x7fff_ffff {
            return None;
        }
        Some(acc as i32)
    }
}

/// Read the test parameters as the request handed them over: the required
/// iteration count and the optional key, which falls back to a fixed default.
pub fn extract_params(iterations: Option<&[u8]>, key: Option<&[u8]>) -> (r: Result<
    TestParams,
    ParamError,
>)
    ensures
        match r {
            Ok(p) => {
                &&& iterations matches Some(s) && valid_i32(s@) && p.iterations == i32_value(s@)
                &&& p.key@ == match key {
                    Some(k) => k@,
                    None => text::default_key(),
                }
            },
            Err(ParamError::MissingIterations) => iterations is None,
            Err(ParamError::InvalidIterations) => iterations matches Some(s) && !valid_i32(s@),
        },
{
    let its = match iterations {
        None => {
            return Err(ParamError::MissingIterations);
        },
        Some(s) => match parse_i32(s) {
            None => {
                return Err(ParamError::InvalidIterations);
            },
            Some(v) => v,
        },
    };
    let chosen_key: Vec<u8> = match key {
        Some(k) => vstd::slice::slice_to_vec(k),
        None => text::default_key_vec(),
    };
    Ok(TestParams { iterations: its, key: chosen_key })
}

} // verus!
