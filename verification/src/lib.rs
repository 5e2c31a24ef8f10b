//! Verified core of a small edge service that measures the latency of
//! key-value lookups: request routing, parameter parsing, a timing harness,
//! and a JSON serializer for the per-iteration results.

pub mod clock;
pub mod harness;
pub mod json;
pub mod params;
pub mod response;
pub mod router;
pub mod seed;
pub mod text;

use vstd::prelude::*;

verus! {

/// Compare two byte slices for equality of their contents.
pub fn bytes_eq(a: &[u8], b: &[u8]) -> (r: bool)
    ensures
        r == (a@ == b@),
{
    if a.len() != b.len() {
        assert(a@ !== b@) by {
            assert(a@.len() != b@.len());
        }
        return false;
    }
    let n: usize = a.len();
    let mut i: usize = 0;
    while i < n
        invariant
            n == a@.len() && n == b@.len(),
            0 <= i <= n,
            forall|k: int| 0 <= k < i ==> a@[k] == b@[k],
        decreases n - i,
    {
        if a[i] != b[i] {
            return false;
        }
        i += 1;
    }
    proof {
        assert(a@ =~= b@);
    }
    true
}

} // verus!
