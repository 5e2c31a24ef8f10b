//! Seeding the cache before the timed loop: the fixed value is inserted only
//! when the key is not already present, and a failed preliminary lookup
//! leaves the cache alone.

use vstd::prelude::*;
use crate::text;

verus! {

/// What the preliminary cache lookup reported.
#[derive(Debug, Clone, Copy, PartialEq, Eq, Structural)]
pub enum CacheLookupOutcome {
    /// The key is already cached.
    Found,
    /// The key is not cached.
    Missing,
    /// The lookup itself failed.
    Failed,
}

/// Whether and what to insert before the timed loop starts.
pub enum SeedAction {
    /// Leave the cache as it is.
    LeaveAlone,
    /// Insert `message` under the test key, to live for `ttl_secs` seconds.
    Insert { ttl_secs: u64, message: Vec<u8> },
}

/// How long a seeded entry lives, in seconds.
pub const SEED_TTL_SECS: u64 = 600;

/// Decide the seeding step from the preliminary lookup's outcome: only a key
/// that is reported absent is written, with the fixed message and lifetime.
pub fn seed_decision(outcome: CacheLookupOutcome) -> (r: SeedAction)
    ensures
        match outcome {
            CacheLookupOutcome::Missing => r matches SeedAction::Insert { ttl_secs, message }
                && ttl_secs == SEED_TTL_SECS && message@ == text::seed_message(),
            CacheLookupOutcome::Found => r is LeaveAlone,
            CacheLookupOutcome::Failed => r is LeaveAlone,
        },
{
    match outcome {
        CacheLookupOutcome::Missing => SeedAction::Insert {
            ttl_secs: SEED_TTL_SECS,
            message: text::seed_message_vec(),
        },
        CacheLookupOutcome::Found => SeedAction::LeaveAlone,
        CacheLookupOutcome::Failed => SeedAction::LeaveAlone,
    }
}

} // verus!
