//! The generator's three value sources: randomness, the clock, and fresh
//! identifiers. Each is an outside call behind a small trusted wrapper;
//! everything computed from their results is verified.

use vstd::prelude::*;
use rand::RngExt;

verus! {

/// Relies on rand's `RngExt::random_range` over a half-open `u64` range,
/// called on the thread-local generator that `rand::rng` hands out: the
/// result lies strictly below the bound. Nothing is claimed about the
/// distribution of the draws.
#[verifier::external_body]
pub(crate) fn random_below(n: u64) -> (r: u64)
    requires
        n > 0,
    ensures
        r < n,
{
    rand::rng().random_range(0..n)
}

/// Relies on uuid's `Uuid::new_v4` and `Uuid::as_u128`: a freshly drawn
/// random 128-bit identifier, handed out as its integer value. Of a random
/// draw nothing can be promised; distinctness across calls is only
/// probabilistic.
#[verifier::external_body]
pub(crate) fn fresh_id() -> (r: u128) {
    uuid::Uuid::new_v4().as_u128()
}

/// Relies on chrono's `Utc::now` and `DateTime::timestamp`: the current
/// time as whole seconds since the Unix epoch. Every `DateTime<Utc>` lies
/// between `DateTime::MIN_UTC` and `DateTime::MAX_UTC`, roughly 262000
/// years on either side of the epoch, so the second count stays inside
/// the stated band.
#[verifier::external_body]
pub(crate) fn now_timestamp() -> (r: i64)
    ensures
        -8_400_000_000_000 <= r <= 8_400_000_000_000,
{
    chrono::Utc::now().timestamp()
}

} // verus!
