use rand::Rng;
use vstd::prelude::*;

verus! {

/// Smallest identifier that the archive hands out.
pub const MIN_PROBLEM_ID: u32 = 1;

/// Largest identifier that is drawn.
pub const MAX_PROBLEM_ID: u32 = 12000;

/// Whether `id` lies in the range that identifiers are drawn from.
pub open spec fn id_in_range(id: u32) -> bool {
    MIN_PROBLEM_ID <= id && id <= MAX_PROBLEM_ID
}

/// Relies on `rand::rng` and `Rng::random_range` over `lo..=hi`: a value of the closed
/// range, drawn from the thread's generator (it panics only on an empty range).
#[verifier::external_body]
fn random_in_range(lo: u32, hi: u32) -> (r: u32)
    requires
        lo <= hi,
    ensures
        lo <= r <= hi,
{
    rand::rng().random_range(lo..=hi)
}

/// Draws a candidate identifier uniformly from `[MIN_PROBLEM_ID, MAX_PROBLEM_ID]`.
/// Calls are independent: the same value may come back twice.
pub fn next_id() -> (r: u32)
    ensures
        id_in_range(r),
{
    random_in_range(MIN_PROBLEM_ID, MAX_PROBLEM_ID)
}

} // verus!
