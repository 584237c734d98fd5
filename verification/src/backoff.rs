//! The delay between attempts at discovering the tunnel's local IPv6 address
//! while the failure is transient.
use vstd::arithmetic::power2::{lemma2_to64, pow2};
use vstd::bits::lemma_u64_shl_is_mul;
use vstd::prelude::*;

verus! {

/// The longest delay between two attempts, in seconds.
pub const MAX_RETRY_DELAY_SECS: u64 = 30;

/// The delay, in seconds, before attempt number `attempt + 1`: it doubles with
/// each failed attempt, starting from 1 second, up to `2^5` and never beyond 30.
pub open spec fn retry_delay(attempt: u64) -> int {
    let doubled = pow2(if attempt < 5 { attempt as nat } else { 5 });
    if doubled < MAX_RETRY_DELAY_SECS {
        doubled as int
    } else {
        MAX_RETRY_DELAY_SECS as int
    }
}

/// The delay, in seconds, to wait after `attempt` failed attempts.
pub fn retry_delay_secs(attempt: u64) -> (secs: u64)
    ensures
        secs == retry_delay(attempt),
{
    let shift: u64 = if attempt < 5 { attempt } else { 5 };
    proof {
        lemma2_to64();
        lemma_u64_shl_is_mul(1, shift);
    }
    let doubled: u64 = 1u64 << shift;
    if doubled < MAX_RETRY_DELAY_SECS {
        doubled
    } else {
        MAX_RETRY_DELAY_SECS
    }
}

/// The delay doubles from one second with each attempt until the fifth, from
/// which on it stays at 30 seconds; it never decreases as attempts grow.
pub proof fn lemma_retry_delay_doubles_then_caps(a: u64, b: u64)
    ensures
        a < 5 ==> retry_delay(a) == pow2(a as nat),
        a >= 5 ==> retry_delay(a) == MAX_RETRY_DELAY_SECS,
        1 <= retry_delay(a) <= MAX_RETRY_DELAY_SECS,
        a <= b ==> retry_delay(a) <= retry_delay(b),
{
    lemma2_to64();
}

} // verus!
