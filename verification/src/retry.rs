//! The exponential backoff schedule: attempt 0 starts at once, and attempt
//! k (k >= 1) waits `base_delay_ms * 2^(k-1)` first — pure doubling, no
//! jitter and no cap.

use vstd::arithmetic::power2::lemma_pow2_adds;
use vstd::arithmetic::power2::lemma_pow2_strictly_increases;
use vstd::arithmetic::power2::lemma2_to64;
use vstd::arithmetic::power2::pow2;
use vstd::bits::lemma_u64_shl_is_mul;
use vstd::prelude::*;

use crate::types::RetryConfig;

verus! {

/// The delay, in milliseconds, observed before attempt `attempt` of a
/// retry schedule with base delay `base`: zero for the first attempt,
/// `base * 2^(attempt-1)` afterwards.
pub open spec fn spec_retry_delay(base: u64, attempt: nat) -> int {
    if attempt == 0 {
        0
    } else {
        base * pow2((attempt - 1) as nat)
    }
}

/// Every delay of a well-formed schedule fits in a machine word.
pub proof fn lemma_retry_delay_fits(cfg: RetryConfig, attempt: nat)
    requires
        cfg.wf(),
        attempt <= cfg.max_retries,
    ensures
        spec_retry_delay(cfg.base_delay_ms, attempt) <= u64::MAX,
{
    if attempt > 0 {
        assert(cfg.max_retries >= 1);
        if attempt == cfg.max_retries {
            assert((attempt - 1) as nat == (cfg.max_retries - 1) as nat);
            assert(spec_retry_delay(cfg.base_delay_ms, attempt) == cfg.base_delay_ms * pow2(
                (cfg.max_retries - 1) as nat,
            ));
        } else {
            broadcast use vstd::arithmetic::mul::lemma_mul_is_commutative;

            lemma_pow2_strictly_increases((attempt - 1) as nat, (cfg.max_retries - 1) as nat);
            vstd::arithmetic::mul::lemma_mul_inequality(
                pow2((attempt - 1) as nat) as int,
                pow2((cfg.max_retries - 1) as nat) as int,
                cfg.base_delay_ms as int,
            );
            assert(cfg.base_delay_ms * pow2((attempt - 1) as nat) <= cfg.base_delay_ms * pow2(
                (cfg.max_retries - 1) as nat,
            ));
        }
    }
}

/// The schedule of testable record: the first attempt waits nothing, and
/// each later attempt k waits exactly `base * 2^(k-1)`, twice the previous
/// wait.
pub proof fn lemma_retry_schedule(base: u64, k: nat)
    ensures
        spec_retry_delay(base, 0) == 0,
        spec_retry_delay(base, 1) == base,
        k >= 1 ==> spec_retry_delay(base, k + 1) == 2 * spec_retry_delay(base, k),
{
    lemma2_to64();
    assert(spec_retry_delay(base, 1) == base * pow2(0));
    if k >= 1 {
        lemma_pow2_adds((k - 1) as nat, 1);
        assert(base * (pow2((k - 1) as nat) * 2) == 2 * (base * pow2((k - 1) as nat)))
            by (nonlinear_arith);
    }
}

/// Compute the backoff delay before the given attempt.
pub fn retry_delay_ms(cfg: &RetryConfig, attempt: u32) -> (r: u64)
    requires
        cfg.wf(),
        attempt <= cfg.max_retries,
    ensures
        r == spec_retry_delay(cfg.base_delay_ms, attempt as nat),
{
    if attempt == 0 {
        0
    } else {
        proof {
            lemma_retry_delay_fits(*cfg, attempt as nat);
            vstd::bits::lemma_u64_pow2_no_overflow((attempt - 1) as nat);
            lemma_u64_shl_is_mul(1u64, (attempt - 1) as u64);
        }
        cfg.base_delay_ms * (1u64 << ((attempt - 1) as u64))
    }
}

} // verus!
