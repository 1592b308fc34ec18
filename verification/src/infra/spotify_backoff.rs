//! Retry of server errors with exponential backoff: the delay doubles from
//! one retry to the next, with some chance jitter on top, for a limited
//! number of retries.

use vstd::arithmetic::power2::*;
use vstd::prelude::*;

use crate::random::{self, draw_up_to};
use crate::time::{Duration, MAX_NANOS, NANOS_PER_MILLI};

verus! {

/// A backoff schedule.
#[derive(Clone, Copy, Debug)]
pub struct BackoffConfig {
    /// Delay before the first retry.
    pub base: Duration,
    /// How many retries follow the first attempt at most.
    pub max_retries: u32,
    /// Upper bound of the jitter.
    pub jitter_max: Duration,
}

impl BackoffConfig {
    /// One, two and four seconds, each with up to 250 ms of jitter: three
    /// retries.
    pub fn production() -> (cfg: BackoffConfig)
        ensures
            cfg.base@ == 1_000_000_000,
            cfg.max_retries == 3,
            cfg.jitter_max@ == 250_000_000,
    {
        BackoffConfig {
            base: Duration::from_secs(1),
            max_retries: 3,
            jitter_max: Duration::from_millis(250),
        }
    }
}

/// The delay before retry number `attempt`, counted from zero, without
/// jitter.
pub open spec fn bare_delay(attempt: u32, base: nat) -> nat {
    base * pow2(attempt as nat)
}

/// The most whole milliseconds of jitter: the milliseconds of the bound, in
/// 64 bits.
pub open spec fn jitter_bound(jitter_max: nat) -> nat {
    (jitter_max / NANOS_PER_MILLI as nat) % 0x1_0000_0000_0000_0000
}

/// Chance can give this much jitter, in milliseconds: a number up to the
/// bound. Without a bound there is none.
pub open spec fn jitter_drawn(jitter_max: nat, jitter_ms: nat) -> bool {
    if jitter_max == 0 {
        jitter_ms == 0
    } else {
        jitter_ms <= jitter_bound(jitter_max) && random::number_drawn(
            jitter_bound(jitter_max) as u64,
            jitter_ms as u64,
        )
    }
}

/// The delay, whatever the jitter, is a length of time that can be
/// represented.
pub open spec fn delay_fits(attempt: u32, base: nat, jitter_max: nat) -> bool {
    attempt < 32 && bare_delay(attempt, base) + jitter_bound(jitter_max) * NANOS_PER_MILLI
        <= MAX_NANOS
}

fn power_of_two(attempt: u32) -> (p: u128)
    requires
        attempt < 32,
    ensures
        p == pow2(attempt as nat),
        p <= 0x8000_0000,
{
    let mut p: u128 = 1;
    let mut i: u32 = 0;
    proof {
        lemma2_to64();
    }
    while i < attempt
        invariant
            i <= attempt < 32,
            p == pow2(i as nat),
            pow2(31) == 0x8000_0000,
        decreases attempt - i,
    {
        proof {
            lemma_pow2_unfold((i + 1) as nat);
            if i + 1 < 31 {
                lemma_pow2_strictly_increases((i + 1) as nat, 31);
            }
        }
        p = p * 2;
        i += 1;
    }
    proof {
        if attempt < 31 {
            lemma_pow2_strictly_increases(attempt as nat, 31);
        }
    }
    p
}

/// The delay before retry number `attempt` with the given jitter.
pub fn delay_with_jitter(attempt: u32, base: Duration, jitter_ms: u64) -> (d: Duration)
    requires
        attempt < 32,
        bare_delay(attempt, base@) + jitter_ms * NANOS_PER_MILLI <= MAX_NANOS,
    ensures
        d@ == bare_delay(attempt, base@) + jitter_ms * NANOS_PER_MILLI,
{
    let factor: u128 = power_of_two(attempt);
    let nanos: u128 = base.as_nanos();
    assert(nanos * factor == bare_delay(attempt, base@)) by {
        assert(nanos as nat == base@);
        assert(factor as nat == pow2(attempt as nat));
    }
    Duration::from_nanos(nanos * factor + jitter_ms as u128 * NANOS_PER_MILLI)
}

/// The number's last 64 bits.
fn low_64_bits(n: u128) -> (low: u64)
    ensures
        low == n % 0x1_0000_0000_0000_0000,
{
    assert(n as u64 == n % 0x1_0000_0000_0000_0000) by (bit_vector);
    n as u64
}

/// The delay before retry number `attempt`, counted from zero: the base,
/// doubled for each retry before, and a chance number of milliseconds up to
/// the bound. Without a bound there is no jitter.
pub fn backoff_delay(attempt: u32, base: Duration, jitter_max: Duration) -> (d: Duration)
    requires
        delay_fits(attempt, base@, jitter_max@),
    ensures
        exists|jitter_ms: nat|
            jitter_drawn(jitter_max@, jitter_ms) && d@ == bare_delay(attempt, base@)
                + #[trigger] (jitter_ms * NANOS_PER_MILLI),
{
    let jitter_ms: u64 = if jitter_max.is_zero() {
        0
    } else {
        draw_up_to(low_64_bits(jitter_max.as_millis()))
    };
    proof {
        assert(jitter_ms <= jitter_bound(jitter_max@));
        assert(jitter_ms * NANOS_PER_MILLI <= jitter_bound(jitter_max@) * NANOS_PER_MILLI)
            by (nonlinear_arith)
            requires
                jitter_ms <= jitter_bound(jitter_max@),
        ;
    }
    let d = delay_with_jitter(attempt, base, jitter_ms);
    assert(jitter_drawn(jitter_max@, jitter_ms as nat));
    assert(d@ == bare_delay(attempt, base@) + (jitter_ms as nat * NANOS_PER_MILLI));
    d
}

/// What is done with a response.
#[derive(Debug, Clone, Copy)]
pub enum BackoffStep {
    /// It is handed on.
    Return,
    /// It is dropped, and the request is sent again after this delay.
    RetryAfter(Duration),
}

/// A server error.
pub open spec fn server_error(status: u16) -> bool {
    500 <= status < 600
}

/// The response to attempt number `attempt`, counted from zero, is retried.
pub open spec fn retries(max_retries: u32, attempt: u32, status: u16) -> bool {
    server_error(status) && attempt < max_retries
}

/// What is done with the response to attempt number `attempt`, counted from
/// zero.
pub fn backoff_step(cfg: &BackoffConfig, attempt: u32, status: u16) -> (step: BackoffStep)
    requires
        retries(cfg.max_retries, attempt, status) ==> delay_fits(
            attempt,
            cfg.base@,
            cfg.jitter_max@,
        ),
    ensures
        match step {
            BackoffStep::Return => !retries(cfg.max_retries, attempt, status),
            BackoffStep::RetryAfter(d) => {
                &&& retries(cfg.max_retries, attempt, status)
                &&& exists|jitter_ms: nat|
                    jitter_drawn(cfg.jitter_max@, jitter_ms) && d@ == bare_delay(
                        attempt,
                        cfg.base@,
                    ) + #[trigger] (jitter_ms * NANOS_PER_MILLI)
            },
        },
{
    if 500 <= status && status < 600 && attempt < cfg.max_retries {
        BackoffStep::RetryAfter(backoff_delay(attempt, cfg.base, cfg.jitter_max))
    } else {
        BackoffStep::Return
    }
}

/// How often a request is sent, from attempt number `attempt` on, where the
/// server answers with these statuses in turn.
pub open spec fn sends(max_retries: u32, attempt: u32, statuses: Seq<u16>) -> nat
    decreases statuses.len(),
{
    if statuses.len() == 0 {
        0
    } else if retries(max_retries, attempt, statuses[0]) {
        1 + sends(max_retries, (attempt + 1) as u32, statuses.skip(1))
    } else {
        1
    }
}

proof fn lemma_sends(max_retries: u32, attempt: u32, statuses: Seq<u16>)
    requires
        attempt <= max_retries,
    ensures
        sends(max_retries, attempt, statuses) <= max_retries - attempt + 1,
    decreases statuses.len(),
{
    if statuses.len() > 0 && retries(max_retries, attempt, statuses[0]) {
        lemma_sends(max_retries, (attempt + 1) as u32, statuses.skip(1));
    }
}

/// Whatever the server answers, a request is sent at most once more than
/// there are retries.
pub proof fn retries_are_limited(max_retries: u32, statuses: Seq<u16>)
    ensures
        sends(max_retries, 0, statuses) <= max_retries + 1,
{
    lemma_sends(max_retries, 0, statuses);
}

/// The delay without jitter doubles from one retry to the next.
pub proof fn delay_doubles(attempt: u32, base: nat)
    requires
        attempt < u32::MAX,
    ensures
        bare_delay(0, base) == base,
        bare_delay((attempt + 1) as u32, base) == 2 * bare_delay(attempt, base),
{
    lemma2_to64();
    lemma_pow2_unfold((attempt + 1) as nat);
    assert(base * (2 * pow2(attempt as nat)) == 2 * (base * pow2(attempt as nat)))
        by (nonlinear_arith);
    assert(base * 1 == base);
}

/// The jitter never exceeds its bound, where the bound's milliseconds fit
/// into 64 bits.
pub proof fn jitter_within_bound(jitter_max: nat, jitter_ms: nat)
    requires
        jitter_max / NANOS_PER_MILLI as nat <= u64::MAX,
        jitter_ms <= jitter_bound(jitter_max),
    ensures
        jitter_ms * NANOS_PER_MILLI <= jitter_max,
{
}

} // verus!
