//! How long a request waits before it is sent again, in terms of the
//! response that it got.

use vstd::arithmetic::power::*;
use vstd::arithmetic::power2::*;
use vstd::prelude::*;

use crate::infra::spotify_backoff::{
    self, backoff_delay, backoff_step, delay_with_jitter, BackoffConfig, BackoffStep,
};
use crate::infra::spotify_retry::{self, parse_retry_after_seconds, retry_wait};
use crate::random;
use crate::time::{self, Duration};

verus! {

/// Spaces and tabs only.
pub open spec fn blanks(s: Seq<u8>) -> bool {
    forall|i: int| 0 <= i < s.len() ==> #[trigger] s[i] == 32 || s[i] == 9
}

/// One or more decimal digits.
pub open spec fn digits(s: Seq<u8>) -> bool {
    s.len() > 0 && forall|i: int| 0 <= i < s.len() ==> 48 <= #[trigger] s[i] <= 57
}

/// The number that decimal digits write, the first digit being worth most.
pub open spec fn number(s: Seq<u8>) -> int
    decreases s.len(),
{
    if s.len() == 0 {
        0
    } else {
        (s[0] - 48) * pow(10, (s.len() - 1) as nat) + number(s.skip(1))
    }
}

/// The header is the number `n` of seconds, with blanks around it and a
/// plus sign in front allowed.
pub open spec fn names_seconds(header: Seq<u8>, n: int) -> bool {
    exists|lead: Seq<u8>, sign: Seq<u8>, body: Seq<u8>, trail: Seq<u8>|
        #![trigger lead + sign + body + trail]
        {
            &&& header == lead + sign + body + trail
            &&& blanks(lead)
            &&& blanks(trail)
            &&& sign.len() == 0 || sign == seq![43u8]
            &&& digits(body)
            &&& number(body) == n
        }
}

proof fn lemma_number_push(s: Seq<u8>, b: u8)
    ensures
        number(s.push(b)) == 10 * number(s) + (b - 48),
    decreases s.len(),
{
    let all = s.push(b);
    if s.len() == 0 {
        assert(all.skip(1) =~= Seq::empty());
        lemma_pow0(10);
        assert(number(all.skip(1)) == 0);
        assert((b - 48) * pow(10, 0) == b - 48) by (nonlinear_arith)
            requires
                pow(10, 0) == 1,
        ;
    } else {
        assert(all.skip(1) =~= s.skip(1).push(b));
        lemma_number_push(s.skip(1), b);
        assert(pow(10, s.len() as nat) == 10 * pow(10, (s.len() - 1) as nat)) by {
            lemma_pow1(10);
            lemma_pow_adds(10, 1, (s.len() - 1) as nat);
        }
        let d = s[0] - 48;
        let p = pow(10, (s.len() - 1) as nat);
        assert(d * (10 * p) == 10 * (d * p)) by (nonlinear_arith);
        assert(all[0] == s[0]);
    }
}

proof fn lemma_number(s: Seq<u8>)
    requires
        forall|i: int| 0 <= i < s.len() ==> 48 <= #[trigger] s[i] <= 57,
    ensures
        spotify_retry::digits_value(s) == number(s),
    decreases s.len(),
{
    if s.len() > 0 {
        let front = s.drop_last();
        assert forall|i: int| 0 <= i < front.len() implies 48 <= #[trigger] front[i] <= 57 by {
            assert(front[i] == s[i]);
        }
        lemma_number(front);
        lemma_number_push(front, s.last());
        assert(s =~= front.push(s.last()));
    }
}

proof fn lemma_trim_start_of(lead: Seq<u8>, rest: Seq<u8>)
    requires
        blanks(lead),
        rest.len() > 0 ==> !(rest[0] == 32 || rest[0] == 9),
    ensures
        spotify_retry::trim_start(lead + rest) == rest,
    decreases lead.len(),
{
    let all = lead + rest;
    if lead.len() == 0 {
        assert(all =~= rest);
    } else {
        assert(all.skip(1) =~= lead.skip(1) + rest);
        assert forall|i: int| 0 <= i < lead.skip(1).len() implies #[trigger] lead.skip(1)[i] == 32
            || lead.skip(1)[i] == 9 by {
            assert(lead.skip(1)[i] == lead[i + 1]);
        }
        assert(all[0] == lead[0]);
        lemma_trim_start_of(lead.skip(1), rest);
    }
}

proof fn lemma_trim_end_of(rest: Seq<u8>, trail: Seq<u8>)
    requires
        blanks(trail),
        rest.len() > 0 ==> !(rest.last() == 32 || rest.last() == 9),
    ensures
        spotify_retry::trim_end(rest + trail) == rest,
    decreases trail.len(),
{
    let all = rest + trail;
    if trail.len() == 0 {
        assert(all =~= rest);
    } else {
        assert(all.drop_last() =~= rest + trail.drop_last());
        assert forall|i: int| 0 <= i < trail.drop_last().len() implies #[trigger] trail.drop_last()[i]
            == 32 || trail.drop_last()[i] == 9 by {
            assert(trail.drop_last()[i] == trail[i]);
        }
        assert(all.last() == trail.last());
        lemma_trim_end_of(rest, trail.drop_last());
    }
}

proof fn lemma_trim_start_splits(s: Seq<u8>) -> (lead: Seq<u8>)
    ensures
        blanks(lead),
        s == lead + spotify_retry::trim_start(s),
    decreases s.len(),
{
    if s.len() > 0 && spotify_retry::blank(s[0]) {
        let rest = lemma_trim_start_splits(s.skip(1));
        let lead = seq![s[0]] + rest;
        assert forall|i: int| 0 <= i < lead.len() implies #[trigger] lead[i] == 32 || lead[i] == 9 by {
            if i > 0 {
                assert(lead[i] == rest[i - 1]);
            }
        }
        assert(s =~= lead + spotify_retry::trim_start(s)) by {
            assert(s =~= seq![s[0]] + s.skip(1));
        }
        lead
    } else {
        assert(s =~= Seq::<u8>::empty() + s);
        Seq::empty()
    }
}

proof fn lemma_trim_end_splits(s: Seq<u8>) -> (trail: Seq<u8>)
    ensures
        blanks(trail),
        s == spotify_retry::trim_end(s) + trail,
    decreases s.len(),
{
    if s.len() > 0 && spotify_retry::blank(s.last()) {
        let rest = lemma_trim_end_splits(s.drop_last());
        let trail = rest.push(s.last());
        assert forall|i: int| 0 <= i < trail.len() implies #[trigger] trail[i] == 32 || trail[i]
            == 9 by {
            if i < rest.len() {
                assert(trail[i] == rest[i]);
            }
        }
        assert(s =~= spotify_retry::trim_end(s) + trail) by {
            assert(s =~= s.drop_last().push(s.last()));
        }
        trail
    } else {
        assert(s =~= s + Seq::<u8>::empty());
        Seq::empty()
    }
}

pub(crate) proof fn lemma_named(header: Seq<u8>, n: int)
    requires
        names_seconds(header, n),
        1 <= n <= i64::MAX,
    ensures
        spotify_retry::delta_seconds(header) == Some(n as nat),
{
    let (lead, sign, body, trail) = choose|
        lead: Seq<u8>,
        sign: Seq<u8>,
        body: Seq<u8>,
        trail: Seq<u8>,
    |
        #![trigger lead + sign + body + trail]
        {
            &&& header == lead + sign + body + trail
            &&& blanks(lead)
            &&& blanks(trail)
            &&& sign.len() == 0 || sign == seq![43u8]
            &&& digits(body)
            &&& number(body) == n
        };
    let core = sign + body;
    assert(core.last() == body.last());
    assert(48 <= body[0] <= 57);
    assert(48 <= body[body.len() - 1] <= 57);
    assert(core[0] == if sign.len() == 0 {
        body[0]
    } else {
        43u8
    });
    assert(header =~= lead + (core + trail));
    lemma_trim_start_of(lead, core + trail);
    lemma_trim_end_of(core, trail);
    assert(spotify_retry::trim_end(spotify_retry::trim_start(header)) == core);
    if sign.len() == 0 {
        assert(core =~= body);
    } else {
        assert(core.skip(1) =~= body);
    }
    assert(spotify_retry::unsigned(core) == body);
    lemma_number(body);
    assert forall|i: int| 0 <= i < header.len() implies spotify_retry::visible(
        #[trigger] header[i],
    ) by {
        if i < lead.len() {
            assert(header[i] == lead[i]);
        } else if i < lead.len() + sign.len() {
            assert(header[i] == sign[i - lead.len()]);
        } else if i < lead.len() + sign.len() + body.len() {
            assert(header[i] == body[i - lead.len() - sign.len()]);
        } else {
            assert(header[i] == trail[i - lead.len() - sign.len() - body.len()]);
        }
    }
}

pub(crate) proof fn lemma_not_named(header: Seq<u8>)
    ensures
        spotify_retry::delta_seconds(header) matches Some(n) ==> names_seconds(header, n as int)
            && 1 <= n <= i64::MAX,
{
    if let Some(n) = spotify_retry::delta_seconds(header) {
        let lead = lemma_trim_start_splits(header);
        let rest = spotify_retry::trim_start(header);
        let trail = lemma_trim_end_splits(rest);
        let core = spotify_retry::trim_end(rest);
        let body = spotify_retry::unsigned(core);
        let sign = if core.len() > 0 && core[0] == 43 {
            seq![43u8]
        } else {
            Seq::<u8>::empty()
        };
        assert(core =~= sign + body);
        assert(header =~= lead + sign + body + trail);
        lemma_number(body);
        assert(names_seconds(header, n as int));
    }
}

/// A `Retry-After` header is read as `n` seconds where it names `n`, for
/// every whole number from one to the greatest of 64 bits.
pub proof fn retry_after_is_read(header: &[u8], n: int, wait: Option<Duration>)
    requires
        names_seconds(header@, n),
        1 <= n <= i64::MAX,
        call_ensures(parse_retry_after_seconds, (Some(header),), wait),
    ensures
        wait is Some,
        wait->0@ == n * 1_000_000_000,
{
    lemma_named(header@, n);
}

/// A header that is read names that many seconds; one that names no such
/// number is not read, and neither is one that is missing.
pub proof fn nothing_else_is_read(header: Option<&[u8]>, wait: Option<Duration>)
    requires
        call_ensures(parse_retry_after_seconds, (header,), wait),
    ensures
        wait matches Some(d) ==> header is Some && exists|n: int|
            1 <= n <= i64::MAX && d@ == n * 1_000_000_000 && #[trigger] names_seconds(
                header->0@,
                n,
            ),
{
    if let Some(h) = header {
        lemma_not_named(h@);
        if wait is Some {
            let n = spotify_retry::delta_seconds(h@)->0 as int;
            assert(names_seconds(h@, n));
        }
    }
}

/// A first 429 that names `n` seconds is followed by a wait of exactly `n`
/// seconds, or of a minute where `n` is more than that.
pub proof fn the_server_names_the_wait(header: &[u8], n: int, wait: Option<Duration>)
    requires
        names_seconds(header@, n),
        1 <= n <= i64::MAX,
        call_ensures(retry_wait, (false, 429u16, Some(header)), wait),
    ensures
        wait is Some,
        n <= 60 ==> wait->0@ == n * 1_000_000_000,
        n > 60 ==> wait->0@ == 60_000_000_000,
{
    lemma_named(header@, n);
}

/// A first 429 that names no number of seconds is followed by a wait of one
/// second.
pub proof fn the_default_wait_is_a_second(header: Option<&[u8]>, wait: Option<Duration>)
    requires
        header is Some ==> forall|n: int|
            1 <= n <= i64::MAX ==> !#[trigger] names_seconds(header->0@, n),
        call_ensures(retry_wait, (false, 429u16, header), wait),
    ensures
        wait is Some,
        wait->0@ == 1_000_000_000,
{
    if let Some(h) = header {
        lemma_not_named(h@);
    }
}

/// Nothing but a first 429 is retried so.
pub proof fn nothing_else_waits(
    retried: bool,
    status: u16,
    header: Option<&[u8]>,
    wait: Option<Duration>,
)
    requires
        call_ensures(retry_wait, (retried, status, header), wait),
    ensures
        wait is Some <==> !retried && status == 429,
{
}

/// A server error backs off while retries are left, and nothing else does.
pub proof fn server_errors_back_off(
    cfg: &BackoffConfig,
    attempt: u32,
    status: u16,
    step: BackoffStep,
)
    requires
        spotify_backoff::delay_fits(attempt, cfg.base@, cfg.jitter_max@),
        cfg.jitter_max@ <= u64::MAX,
        call_ensures(backoff_step, (cfg, attempt, status), step),
    ensures
        step is RetryAfter <==> 500 <= status <= 599 && attempt < cfg.max_retries,
        step matches BackoffStep::RetryAfter(d) ==> cfg.base@ * pow2(attempt as nat) <= d@
            <= cfg.base@ * pow2(attempt as nat) + cfg.jitter_max@,
{
}

/// The delay is at least the base, doubled once for each retry before, and
/// at most the jitter bound more than that; without a bound it is exact.
pub proof fn the_delay_doubles_within_its_jitter(
    attempt: u32,
    base: Duration,
    jitter_max: Duration,
    d: Duration,
)
    requires
        spotify_backoff::delay_fits(attempt, base@, jitter_max@),
        jitter_max@ <= u64::MAX,
        call_ensures(backoff_delay, (attempt, base, jitter_max), d),
    ensures
        base@ * pow2(attempt as nat) <= d@ <= base@ * pow2(attempt as nat) + jitter_max@,
        jitter_max@ == 0 ==> d@ == base@ * pow2(attempt as nat),
        (d@ - base@ * pow2(attempt as nat)) % 1_000_000 == 0,
{
    let jitter_ms = choose|jitter_ms: nat|
        spotify_backoff::jitter_drawn(jitter_max@, jitter_ms) && d@ == spotify_backoff::bare_delay(
            attempt,
            base@,
        ) + #[trigger] (jitter_ms * time::NANOS_PER_MILLI);
    assert(jitter_ms * 1_000_000 <= jitter_max@);
}

/// Chance draws the jitter: where there is a bound, the delay is the doubled
/// base and a number of milliseconds that was drawn up to the bound.
pub proof fn chance_draws_the_jitter(
    attempt: u32,
    base: Duration,
    jitter_max: Duration,
    d: Duration,
)
    requires
        spotify_backoff::delay_fits(attempt, base@, jitter_max@),
        0 < jitter_max@ <= u64::MAX,
        call_ensures(backoff_delay, (attempt, base, jitter_max), d),
    ensures
        exists|ms: u64| #[trigger]
            random::number_drawn((jitter_max@ / 1_000_000) as u64, ms) && d@ == base@ * pow2(
                attempt as nat,
            ) + ms * 1_000_000,
{
    let jitter_ms = choose|jitter_ms: nat|
        spotify_backoff::jitter_drawn(jitter_max@, jitter_ms) && d@ == spotify_backoff::bare_delay(
            attempt,
            base@,
        ) + #[trigger] (jitter_ms * time::NANOS_PER_MILLI);
    assert(random::number_drawn((jitter_max@ / 1_000_000) as u64, jitter_ms as u64));
}

/// So it is for the step that backs off from a server error.
pub proof fn chance_draws_the_jitter_of_a_step(
    cfg: &BackoffConfig,
    attempt: u32,
    status: u16,
    step: BackoffStep,
)
    requires
        spotify_backoff::delay_fits(attempt, cfg.base@, cfg.jitter_max@),
        0 < cfg.jitter_max@ <= u64::MAX,
        call_ensures(backoff_step, (cfg, attempt, status), step),
    ensures
        step matches BackoffStep::RetryAfter(d) ==> exists|ms: u64| #[trigger]
            random::number_drawn((cfg.jitter_max@ / 1_000_000) as u64, ms) && d@ == cfg.base@
                * pow2(attempt as nat) + ms * 1_000_000,
{
    if let BackoffStep::RetryAfter(d) = step {
        let jitter_ms = choose|jitter_ms: nat|
            spotify_backoff::jitter_drawn(cfg.jitter_max@, jitter_ms) && d@
                == spotify_backoff::bare_delay(attempt, cfg.base@) + #[trigger] (jitter_ms
                * time::NANOS_PER_MILLI);
        assert(random::number_drawn(
            (cfg.jitter_max@ / 1_000_000) as u64,
            jitter_ms as u64,
        ));
    }
}

/// Given jitter is added in milliseconds.
pub proof fn jitter_is_in_milliseconds(
    attempt: u32,
    base: Duration,
    jitter_ms: u64,
    d: Duration,
)
    requires
        attempt < 32,
        base@ * pow2(attempt as nat) + jitter_ms * 1_000_000 <= time::MAX_NANOS,
        call_ensures(delay_with_jitter, (attempt, base, jitter_ms), d),
    ensures
        d@ == base@ * pow2(attempt as nat) + jitter_ms * 1_000_000,
{
}

/// In production there are three retries, after one, two and four seconds,
/// each with a quarter of a second of jitter at most.
pub proof fn the_production_schedule(cfg: BackoffConfig, attempt: u32, d: Duration)
    requires
        call_ensures(BackoffConfig::production, (), cfg),
        attempt < cfg.max_retries,
        call_ensures(backoff_delay, (attempt, cfg.base, cfg.jitter_max), d),
    ensures
        cfg.max_retries == 3,
        attempt == 0 ==> 1_000_000_000 <= d@ <= 1_250_000_000,
        attempt == 1 ==> 2_000_000_000 <= d@ <= 2_250_000_000,
        attempt == 2 ==> 4_000_000_000 <= d@ <= 4_250_000_000,
{
    lemma2_to64();
    assert(spotify_backoff::delay_fits(attempt, cfg.base@, cfg.jitter_max@));
    the_delay_doubles_within_its_jitter(attempt, cfg.base, cfg.jitter_max, d);
}

} // verus!
