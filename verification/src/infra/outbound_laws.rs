//! What becomes of a request at each step, in terms of the response that
//! came.

use vstd::arithmetic::power2::*;
use vstd::prelude::*;

use crate::infra::http_logging::{
    outbound_line, response_line, transport_error_line, Direction, WireLine, WireTarget,
};
use crate::infra::outbound::{
    self, outbound_start, outbound_step, OutboundAction, OutboundEvent, OutboundState,
    OutboundStep, Outgoing,
};
use crate::infra::spotify_backoff::{self, BackoffConfig};
use crate::infra::wait_laws;
use crate::random;

verus! {

/// The line is about this request, and holds neither a body nor an error.
pub open spec fn line_of(line: WireLine, req: Outgoing) -> bool {
    &&& line.target@ == match req.target {
        WireTarget::SpotifyHttp => "music_api::wire::spotify_http"@,
        WireTarget::SpotifyOAuthHttp => "music_api::wire::spotify_oauth_http"@,
    }
    &&& line.method@ == req.method@
    &&& line.place@ == req.url@
    &&& line.body is None
}

/// A line tells what was sent, what came back, or that nothing did.
pub proof fn lines_tell_what_happened(
    req: Outgoing,
    method: &str,
    url: &str,
    status: u16,
    content_length: Option<u64>,
    error: &str,
    elapsed_ms: u64,
    sent: WireLine,
    answered: WireLine,
    failed: WireLine,
)
    requires
        method@ == req.method@,
        url@ == req.url@,
        call_ensures(outbound_line, (req.target, method, url), sent),
        call_ensures(
            response_line,
            (req.target, method, url, status, content_length, elapsed_ms),
            answered,
        ),
        call_ensures(transport_error_line, (req.target, method, url, error, elapsed_ms), failed),
    ensures
        line_of(sent, req) && line_of(answered, req) && line_of(failed, req),
        sent.level is Info && sent.direction == Some(Direction::There),
        sent.status is None && sent.length is None && sent.elapsed_ms is None && sent.error is None,
        answered.level is Info && answered.direction == Some(Direction::Back),
        answered.status == Some(status) && answered.length == content_length,
        answered.elapsed_ms == Some(elapsed_ms) && answered.error is None,
        failed.level is Warn && failed.direction == Some(Direction::Back),
        failed.status is None && failed.elapsed_ms == Some(elapsed_ms),
        failed.error matches Some(e) && e@ == error@,
        sent.message@ == "outbound http"@,
        answered.message@ == "outbound http response"@,
        failed.message@ == "outbound http error (transport)"@,
{
}

/// A request begins by being logged and getting a permit.
pub proof fn a_request_begins_with_a_permit(req: &Outgoing, step: OutboundStep)
    requires
        call_ensures(outbound_start, (req,), step),
    ensures
        step.state == (OutboundState::Pacing { retried: false, attempt: 0 }),
        step.action is Pace,
        step.line matches Some(line) && line_of(line, *req) && line.direction == Some(
            Direction::There,
        ),
{
}

/// With the permit it is sent, as the same attempt.
pub proof fn a_permit_lets_it_go(
    cfg: &BackoffConfig,
    req: &Outgoing,
    retried: bool,
    attempt: u32,
    step: OutboundStep,
)
    requires
        call_ensures(
            outbound_step,
            (cfg, req, OutboundState::Pacing { retried, attempt }, &OutboundEvent::Paced),
            step,
        ),
    ensures
        step.state == (OutboundState::Sending { retried, attempt }),
        step.action is Send,
        step.line is None,
{
}

/// After a wait the next attempt is logged and gets a permit.
pub proof fn a_wait_ends_with_a_new_attempt(
    cfg: &BackoffConfig,
    req: &Outgoing,
    retried: bool,
    attempt: u32,
    step: OutboundStep,
)
    requires
        call_ensures(
            outbound_step,
            (cfg, req, OutboundState::Waiting { retried, attempt }, &OutboundEvent::Waited),
            step,
        ),
    ensures
        step.state == (OutboundState::Pacing { retried, attempt }),
        step.action is Pace,
        step.line matches Some(line) && line_of(line, *req) && line.direction == Some(
            Direction::There,
        ),
{
}

/// A response is logged. A server error waits for the backoff while retries
/// are left; a first 429 waits as the server asks, within a minute; anything
/// else is handed on.
pub proof fn a_response_is_retried_or_handed_on(
    cfg: &BackoffConfig,
    req: &Outgoing,
    retried: bool,
    attempt: u32,
    event: &OutboundEvent,
    step: OutboundStep,
)
    requires
        event is Answered,
        cfg.jitter_max@ <= u64::MAX,
        outbound::outbound_awaited(*cfg, OutboundState::Sending { retried, attempt }, event@),
        call_ensures(
            outbound_step,
            (cfg, req, OutboundState::Sending { retried, attempt }, event),
            step,
        ),
    ensures
        ({
            let status = event->Answered_status;
            let backs_off = 500 <= status <= 599 && attempt < cfg.max_retries;
            let asked_to_wait = status == 429 && !retried;
            &&& step.line matches Some(line) && line_of(line, *req) && line.direction == Some(
                Direction::Back,
            ) && line.level is Info && line.status == Some(status) && line.length
                == event->content_length && line.elapsed_ms == Some(event->Answered_elapsed_ms)
            &&& backs_off ==> step.state == (OutboundState::Waiting {
                retried,
                attempt: (attempt + 1) as u32,
            }) && (step.action matches OutboundAction::Wait(d) && cfg.base@ * pow2(
                attempt as nat,
            ) <= d@ <= cfg.base@ * pow2(attempt as nat) + cfg.jitter_max@)
            &&& asked_to_wait ==> step.state == (OutboundState::Waiting {
                retried: true,
                attempt: 0,
            }) && (step.action matches OutboundAction::Wait(d) && 1_000_000_000 <= d@
                <= 60_000_000_000)
            &&& !backs_off && !asked_to_wait ==> step.state is Finished && step.action is Return
        }),
{
}

/// A server error waits for the doubled base and a number of milliseconds
/// that chance drew up to the bound.
pub proof fn a_server_error_waits_by_chance(
    cfg: &BackoffConfig,
    req: &Outgoing,
    retried: bool,
    attempt: u32,
    event: &OutboundEvent,
    step: OutboundStep,
)
    requires
        event is Answered,
        500 <= event->Answered_status <= 599,
        attempt < cfg.max_retries,
        0 < cfg.jitter_max@ <= u64::MAX,
        outbound::outbound_awaited(*cfg, OutboundState::Sending { retried, attempt }, event@),
        call_ensures(
            outbound_step,
            (cfg, req, OutboundState::Sending { retried, attempt }, event),
            step,
        ),
    ensures
        step.action matches OutboundAction::Wait(d) && exists|ms: u64| #[trigger]
            random::number_drawn((cfg.jitter_max@ / 1_000_000) as u64, ms) && d@ == cfg.base@
                * pow2(attempt as nat) + ms * 1_000_000,
{
    let state = OutboundState::Sending { retried, attempt };
    let jitter_ms = choose|jitter_ms: nat|
        (outbound::draws_jitter(*cfg, state, event@) ==> spotify_backoff::jitter_drawn(
            cfg.jitter_max@,
            jitter_ms,
        )) && step@ == #[trigger] outbound::outbound_next(*cfg, req@, state, event@, jitter_ms);
    assert(random::number_drawn((cfg.jitter_max@ / 1_000_000) as u64, jitter_ms as u64));
}

/// A first 429 that names a number of seconds waits exactly so long, or a
/// minute where the number is more than sixty.
pub proof fn a_429_waits_as_asked(
    cfg: &BackoffConfig,
    req: &Outgoing,
    attempt: u32,
    event: &OutboundEvent,
    header: Vec<u8>,
    n: int,
    step: OutboundStep,
)
    requires
        event is Answered,
        event->Answered_status == 429,
        event->retry_after == Some(header),
        wait_laws::names_seconds(header@, n),
        1 <= n <= i64::MAX,
        call_ensures(
            outbound_step,
            (cfg, req, OutboundState::Sending { retried: false, attempt }, event),
            step,
        ),
    ensures
        n <= 60 ==> (step.action matches OutboundAction::Wait(d) && d@ == n * 1_000_000_000),
        n > 60 ==> (step.action matches OutboundAction::Wait(d) && d@ == 60_000_000_000),
{
    wait_laws::lemma_named(header@, n);
}

/// A first 429 that names none waits a second.
pub proof fn a_429_without_a_number_waits_a_second(
    cfg: &BackoffConfig,
    req: &Outgoing,
    attempt: u32,
    event: &OutboundEvent,
    step: OutboundStep,
)
    requires
        event is Answered,
        event->Answered_status == 429,
        event->retry_after matches Some(header) ==> forall|n: int|
            1 <= n <= i64::MAX ==> !#[trigger] wait_laws::names_seconds(header@, n),
        call_ensures(
            outbound_step,
            (cfg, req, OutboundState::Sending { retried: false, attempt }, event),
            step,
        ),
    ensures
        step.action matches OutboundAction::Wait(d) && d@ == 1_000_000_000,
{
    if let OutboundEvent::Answered { retry_after: Some(header), .. } = *event {
        wait_laws::lemma_not_named(header@);
    }
}

/// A request takes whatever comes at each step, as long as a delay that is
/// to follow can be represented.
pub proof fn whatever_comes_is_taken(
    cfg: &BackoffConfig,
    req: &Outgoing,
    retried: bool,
    attempt: u32,
    event: &OutboundEvent,
)
    ensures
        *event is Paced ==> call_requires(
            outbound_step,
            (cfg, req, OutboundState::Pacing { retried, attempt }, event),
        ),
        *event is Waited ==> call_requires(
            outbound_step,
            (cfg, req, OutboundState::Waiting { retried, attempt }, event),
        ),
        *event is Failed ==> call_requires(
            outbound_step,
            (cfg, req, OutboundState::Sending { retried, attempt }, event),
        ),
        *event is Answered && (attempt < 32 && cfg.base@ * pow2(attempt as nat) + cfg.jitter_max@
            <= 18_446_744_073_709_551_615_999_999_999 || attempt >= cfg.max_retries
            || event->Answered_status < 500 || event->Answered_status > 599) ==> call_requires(
            outbound_step,
            (cfg, req, OutboundState::Sending { retried, attempt }, event),
        ),
{
    let ms = cfg.jitter_max@ / 1_000_000;
    assert(ms % 0x1_0000_0000_0000_0000 <= ms);
    assert(spotify_backoff::jitter_bound(cfg.jitter_max@) * 1_000_000 <= cfg.jitter_max@);
}

/// A request without a response is logged and handed on as a failure.
pub proof fn no_response_is_handed_on(
    cfg: &BackoffConfig,
    req: &Outgoing,
    retried: bool,
    attempt: u32,
    event: &OutboundEvent,
    step: OutboundStep,
)
    requires
        event is Failed,
        call_ensures(
            outbound_step,
            (cfg, req, OutboundState::Sending { retried, attempt }, event),
            step,
        ),
    ensures
        step.state is Finished,
        step.action is Return,
        step.line matches Some(line) && line_of(line, *req) && line.direction == Some(
            Direction::Back,
        ) && line.status is None && (line.error matches Some(e) && e@ == event->error@),
{
}

} // verus!
