//! The way of one request to the upstream API through its layers: retry
//! after 429 outermost, backoff on server errors inside it, then a pair of
//! log lines for each attempt, pacing innermost. A retry, for whichever
//! reason, is logged and goes through the pacing again.

use vstd::prelude::*;

use crate::infra::http_logging::{
    self, outbound_line, response_line, transport_error_line, Direction, WireLine, WireLineView,
    WireTarget,
};
use crate::infra::spotify_backoff::{self, backoff_step, BackoffConfig, BackoffStep};
use crate::infra::spotify_retry::{self, retry_wait};
use crate::time::{Duration, NANOS_PER_MILLI};

verus! {

/// What the log lines say of a request.
#[derive(Debug, PartialEq)]
pub struct Outgoing {
    pub target: WireTarget,
    pub method: String,
    pub url: String,
}

/// What an [`Outgoing`] holds.
pub struct OutgoingView {
    pub target: WireTarget,
    pub method: Seq<char>,
    pub url: Seq<char>,
}

impl View for Outgoing {
    type V = OutgoingView;

    open spec fn view(&self) -> OutgoingView {
        OutgoingView { target: self.target, method: self.method@, url: self.url@ }
    }
}

/// How far a request has come. `retried` says that it was sent again after
/// a 429, `attempt` counts the server errors since it was sent first or
/// sent again.
#[derive(Debug, Clone, Copy, PartialEq, Eq, Structural)]
pub enum OutboundState {
    /// It waits for a permit.
    Pacing { retried: bool, attempt: u32 },
    /// It is on its way.
    Sending { retried: bool, attempt: u32 },
    /// It waits before the next attempt, which has these numbers.
    Waiting { retried: bool, attempt: u32 },
    Finished,
}

/// What came of a request's last action.
#[derive(Debug, PartialEq)]
pub enum OutboundEvent {
    /// A permit was granted.
    Paced,
    /// A response came, with this `Retry-After` header.
    Answered {
        status: u16,
        retry_after: Option<Vec<u8>>,
        content_length: Option<u64>,
        elapsed_ms: u64,
    },
    /// No response came.
    Failed { error: String, elapsed_ms: u64 },
    /// The wait is over.
    Waited,
}

/// What an [`OutboundEvent`] holds.
pub enum OutboundEventView {
    Paced,
    Answered {
        status: u16,
        retry_after: Option<Seq<u8>>,
        content_length: Option<u64>,
        elapsed_ms: u64,
    },
    Failed { error: Seq<char>, elapsed_ms: u64 },
    Waited,
}

impl View for OutboundEvent {
    type V = OutboundEventView;

    open spec fn view(&self) -> OutboundEventView {
        match *self {
            OutboundEvent::Paced => OutboundEventView::Paced,
            OutboundEvent::Answered { status, retry_after, content_length, elapsed_ms } =>
                OutboundEventView::Answered {
                status,
                retry_after: match retry_after {
                    Some(h) => Some(h@),
                    None => None,
                },
                content_length,
                elapsed_ms,
            },
            OutboundEvent::Failed { error, elapsed_ms } => OutboundEventView::Failed {
                error: error@,
                elapsed_ms,
            },
            OutboundEvent::Waited => OutboundEventView::Waited,
        }
    }
}

/// What is done with a request next.
#[derive(Debug, PartialEq)]
pub enum OutboundAction {
    /// Get a permit.
    Pace,
    /// Send it.
    Send,
    /// Drop the response and wait.
    Wait(Duration),
    /// Hand on what came: the response, or the failure.
    Return,
}

/// What an [`OutboundAction`] holds; waits in nanoseconds.
pub enum OutboundActionView {
    Pace,
    Send,
    Wait(nat),
    Return,
}

impl View for OutboundAction {
    type V = OutboundActionView;

    open spec fn view(&self) -> OutboundActionView {
        match *self {
            OutboundAction::Pace => OutboundActionView::Pace,
            OutboundAction::Send => OutboundActionView::Send,
            OutboundAction::Wait(d) => OutboundActionView::Wait(d@),
            OutboundAction::Return => OutboundActionView::Return,
        }
    }
}

/// One step of a request: where it stands then, the line that is logged,
/// and what is done after that.
#[derive(Debug, PartialEq)]
pub struct OutboundStep {
    pub state: OutboundState,
    pub line: Option<WireLine>,
    pub action: OutboundAction,
}

/// What an [`OutboundStep`] holds.
pub struct OutboundStepView {
    pub state: OutboundState,
    pub line: Option<WireLineView>,
    pub action: OutboundActionView,
}

impl View for OutboundStep {
    type V = OutboundStepView;

    open spec fn view(&self) -> OutboundStepView {
        OutboundStepView {
            state: self.state,
            line: match self.line {
                Some(line) => Some(line@),
                None => None,
            },
            action: self.action@,
        }
    }
}

/// An attempt begins: it is logged, and waits for a permit.
pub open spec fn attempt_view(req: OutgoingView, retried: bool, attempt: u32) -> OutboundStepView {
    OutboundStepView {
        state: OutboundState::Pacing { retried, attempt },
        line: Some(http_logging::outbound_line_view(req.target, req.method, req.url)),
        action: OutboundActionView::Pace,
    }
}

/// Where a request begins.
pub open spec fn outbound_first(req: OutgoingView) -> OutboundStepView {
    attempt_view(req, false, 0)
}

/// The event is one that the request waits for. Where the response is
/// retried after a backoff, the delay can be represented.
pub open spec fn outbound_awaited(
    cfg: BackoffConfig,
    state: OutboundState,
    event: OutboundEventView,
) -> bool {
    match (state, event) {
        (OutboundState::Pacing { .. }, OutboundEventView::Paced) => true,
        (OutboundState::Sending { attempt, .. }, OutboundEventView::Answered { status, .. }) =>
            spotify_backoff::retries(cfg.max_retries, attempt, status)
                ==> spotify_backoff::delay_fits(attempt, cfg.base@, cfg.jitter_max@),
        (OutboundState::Sending { .. }, OutboundEventView::Failed { .. }) => true,
        (OutboundState::Waiting { .. }, OutboundEventView::Waited) => true,
        _ => false,
    }
}

/// The step draws jitter: it backs off from a server error.
pub open spec fn draws_jitter(
    cfg: BackoffConfig,
    state: OutboundState,
    event: OutboundEventView,
) -> bool {
    match (state, event) {
        (OutboundState::Sending { attempt, .. }, OutboundEventView::Answered { status, .. }) =>
            spotify_backoff::retries(cfg.max_retries, attempt, status),
        _ => false,
    }
}

/// How a request goes on from `state` once `event` has come, where chance
/// gives that much jitter.
pub open spec fn outbound_next(
    cfg: BackoffConfig,
    req: OutgoingView,
    state: OutboundState,
    event: OutboundEventView,
    jitter_ms: nat,
) -> OutboundStepView {
    match (state, event) {
        (OutboundState::Pacing { retried, attempt }, OutboundEventView::Paced) => OutboundStepView {
            state: OutboundState::Sending { retried, attempt },
            line: None,
            action: OutboundActionView::Send,
        },
        (
            OutboundState::Sending { retried, attempt },
            OutboundEventView::Answered { status, retry_after, content_length, elapsed_ms },
        ) => {
            let line = Some(
                http_logging::response_line_view(
                    req.target,
                    req.method,
                    req.url,
                    status,
                    content_length,
                    elapsed_ms,
                ),
            );
            if spotify_backoff::retries(cfg.max_retries, attempt, status) {
                OutboundStepView {
                    state: OutboundState::Waiting { retried, attempt: (attempt + 1) as u32 },
                    line,
                    action: OutboundActionView::Wait(
                        (spotify_backoff::bare_delay(attempt, cfg.base@) + jitter_ms
                            * NANOS_PER_MILLI) as nat,
                    ),
                }
            } else {
                match spotify_retry::retry_wait_view(retried, status, retry_after) {
                    Some(wait) => OutboundStepView {
                        state: OutboundState::Waiting { retried: true, attempt: 0 },
                        line,
                        action: OutboundActionView::Wait(wait),
                    },
                    None => OutboundStepView {
                        state: OutboundState::Finished,
                        line,
                        action: OutboundActionView::Return,
                    },
                }
            }
        },
        (OutboundState::Sending { .. }, OutboundEventView::Failed { error, elapsed_ms }) =>
            OutboundStepView {
            state: OutboundState::Finished,
            line: Some(
                http_logging::transport_error_line_view(
                    req.target,
                    req.method,
                    req.url,
                    error,
                    elapsed_ms,
                ),
            ),
            action: OutboundActionView::Return,
        },
        (OutboundState::Waiting { retried, attempt }, OutboundEventView::Waited) => attempt_view(
            req,
            retried,
            attempt,
        ),
        _ => arbitrary(),
    }
}

fn begin_attempt(req: &Outgoing, retried: bool, attempt: u32) -> (step: OutboundStep)
    ensures
        step@ == attempt_view(req@, retried, attempt),
{
    OutboundStep {
        state: OutboundState::Pacing { retried, attempt },
        line: Some(outbound_line(req.target, req.method.as_str(), req.url.as_str())),
        action: OutboundAction::Pace,
    }
}

/// Begin a request.
pub fn outbound_start(req: &Outgoing) -> (step: OutboundStep)
    ensures
        step@ == outbound_first(req@),
{
    begin_attempt(req, false, 0)
}

/// Go on with a request once the awaited event has come.
pub fn outbound_step(
    cfg: &BackoffConfig,
    req: &Outgoing,
    state: OutboundState,
    event: &OutboundEvent,
) -> (step: OutboundStep)
    requires
        outbound_awaited(*cfg, state, event@),
    ensures
        exists|jitter_ms: nat|
            (draws_jitter(*cfg, state, event@) ==> spotify_backoff::jitter_drawn(
                cfg.jitter_max@,
                jitter_ms,
            )) && step@ == #[trigger] outbound_next(*cfg, req@, state, event@, jitter_ms),
{
    match (state, event) {
        (OutboundState::Pacing { retried, attempt }, OutboundEvent::Paced) => {
            let step = OutboundStep {
                state: OutboundState::Sending { retried, attempt },
                line: None,
                action: OutboundAction::Send,
            };
            assert(step@ == outbound_next(*cfg, req@, state, event@, 0));
            step
        },
        (
            OutboundState::Sending { retried, attempt },
            OutboundEvent::Answered { status, retry_after, content_length, elapsed_ms },
        ) => {
            let header: Option<&[u8]> = match retry_after {
                Some(h) => Some(h.as_slice()),
                None => None,
            };
            let line = Some(
                response_line(
                    req.target,
                    req.method.as_str(),
                    req.url.as_str(),
                    *status,
                    *content_length,
                    *elapsed_ms,
                ),
            );
            match backoff_step(cfg, attempt, *status) {
                BackoffStep::RetryAfter(delay) => {
                    let ghost jitter_ms = choose|jitter_ms: nat|
                        spotify_backoff::jitter_drawn(cfg.jitter_max@, jitter_ms) && delay@
                            == spotify_backoff::bare_delay(attempt, cfg.base@) + #[trigger] (
                        jitter_ms * NANOS_PER_MILLI);
                    let step = OutboundStep {
                        state: OutboundState::Waiting { retried, attempt: attempt + 1 },
                        line,
                        action: OutboundAction::Wait(delay),
                    };
                    assert(step@ == outbound_next(*cfg, req@, state, event@, jitter_ms));
                    step
                },
                BackoffStep::Return => {
                    let step = match retry_wait(retried, *status, header) {
                        Some(wait) => OutboundStep {
                            state: OutboundState::Waiting { retried: true, attempt: 0 },
                            line,
                            action: OutboundAction::Wait(wait),
                        },
                        None => OutboundStep {
                            state: OutboundState::Finished,
                            line,
                            action: OutboundAction::Return,
                        },
                    };
                    assert(step@ == outbound_next(*cfg, req@, state, event@, 0));
                    step
                },
            }
        },
        (OutboundState::Sending { .. }, OutboundEvent::Failed { error, elapsed_ms }) => {
            let step = OutboundStep {
                state: OutboundState::Finished,
                line: Some(
                    transport_error_line(
                        req.target,
                        req.method.as_str(),
                        req.url.as_str(),
                        error.as_str(),
                        *elapsed_ms,
                    ),
                ),
                action: OutboundAction::Return,
            };
            assert(step@ == outbound_next(*cfg, req@, state, event@, 0));
            step
        },
        (OutboundState::Waiting { retried, attempt }, OutboundEvent::Waited) => {
            let step = begin_attempt(req, retried, attempt);
            assert(step@ == outbound_next(*cfg, req@, state, event@, 0));
            step
        },
        _ => {
            assert(false);
            begin_attempt(req, false, 0)
        },
    }
}

/// A request is sent exactly where it has just been granted a permit: every
/// attempt, a retry too, takes one of its own.
pub proof fn every_send_takes_a_permit(
    cfg: BackoffConfig,
    req: OutgoingView,
    state: OutboundState,
    event: OutboundEventView,
    jitter_ms: nat,
)
    requires
        outbound_awaited(cfg, state, event),
    ensures
        outbound_next(cfg, req, state, event, jitter_ms).action is Send <==> event is Paced,
        outbound_next(cfg, req, state, event, jitter_ms).state is Sending <==> event is Paced,
{
}

/// A server error waits for the backoff and never for `Retry-After`; a 429
/// never uses up an attempt of the backoff.
pub proof fn layers_keep_apart(
    cfg: BackoffConfig,
    req: OutgoingView,
    retried: bool,
    attempt: u32,
    event: OutboundEventView,
    jitter_ms: nat,
)
    requires
        event is Answered,
    ensures
        ({
            let status = event->Answered_status;
            let next = outbound_next(
                cfg,
                req,
                OutboundState::Sending { retried, attempt },
                event,
                jitter_ms,
            ).state;
            &&& spotify_backoff::server_error(status) ==> next is Finished || next == (
            OutboundState::Waiting { retried, attempt: (attempt + 1) as u32 })
            &&& status == 429 ==> next is Finished || next == (OutboundState::Waiting {
                retried: true,
                attempt: 0,
            })
        }),
{
}

/// What has become of a request so far.
pub struct Run {
    /// Where it stands.
    pub state: OutboundState,
    /// How many permits it was granted.
    pub permits: nat,
    /// How often it was sent.
    pub sends: nat,
    /// What was logged of it.
    pub lines: Seq<WireLineView>,
}

/// The line, where there is one, behind the others.
pub open spec fn logged(lines: Seq<WireLineView>, line: Option<WireLineView>) -> Seq<WireLineView> {
    match line {
        Some(line) => lines.push(line),
        None => lines,
    }
}

/// What becomes of a request where these events come, with these amounts of
/// jitter. An event that it does not wait for changes nothing.
pub open spec fn run(
    cfg: BackoffConfig,
    req: OutgoingView,
    inputs: Seq<(OutboundEventView, nat)>,
) -> Run
    decreases inputs.len(),
{
    if inputs.len() == 0 {
        let first = outbound_first(req);
        Run { state: first.state, permits: 0, sends: 0, lines: logged(Seq::empty(), first.line) }
    } else {
        let before = run(cfg, req, inputs.drop_last());
        let (event, jitter_ms) = inputs.last();
        if outbound_awaited(cfg, before.state, event) {
            let step = outbound_next(cfg, req, before.state, event, jitter_ms);
            Run {
                state: step.state,
                permits: before.permits + if event is Paced {
                    1nat
                } else {
                    0
                },
                sends: before.sends + if step.action is Send {
                    1nat
                } else {
                    0
                },
                lines: logged(before.lines, step.line),
            }
        } else {
            before
        }
    }
}

/// The lines are pairs, each of a request and of what came back, all of the
/// request `req`.
pub open spec fn in_pairs(req: OutgoingView, lines: Seq<WireLineView>) -> bool {
    forall|i: int|
        0 <= i < lines.len() ==> {
            let line = #[trigger] lines[i];
            &&& line.direction == Some(
                if i % 2 == 0 {
                    Direction::There
                } else {
                    Direction::Back
                },
            )
            &&& line.target == req.target.name_view()
            &&& line.method == req.method
            &&& line.place == req.url
            &&& line.body is None
        }
}

/// How often a request can still be sent from `state` on.
spec fn sends_left(max_retries: u32, state: OutboundState) -> int {
    let after_429 = |retried: bool|
        if retried {
            0int
        } else {
            max_retries + 1
        };
    match state {
        OutboundState::Pacing { retried, attempt } => max_retries - attempt + 1 + after_429(
            retried,
        ),
        OutboundState::Sending { retried, attempt } => max_retries - attempt + after_429(retried),
        OutboundState::Waiting { retried, attempt } => max_retries - attempt + 1 + after_429(
            retried,
        ),
        OutboundState::Finished => 0,
    }
}

spec fn attempt_within(max_retries: u32, state: OutboundState) -> bool {
    match state {
        OutboundState::Pacing { attempt, .. } => attempt <= max_retries,
        OutboundState::Sending { attempt, .. } => attempt <= max_retries,
        OutboundState::Waiting { attempt, .. } => attempt <= max_retries,
        OutboundState::Finished => true,
    }
}

proof fn lemma_run(cfg: BackoffConfig, req: OutgoingView, inputs: Seq<(OutboundEventView, nat)>)
    ensures
        ({
            let r = run(cfg, req, inputs);
            &&& attempt_within(cfg.max_retries, r.state)
            &&& r.sends + sends_left(cfg.max_retries, r.state) <= 2 * (cfg.max_retries + 1)
            &&& sends_left(cfg.max_retries, r.state) >= 0
            &&& r.permits == r.sends
            &&& in_pairs(req, r.lines)
            &&& r.lines.len() == match r.state {
                OutboundState::Pacing { .. } => 2 * r.sends as int + 1,
                OutboundState::Sending { .. } => 2 * r.sends as int - 1,
                _ => 2 * r.sends as int,
            }
        }),
    decreases inputs.len(),
{
    if inputs.len() > 0 {
        lemma_run(cfg, req, inputs.drop_last());
    }
}

/// Whatever comes back, each send takes exactly one permit, granted before
/// it.
pub proof fn one_permit_per_send(
    cfg: BackoffConfig,
    req: OutgoingView,
    inputs: Seq<(OutboundEventView, nat)>,
)
    ensures
        run(cfg, req, inputs).permits == run(cfg, req, inputs).sends,
{
    lemma_run(cfg, req, inputs);
}

/// Each send gets a line for the request, before it, and a line for what
/// came back, after it: when the request ends, there is one such pair for
/// each send and nothing else. No line holds a body.
pub proof fn one_pair_of_lines_per_send(
    cfg: BackoffConfig,
    req: OutgoingView,
    inputs: Seq<(OutboundEventView, nat)>,
)
    ensures
        ({
            let r = run(cfg, req, inputs);
            &&& in_pairs(req, r.lines)
            &&& r.state is Finished ==> r.lines.len() == 2 * r.sends
            &&& r.state is Waiting ==> r.lines.len() == 2 * r.sends
            &&& r.state is Pacing ==> r.lines.len() == 2 * r.sends + 1
            &&& r.state is Sending ==> r.lines.len() == 2 * r.sends - 1
        }),
{
    lemma_run(cfg, req, inputs);
}

/// Whatever comes back, a request is sent at most twice as often as the
/// backoff alone allows: once for each of its attempts, and once more for
/// each after a 429.
pub proof fn sends_are_limited(
    cfg: BackoffConfig,
    req: OutgoingView,
    inputs: Seq<(OutboundEventView, nat)>,
)
    ensures
        run(cfg, req, inputs).sends <= 2 * (cfg.max_retries + 1),
{
    lemma_run(cfg, req, inputs);
}

} // verus!
