use music_api::infra::outbound::{
    outbound_start, outbound_step, OutboundAction, OutboundEvent, OutboundState, Outgoing,
};
use music_api::infra::http_logging::{Direction, WireLine, WireTarget};
use music_api::infra::spotify_backoff::{
    backoff_delay, backoff_step, delay_with_jitter, BackoffConfig, BackoffStep,
};
use music_api::infra::spotify_retry::{parse_retry_after_seconds, retry_wait};
use music_api::time::Duration;

#[test]
fn production_backoff_schedule_is_1s_2s_4s_within_jitter() {
    let cfg = BackoffConfig::production();
    // (attempt, lo_ms, hi_ms): base*2^attempt .. base*2^attempt + 250.
    for (attempt, lo, hi) in [(0u32, 1000u64, 1250u64), (1, 2000, 2250), (2, 4000, 4250)] {
        for _ in 0..64 {
            let d = backoff_delay(attempt, cfg.base, cfg.jitter_max).as_millis() as u64;
            assert!(
                d >= lo && d <= hi,
                "attempt {attempt} delay {d} ms out of [{lo}, {hi}] ms",
            );
        }
    }
}

#[test]
fn zero_jitter_is_exact_exponential() {
    let base = Duration::from_millis(100);
    let zero = Duration::from_millis(0);
    assert_eq!(backoff_delay(0, base, zero), Duration::from_millis(100));
    assert_eq!(backoff_delay(1, base, zero), Duration::from_millis(200));
    assert_eq!(backoff_delay(2, base, zero), Duration::from_millis(400));
}

#[test]
fn jitter_never_exceeds_configured_ceiling() {
    let base = Duration::from_secs(1);
    let jitter_max = Duration::from_millis(250);
    for attempt in 0..3u32 {
        let exp = base.as_nanos() * 2u128.pow(attempt);
        for _ in 0..256 {
            let d = backoff_delay(attempt, base, jitter_max).as_nanos();
            assert!(
                d >= exp && d <= exp + jitter_max.as_nanos(),
                "delay {d} outside [{exp}, {}]",
                exp + jitter_max.as_nanos(),
            );
        }
    }
}

#[test]
fn jitter_varies() {
    let base = Duration::from_secs(1);
    let first = backoff_delay(0, base, Duration::from_millis(250));
    let mut varied = false;
    for _ in 0..256 {
        if backoff_delay(0, base, Duration::from_millis(250)) != first {
            varied = true;
        }
    }
    assert!(varied);
}

#[test]
fn given_jitter_is_added_in_milliseconds() {
    assert_eq!(
        delay_with_jitter(3, Duration::from_millis(100), 7),
        Duration::from_millis(807)
    );
}

#[test]
fn only_server_errors_back_off() {
    let cfg = BackoffConfig::production();
    for status in [200u16, 204, 301, 400, 401, 429, 499, 600] {
        assert!(matches!(backoff_step(&cfg, 0, status), BackoffStep::Return));
    }
    for status in [500u16, 502, 503, 599] {
        assert!(matches!(backoff_step(&cfg, 2, status), BackoffStep::RetryAfter(_)));
        assert!(matches!(backoff_step(&cfg, 3, status), BackoffStep::Return));
    }
}

#[test]
fn retry_after_reads_delta_seconds() {
    let read = |s: &str| parse_retry_after_seconds(Some(s.as_bytes()));
    assert_eq!(read("7"), Some(Duration::from_secs(7)));
    assert_eq!(read(" \t120 "), Some(Duration::from_secs(120)));
    assert_eq!(read("+5"), Some(Duration::from_secs(5)));
    assert_eq!(read("007"), Some(Duration::from_secs(7)));
    assert_eq!(
        read("9223372036854775807"),
        Some(Duration::from_secs(9223372036854775807))
    );
    assert_eq!(read("9223372036854775808"), None);
    assert_eq!(read("0"), None);
    assert_eq!(read("-3"), None);
    assert_eq!(read("+"), None);
    assert_eq!(read(""), None);
    assert_eq!(read("1.5"), None);
    assert_eq!(read("soon"), None);
    assert_eq!(read("Wed, 21 Oct 2015 07:28:00 GMT"), None);
    assert_eq!(parse_retry_after_seconds(Some(&[0x37, 0xff])), None);
    assert_eq!(parse_retry_after_seconds(None), None);
}

#[test]
fn the_wait_is_capped_and_has_a_default() {
    assert_eq!(retry_wait(false, 429, Some(b"7")), Some(Duration::from_secs(7)));
    assert_eq!(retry_wait(false, 429, Some(b"3600")), Some(Duration::from_secs(60)));
    assert_eq!(retry_wait(false, 429, Some(b"0")), Some(Duration::from_secs(1)));
    assert_eq!(retry_wait(false, 429, None), Some(Duration::from_secs(1)));
    assert_eq!(retry_wait(true, 429, Some(b"7")), None);
    assert_eq!(retry_wait(false, 503, Some(b"7")), None);
}

fn outgoing() -> Outgoing {
    Outgoing {
        target: WireTarget::SpotifyHttp,
        method: "GET".to_string(),
        url: "https://x/".to_string(),
    }
}

fn quick() -> BackoffConfig {
    BackoffConfig {
        base: Duration::from_millis(100),
        max_retries: 3,
        jitter_max: Duration::from_millis(0),
    }
}

fn answered(status: u16, retry_after: Option<Vec<u8>>) -> OutboundEvent {
    OutboundEvent::Answered { status, retry_after, content_length: Some(7), elapsed_ms: 12 }
}

/// Run a request against a server that always answers with this status, and
/// count permits and sends.
fn run_against(status: u16) -> (u32, u32, Vec<WireLine>) {
    let (mut permits, mut sends) = (0u32, 0u32);
    let mut lines = Vec::new();
    let mut step = outbound_start(&outgoing());
    loop {
        lines.extend(step.line);
        let event = match step.action {
            OutboundAction::Pace => {
                permits += 1;
                OutboundEvent::Paced
            }
            OutboundAction::Send => {
                sends += 1;
                answered(status, None)
            }
            OutboundAction::Wait(_) => OutboundEvent::Waited,
            OutboundAction::Return => return (permits, sends, lines),
        };
        step = outbound_step(&quick(), &outgoing(), step.state, &event);
    }
}

#[test]
fn every_attempt_takes_a_permit_and_a_pair_of_lines() {
    for (status, attempts) in [(200, 1), (404, 1), (429, 2), (503, 4)] {
        let (permits, sends, lines) = run_against(status);
        assert_eq!((permits, sends), (attempts, attempts));
        assert_eq!(lines.len() as u32, 2 * attempts);
        for pair in lines.chunks(2) {
            assert_eq!(pair[0].direction, Some(Direction::There));
            assert_eq!(pair[0].status, None);
            assert_eq!(pair[1].direction, Some(Direction::Back));
            assert_eq!(pair[1].status, Some(status));
            assert_eq!((pair[1].length, pair[1].elapsed_ms), (Some(7), Some(12)));
        }
    }
}

#[test]
fn a_429_after_backoff_starts_a_fresh_backoff() {
    let sending = OutboundState::Sending { retried: false, attempt: 2 };
    let step = outbound_step(&quick(), &outgoing(), sending, &answered(429, Some(b"2".to_vec())));
    assert_eq!(step.state, OutboundState::Waiting { retried: true, attempt: 0 });
    assert_eq!(step.action, OutboundAction::Wait(Duration::from_secs(2)));

    let step = outbound_step(&quick(), &outgoing(), sending, &answered(500, Some(b"2".to_vec())));
    assert_eq!(step.state, OutboundState::Waiting { retried: false, attempt: 3 });
    assert_eq!(step.action, OutboundAction::Wait(Duration::from_millis(400)));
}

#[test]
fn a_transport_failure_is_not_retried() {
    let step = outbound_step(
        &BackoffConfig::production(),
        &outgoing(),
        OutboundState::Sending { retried: false, attempt: 0 },
        &OutboundEvent::Failed { error: "refused".to_string(), elapsed_ms: 3 },
    );
    assert_eq!(step.state, OutboundState::Finished);
    assert_eq!(step.action, OutboundAction::Return);
    assert_eq!(step.line.unwrap().error, Some("refused".to_string()));
}
