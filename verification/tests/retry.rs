use graphann::error::{classify_error, ClientError, ErrorCode};
use graphann::retry::{
    backoff_with_jitter, jitter_fraction, parse_retry_after, RetryPolicy, RetryState, RetryStep,
};
use graphann::time::TimeSpan;

#[test]
fn backoff_grows_with_attempt() {
    let base = TimeSpan::from_millis(100);
    let cap = TimeSpan::from_secs(10);
    let d0 = backoff_with_jitter(0, base, cap);
    let d3 = backoff_with_jitter(3, base, cap);
    assert!(d3 > d0);
    assert!(d3 <= cap);
}

#[test]
fn parse_retry_after_seconds() {
    assert_eq!(parse_retry_after("12"), Some(TimeSpan::from_secs(12)));
    assert_eq!(parse_retry_after(" 0 "), Some(TimeSpan::zero()));
    assert_eq!(parse_retry_after("not-a-number"), None);
}

#[test]
fn parse_retry_after_edge_cases() {
    assert_eq!(parse_retry_after("+7"), Some(TimeSpan::from_secs(7)));
    assert_eq!(parse_retry_after("\t30\r\n"), Some(TimeSpan::from_secs(30)));
    assert_eq!(parse_retry_after(""), None);
    assert_eq!(parse_retry_after("+"), None);
    assert_eq!(parse_retry_after("-1"), None);
    assert_eq!(parse_retry_after("1.5"), None);
    assert_eq!(parse_retry_after("18446744073709551615"), Some(TimeSpan::from_secs(u64::MAX)));
    assert_eq!(parse_retry_after("18446744073709551616"), None);
    assert_eq!(parse_retry_after("Wed, 21 Oct 2015 07:28:00 GMT"), None);
    assert_eq!(parse_retry_after("\u{3000}5\u{A0}"), Some(TimeSpan::from_secs(5)));
}

#[test]
fn retry_after_reads_back_what_was_written() {
    for secs in [0u64, 1, 9, 10, 99, 12345, u64::MAX] {
        assert_eq!(parse_retry_after(&secs.to_string()), Some(TimeSpan::from_secs(secs)));
    }
}

#[test]
fn jitter_bits_are_splitmix() {
    // splitmix64 of 0.
    assert_eq!(jitter_fraction(0), 0xE220_A839_7B1D_CDAF);
}

#[test]
fn backoff_exact_values() {
    let base = TimeSpan::from_millis(100);
    let cap = TimeSpan::from_secs(10);
    let z = jitter_fraction(0) as u128;
    let c: u128 = 100_000_000;
    let expected = c * ((1u128 << 64) + z) >> 65;
    assert_eq!(backoff_with_jitter(0, base, cap).as_nanos(), expected);
    // Capped: 100ms * 2^10 exceeds 10s, so the cap is jittered.
    let z10 = jitter_fraction(10) as u128;
    let cap_ns: u128 = 10_000_000_000;
    let expected10 = cap_ns * ((1u128 << 64) + z10) >> 65;
    assert_eq!(backoff_with_jitter(10, base, cap).as_nanos(), expected10);
    // The exponent stops growing at 10.
    assert_eq!(
        backoff_with_jitter(25, TimeSpan::from_nanos(1), TimeSpan::from_secs(1)).as_nanos(),
        (1024u128 * ((1u128 << 64) + jitter_fraction(25) as u128)) >> 65
    );
}

#[test]
fn backoff_stays_in_window() {
    let base = TimeSpan::from_millis(200);
    let cap = TimeSpan::from_secs(20);
    for attempt in 0..40u32 {
        let d = backoff_with_jitter(attempt, base, cap).as_nanos();
        let e = attempt.min(10);
        let capped = (200_000_000u128 << e).min(20_000_000_000);
        assert!(d <= capped);
        assert!(d >= capped / 2);
    }
}

#[test]
fn backoff_saturates_at_u64_max_nanos() {
    let big = TimeSpan::from_secs(u64::MAX);
    let d = backoff_with_jitter(3, big, big);
    assert_eq!(d.as_nanos(), u64::MAX as u128);
}

#[test]
fn retry_policy_honours_retry_after_then_gives_up() {
    let policy = RetryPolicy {
        max_retries: 2,
        base: TimeSpan::from_millis(1),
        cap: TimeSpan::from_millis(2),
    };
    let mut state = RetryState::new();
    let limited = ClientError::RateLimit { retry_after: Some(TimeSpan::from_secs(3)), message: None };
    match state.on_failure(&policy, &limited) {
        RetryStep::Retry { delay } => assert_eq!(delay, TimeSpan::from_secs(3)),
        RetryStep::GiveUp => panic!("expected a retry"),
    }
    assert_eq!(state.attempt(), 1);
    let busy = ClientError::ServiceUnavailable {
        code: None,
        message: "busy".to_string(),
        retry_after: None,
    };
    match state.on_failure(&policy, &busy) {
        RetryStep::Retry { delay } => {
            assert_eq!(delay, backoff_with_jitter(1, policy.base, policy.cap))
        }
        RetryStep::GiveUp => panic!("expected a retry"),
    }
    assert_eq!(state.attempt(), 2);
    assert!(matches!(state.on_failure(&policy, &busy), RetryStep::GiveUp));
    assert_eq!(state.attempt(), 2);
}

#[test]
fn permanent_errors_are_not_retried() {
    let policy = RetryPolicy {
        max_retries: 5,
        base: TimeSpan::from_millis(1),
        cap: TimeSpan::from_millis(2),
    };
    let mut state = RetryState::new();
    let e = ClientError::NotFound("gone".to_string());
    assert!(matches!(state.on_failure(&policy, &e), RetryStep::GiveUp));
    assert_eq!(state.attempt(), 0);
    assert_eq!(ErrorCode::parse("not_found"), ErrorCode::NotFound);
}

#[test]
fn error_responses_retry_only_on_429_and_503() {
    let policy = RetryPolicy {
        max_retries: 3,
        base: TimeSpan::from_millis(100),
        cap: TimeSpan::from_secs(10),
    };
    let limited = classify_error(429, Some("7"), None, b"slow down").unwrap();
    match policy.next_step(0, &limited) {
        RetryStep::Retry { delay } => assert_eq!(delay, TimeSpan::from_secs(7)),
        RetryStep::GiveUp => panic!("429 must be retried"),
    }
    let busy = classify_error(503, Some("Wed, 21 Oct 2015 07:28:00 GMT"), None, b"").unwrap();
    match policy.next_step(2, &busy) {
        RetryStep::Retry { delay } => {
            assert_eq!(delay, backoff_with_jitter(2, policy.base, policy.cap))
        }
        RetryStep::GiveUp => panic!("503 must be retried"),
    }
    assert!(matches!(policy.next_step(3, &busy), RetryStep::GiveUp));
    let missing = classify_error(404, Some("1"), None, b"nope").unwrap();
    assert!(matches!(policy.next_step(0, &missing), RetryStep::GiveUp));
    let broken = classify_error(500, None, None, b"boom").unwrap();
    assert!(matches!(policy.next_step(0, &broken), RetryStep::GiveUp));
}

#[test]
fn backoff_agrees_with_the_float_formula() {
    // 0.5 + 0.5 * z / u64::MAX, in f64, as a jittered fraction of the
    // capped delay.
    for (base_ms, cap_ms) in [(200u64, 20_000u64), (100, 10_000), (1, 1_000)] {
        let base = TimeSpan::from_millis(base_ms);
        let cap = TimeSpan::from_millis(cap_ms);
        for attempt in 0..40u32 {
            let capped = (base.as_nanos() << attempt.min(10)).min(cap.as_nanos());
            let frac = jitter_fraction(attempt) as f64 / u64::MAX as f64;
            let expected = (capped as f64 * (0.5 + frac * 0.5)) as u128;
            assert_eq!(backoff_with_jitter(attempt, base, cap).as_nanos(), expected);
        }
    }
}
