use orb_billing::{classify, AttemptOutcome, RetryAction, RetryPolicy, RetryTracker, Retryability};

fn status(s: u16) -> AttemptOutcome {
    AttemptOutcome::Response { status: s }
}

/// Runs the retry loop against a transport that answers with `outcomes` in turn.
fn run(policy: Option<RetryPolicy>, outcomes: &[AttemptOutcome]) -> (usize, AttemptOutcome, Vec<u64>) {
    let mut tracker = RetryTracker::new(policy);
    let mut delays = Vec::new();
    let mut attempts = 0;
    loop {
        let outcome = outcomes[attempts.min(outcomes.len() - 1)];
        attempts += 1;
        match tracker.on_outcome(&outcome) {
            RetryAction::RetryAfter { delay_ms } => delays.push(delay_ms),
            RetryAction::Finish => return (attempts, outcome, delays),
        }
    }
}

#[test]
fn retry_on_429_then_success() {
    let policy = RetryPolicy::new(1000, 5000, 5);
    let (attempts, last, delays) = run(Some(policy), &[status(429), status(429), status(200)]);
    assert_eq!(attempts, 3);
    assert_eq!(last, status(200));
    assert_eq!(delays, vec![1000, 2000]);
}

#[test]
fn retry_exhaustion_after_max_retries() {
    let policy = RetryPolicy::new(1000, 5000, 3);
    let (attempts, last, delays) = run(Some(policy), &[status(429)]);
    assert_eq!(attempts, 4);
    assert_eq!(last, status(429));
    assert_eq!(delays, vec![1000, 2000, 4000]);
}

#[test]
fn no_retry_on_404() {
    let (attempts, last, delays) = run(Some(RetryPolicy::default()), &[status(404), status(200)]);
    assert_eq!(attempts, 1);
    assert_eq!(last, status(404));
    assert!(delays.is_empty());
}

#[test]
fn no_retry_on_server_error() {
    let (attempts, _, _) = run(Some(RetryPolicy::default()), &[status(503), status(200)]);
    assert_eq!(attempts, 1);
}

#[test]
fn without_policy_one_attempt() {
    let (attempts, last, _) = run(None, &[status(429), status(200)]);
    assert_eq!(attempts, 1);
    assert_eq!(last, status(429));
}

#[test]
fn delays_double_up_to_the_maximum() {
    let policy = RetryPolicy::new(1000, 5000, 6);
    let (attempts, _, delays) = run(Some(policy), &[status(429)]);
    assert_eq!(attempts, 7);
    assert_eq!(delays, vec![1000, 2000, 4000, 5000, 5000, 5000]);
    assert_eq!(policy.delay_ms(40), 5000);
    assert_eq!(RetryPolicy::new(0, 10, 1).delay_ms(3), 0);
    assert_eq!(RetryPolicy::new(7, 7, 1).delay_ms(0), 7);
}

#[test]
fn default_policy_bounds() {
    let policy = RetryPolicy::default();
    assert_eq!(policy.max_retries(), 5);
    assert_eq!(policy.delay_ms(0), 1000);
    assert_eq!(policy.delay_ms(5), 5000);
}

#[test]
fn network_failures_follow_their_classification() {
    let transient = AttemptOutcome::NetworkFailure { retryability: Some(Retryability::Transient) };
    let fatal = AttemptOutcome::NetworkFailure { retryability: Some(Retryability::Fatal) };
    let unknown = AttemptOutcome::NetworkFailure { retryability: None };
    let policy = RetryPolicy::new(10, 100, 2);
    assert_eq!(run(Some(policy), &[transient, status(200)]).0, 2);
    assert_eq!(run(Some(policy), &[fatal, status(200)]).0, 1);
    assert_eq!(run(Some(policy), &[unknown, status(200)]).0, 1);
}

#[test]
fn classification_of_outcomes() {
    assert_eq!(classify(&status(429)), Some(Retryability::Transient));
    assert_eq!(classify(&status(200)), None);
    assert_eq!(classify(&status(500)), None);
    assert_eq!(
        classify(&AttemptOutcome::NetworkFailure { retryability: Some(Retryability::Fatal) }),
        Some(Retryability::Fatal)
    );
}
