//! The retry policy: which attempts are retried, and after how long.
//!
//! The transport runs the loop: it makes an attempt, reports the outcome to a
//! [`RetryTracker`], and either waits and tries again or returns the outcome.
use vstd::prelude::*;

verus! {

/// Exponential backoff bounded by a minimum and a maximum delay, with a
/// bounded number of retries.
#[derive(Debug, Clone, Copy, PartialEq, Eq, Structural)]
pub struct RetryPolicy {
    min_delay_ms: u64,
    max_delay_ms: u64,
    max_retries: u32,
}

/// `base` doubled `n` times.
pub open spec fn doubled(base: nat, n: nat) -> nat
    decreases n,
{
    if n == 0 {
        base
    } else {
        2 * doubled(base, (n - 1) as nat)
    }
}

proof fn lemma_doubled_monotone(base: nat, k: nat, n: nat)
    requires
        k <= n,
    ensures
        doubled(base, k) <= doubled(base, n),
    decreases n - k,
{
    if k < n {
        lemma_doubled_monotone(base, k, (n - 1) as nat);
    }
}

proof fn lemma_doubled_zero(n: nat)
    ensures
        doubled(0, n) == 0,
    decreases n,
{
    if n > 0 {
        lemma_doubled_zero((n - 1) as nat);
    }
}

impl RetryPolicy {
    #[verifier::type_invariant]
    spec fn bounds_ordered(self) -> bool {
        self.min_delay_ms <= self.max_delay_ms
    }

    pub closed spec fn min_delay(self) -> nat {
        self.min_delay_ms as nat
    }

    pub closed spec fn max_delay(self) -> nat {
        self.max_delay_ms as nat
    }

    pub closed spec fn retry_limit(self) -> nat {
        self.max_retries as nat
    }

    /// The bounds are ordered, and both fit in a `u64`.
    pub open spec fn wf(self) -> bool {
        self.min_delay() <= self.max_delay() <= u64::MAX
    }

    /// The wait before retry number `n + 1` (after `n` past retries): the
    /// minimum delay doubled `n` times, capped at the maximum delay.
    pub open spec fn delay_spec(self, n: nat) -> nat {
        let d = doubled(self.min_delay(), n);
        if d <= self.max_delay() {
            d
        } else {
            self.max_delay()
        }
    }

    /// A policy that waits between `min_delay_ms` and `max_delay_ms` and
    /// retries at most `max_retries` times.
    pub fn new(min_delay_ms: u64, max_delay_ms: u64, max_retries: u32) -> (r: RetryPolicy)
        requires
            min_delay_ms <= max_delay_ms,
        ensures
            r.wf(),
            r.min_delay() == min_delay_ms,
            r.max_delay() == max_delay_ms,
            r.retry_limit() == max_retries,
    {
        RetryPolicy { min_delay_ms, max_delay_ms, max_retries }
    }

    /// The shortest wait between attempts, in milliseconds.
    pub fn min_delay_ms(&self) -> (r: u64)
        ensures
            r == self.min_delay(),
            self.wf(),
    {
        proof {
            use_type_invariant(self);
        }
        self.min_delay_ms
    }

    /// The longest wait between attempts, in milliseconds.
    pub fn max_delay_ms(&self) -> (r: u64)
        ensures
            r == self.max_delay(),
            self.wf(),
    {
        proof {
            use_type_invariant(self);
        }
        self.max_delay_ms
    }

    /// The largest number of retries after a first attempt.
    pub fn max_retries(&self) -> (r: u32)
        ensures
            r == self.retry_limit(),
    {
        self.max_retries
    }

    /// The wait in milliseconds after `n` past retries.
    pub fn delay_ms(&self, n: u32) -> (r: u64)
        ensures
            self.wf(),
            r == self.delay_spec(n as nat),
            self.min_delay() <= r <= self.max_delay(),
    {
        proof {
            use_type_invariant(self);
        }
        let max = self.max_delay_ms;
        let mut d: u64 = self.min_delay_ms;
        let mut k: u32 = 0;
        while k < n && d < max && d > 0
            invariant
                k <= n,
                d as nat == doubled(self.min_delay(), k as nat),
                self.min_delay() <= d,
                d <= max || k == 0,
                max == self.max_delay_ms,
                self.wf(),
            decreases n - k,
        {
            if d > max / 2 {
                proof {
                    lemma_doubled_monotone(self.min_delay(), (k + 1) as nat, n as nat);
                }
                return max;
            }
            d = d * 2;
            k = k + 1;
        }
        proof {
            lemma_doubled_monotone(self.min_delay(), k as nat, n as nat);
            if d == 0 {
                lemma_doubled_zero(n as nat);
            }
        }
        if d < max {
            d
        } else {
            max
        }
    }
}

impl Default for RetryPolicy {
    /// One to five seconds between attempts, at most five retries.
    fn default() -> (r: RetryPolicy)
        ensures
            r.wf(),
            r.min_delay() == 1000,
            r.max_delay() == 5000,
            r.retry_limit() == 5,
    {
        RetryPolicy::new(1000, 5000, 5)
    }
}

/// How a failed attempt should be treated.
#[derive(Debug, Clone, Copy, PartialEq, Eq, Structural)]
pub enum Retryability {
    /// The failure may go away on its own: try again.
    Transient,
    /// The failure will not go away by trying again.
    Fatal,
}

/// What one attempt came to.
#[derive(Debug, Clone, Copy, PartialEq, Eq, Structural)]
pub enum AttemptOutcome {
    /// The server answered with this status.
    Response { status: u16 },
    /// The exchange failed at the network level; the transport's own
    /// classification of the failure, if it has one.
    NetworkFailure { retryability: Option<Retryability> },
}

/// What the transport does next.
#[derive(Debug, Clone, Copy, PartialEq, Eq, Structural)]
pub enum RetryAction {
    /// Wait this many milliseconds, then make another attempt.
    RetryAfter { delay_ms: u64 },
    /// Stop, and return the last outcome to the caller.
    Finish,
}

/// The classification of an outcome: a 429 response is transient whatever
/// headers it carries, any other response is not retried, and a network
/// failure keeps the transport's classification.
pub open spec fn classify_spec(o: AttemptOutcome) -> Option<Retryability> {
    match o {
        AttemptOutcome::Response { status } => if status == 429 {
            Some(Retryability::Transient)
        } else {
            None
        },
        AttemptOutcome::NetworkFailure { retryability } => retryability,
    }
}

/// Classifies the outcome of an attempt.
pub fn classify(o: &AttemptOutcome) -> (r: Option<Retryability>)
    ensures
        r == classify_spec(*o),
{
    match o {
        AttemptOutcome::Response { status } => if *status == 429 {
            Some(Retryability::Transient)
        } else {
            None
        },
        AttemptOutcome::NetworkFailure { retryability } => *retryability,
    }
}

/// The state of the retry loop of one logical request.
pub struct RetryTracker {
    policy: Option<RetryPolicy>,
    past_retries: u32,
}

/// The mathematical value of a [`RetryTracker`].
pub struct RetryState {
    pub policy: Option<RetryPolicy>,
    pub past_retries: nat,
}

impl View for RetryTracker {
    type V = RetryState;

    closed spec fn view(&self) -> RetryState {
        RetryState { policy: self.policy, past_retries: self.past_retries as nat }
    }
}

/// The state of the retry loop before the first attempt.
pub open spec fn initial_retry_state(policy: Option<RetryPolicy>) -> RetryState {
    RetryState { policy, past_retries: 0 }
}

pub open spec fn retry_state_wf(s: RetryState) -> bool {
    match s.policy {
        Some(p) => p.wf() && s.past_retries <= p.retry_limit(),
        None => s.past_retries == 0,
    }
}

/// One step of the retry loop: a transient outcome is retried while the
/// policy allows more retries; anything else finishes. Without a policy
/// every request makes exactly one attempt.
pub open spec fn retry_step(s: RetryState, o: AttemptOutcome) -> (RetryState, RetryAction) {
    match s.policy {
        Some(p) => if classify_spec(o) == Some(Retryability::Transient) && s.past_retries
            < p.retry_limit() {
            (
                RetryState { past_retries: s.past_retries + 1, ..s },
                RetryAction::RetryAfter { delay_ms: p.delay_spec(s.past_retries) as u64 },
            )
        } else {
            (s, RetryAction::Finish)
        },
        None => (s, RetryAction::Finish),
    }
}

impl RetryTracker {
    #[verifier::type_invariant]
    spec fn well_formed(self) -> bool {
        retry_state_wf(self@)
    }

    /// The tracker for a new logical request.
    pub fn new(policy: Option<RetryPolicy>) -> (r: RetryTracker)
        ensures
            r@ == initial_retry_state(policy),
    {
        if let Some(p) = &policy {
            proof {
                use_type_invariant(p);
            }
        }
        RetryTracker { policy, past_retries: 0 }
    }

    /// Reports the outcome of the latest attempt and says what to do next.
    pub fn on_outcome(&mut self, outcome: &AttemptOutcome) -> (r: RetryAction)
        ensures
            (final(self)@, r) == retry_step(old(self)@, *outcome),
            r matches RetryAction::RetryAfter { delay_ms } ==> (old(self)@.policy matches Some(p)
                && p.wf() && p.min_delay() <= delay_ms <= p.max_delay()),
    {
        proof {
            use_type_invariant(&*self);
        }
        match self.policy {
            Some(p) => {
                let transient = match classify(outcome) {
                    Some(Retryability::Transient) => true,
                    _ => false,
                };
                if transient && self.past_retries < p.max_retries {
                    let delay_ms = p.delay_ms(self.past_retries);
                    self.past_retries = self.past_retries + 1;
                    RetryAction::RetryAfter { delay_ms }
                } else {
                    RetryAction::Finish
                }
            },
            None => RetryAction::Finish,
        }
    }
}

/// The number of attempts the loop makes when attempt `i` comes to
/// `outcomes[i]`: it stops at the first `Finish`, or when the outcomes run out.
pub open spec fn attempts_made(s: RetryState, outcomes: Seq<AttemptOutcome>) -> nat
    decreases outcomes.len(),
{
    if outcomes.len() == 0 {
        0
    } else {
        let (next, action) = retry_step(s, outcomes[0]);
        if action == RetryAction::Finish {
            1
        } else {
            1 + attempts_made(next, outcomes.drop_first())
        }
    }
}

/// Rate limiting (status 429) `r` times in a row, then one answer with
/// status `last`.
pub open spec fn limited_then(r: nat, last: u16) -> Seq<AttemptOutcome> {
    Seq::new(
        r + 1,
        |i: int|
            if i < r {
                AttemptOutcome::Response { status: 429 }
            } else {
                AttemptOutcome::Response { status: last }
            },
    )
}

proof fn lemma_limited_then(p: RetryPolicy, k: nat, r: nat, last: u16)
    requires
        p.wf(),
        k <= r <= p.retry_limit(),
        last != 429,
    ensures
        attempts_made(
            RetryState { policy: Some(p), past_retries: k },
            limited_then(r, last).subrange(k as int, (r + 1) as int),
        ) == r + 1 - k,
    decreases r - k,
{
    let outs = limited_then(r, last).subrange(k as int, (r + 1) as int);
    let s = RetryState { policy: Some(p), past_retries: k };
    if k < r {
        lemma_limited_then(p, k + 1, r, last);
        assert(outs.drop_first() =~= limited_then(r, last).subrange((k + 1) as int, (r + 1) as int));
    }
}

/// A request rate-limited (status 429) `r` times and then answered with any
/// other status makes exactly `r + 1` attempts when the policy allows at least
/// `r` retries, and the last answer is what the caller gets.
pub proof fn lemma_retry_until_answered(p: RetryPolicy, r: nat, last: u16)
    requires
        p.wf(),
        r <= p.retry_limit(),
        last != 429,
    ensures
        attempts_made(initial_retry_state(Some(p)), limited_then(r, last)) == r + 1,
        limited_then(r, last)[r as int] == (AttemptOutcome::Response { status: last }),
{
    lemma_limited_then(p, 0, r, last);
    assert(limited_then(r, last).subrange(0, (r + 1) as int) =~= limited_then(r, last));
}

proof fn lemma_always_limited(p: RetryPolicy, k: nat, outcomes: Seq<AttemptOutcome>)
    requires
        p.wf(),
        k <= p.retry_limit(),
        outcomes.len() > p.retry_limit() - k,
        forall|i: int| 0 <= i < outcomes.len() ==> outcomes[i] == (AttemptOutcome::Response {
            status: 429,
        }),
    ensures
        attempts_made(RetryState { policy: Some(p), past_retries: k }, outcomes) == p.retry_limit()
            + 1 - k,
    decreases p.retry_limit() - k,
{
    if k < p.retry_limit() {
        lemma_always_limited(p, k + 1, outcomes.drop_first());
    }
}

/// A request that is rate limited (status 429) on every attempt makes exactly
/// `max_retries + 1` attempts, and the caller gets the last 429 answer as an
/// API error with status 429.
pub proof fn lemma_retry_exhaustion(p: RetryPolicy, outcomes: Seq<AttemptOutcome>)
    requires
        p.wf(),
        outcomes.len() > p.retry_limit(),
        forall|i: int| 0 <= i < outcomes.len() ==> outcomes[i] == (AttemptOutcome::Response {
            status: 429,
        }),
    ensures
        attempts_made(initial_retry_state(Some(p)), outcomes) == p.retry_limit() + 1,
        outcomes[p.retry_limit() as int] == (AttemptOutcome::Response { status: 429 }),
        forall|b: Option<crate::error::ErrorBody>, e: crate::error::ApiError|
            crate::error::api_error_spec(429, b, e) ==> e.status_code == 429,
{
    lemma_always_limited(p, 0, outcomes);
}

/// A response with any status other than 429 and outside 2xx ends the loop
/// at once: exactly one attempt, whatever the policy, and the caller gets an
/// API error with that status.
pub proof fn lemma_no_retry_on_other_status(
    policy: Option<RetryPolicy>,
    status: u16,
    outcomes: Seq<AttemptOutcome>,
)
    requires
        status != 429,
        outcomes.len() > 0,
        outcomes[0] == (AttemptOutcome::Response { status }),
    ensures
        attempts_made(initial_retry_state(policy), outcomes) == 1,
        forall|b: Option<crate::error::ErrorBody>, e: crate::error::ApiError|
            crate::error::api_error_spec(status, b, e) ==> e.status_code == status,
{
}

/// Without a retry policy every request makes exactly one attempt.
pub proof fn lemma_single_attempt_without_policy(outcomes: Seq<AttemptOutcome>)
    requires
        outcomes.len() > 0,
    ensures
        attempts_made(initial_retry_state(None), outcomes) == 1,
{
}

} // verus!
