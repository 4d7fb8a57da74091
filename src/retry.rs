use vstd::prelude::*;

use crate::throttle::{after_release, RateWindow};

verus! {

/// How one attempt to send a post ended.
#[derive(Debug, Clone, PartialEq, Eq)]
pub enum SendOutcome {
    /// The post was created, with this identifier.
    Posted(String),
    /// The server refused the request with this client-error status: the
    /// same request cannot succeed later.
    Rejected(u16),
    /// A transport failure or a server error: worth another attempt.
    Transient,
}

/// Why a post was not made.
#[derive(PartialEq, Eq, Structural, Clone, Copy, Debug)]
pub enum PostError {
    /// The server refused the request with this status.
    Rejected(u16),
    /// Every allowed attempt failed; this many were made.
    ExhaustedRetries(u64),
}

/// What to do after an attempt.
#[derive(Debug, Clone, PartialEq, Eq)]
pub enum RetryStep {
    /// The post was made.
    Done(String),
    /// Wait this long, then make attempt `next_attempt`.
    RetryAfter { delay_secs: u64, next_attempt: u64 },
    /// Stop trying.
    GiveUp(PostError),
}

/// Up to `max_attempts` attempts per post, the wait after the n-th failed
/// attempt being n times `base_delay_secs`.
#[derive(PartialEq, Eq, Structural, Clone, Copy, Debug)]
pub struct RetryPolicy {
    pub max_attempts: u64,
    pub base_delay_secs: u64,
}

/// Whether an HTTP status is a client error.
pub open spec fn client_error(status: u16) -> bool {
    400 <= status < 500
}

/// `a * b`, or `u64::MAX` where that does not fit.
pub open spec fn saturating_product(a: u64, b: u64) -> u64 {
    if a * b > u64::MAX {
        u64::MAX
    } else {
        (a * b) as u64
    }
}

/// The wait after failed attempt `attempt`.
pub open spec fn backoff(p: RetryPolicy, attempt: u64) -> u64 {
    saturating_product(attempt, p.base_delay_secs)
}

/// What follows attempt `attempt` when it ended in `o`.
pub open spec fn retry_step(p: RetryPolicy, attempt: u64, o: SendOutcome) -> RetryStep {
    match o {
        SendOutcome::Posted(id) => RetryStep::Done(id),
        SendOutcome::Rejected(status) => RetryStep::GiveUp(PostError::Rejected(status)),
        SendOutcome::Transient => if attempt < p.max_attempts {
            RetryStep::RetryAfter { delay_secs: backoff(p, attempt), next_attempt: (attempt + 1) as u64 }
        } else {
            RetryStep::GiveUp(PostError::ExhaustedRetries(attempt))
        },
    }
}

/// How many attempts a post makes from attempt `attempt` on, when the
/// attempts end in `outcomes`, one after another, for as long as it tries.
pub open spec fn attempts_made(p: RetryPolicy, attempt: u64, outcomes: Seq<SendOutcome>) -> nat
    decreases outcomes.len(),
{
    if outcomes.len() == 0 {
        0
    } else {
        match retry_step(p, attempt, outcomes[0]) {
            RetryStep::RetryAfter { next_attempt, .. } => 1 + attempts_made(
                p,
                next_attempt,
                outcomes.drop_first(),
            ),
            _ => 1,
        }
    }
}

/// The waits between those attempts, in order.
pub open spec fn delays_waited(p: RetryPolicy, attempt: u64, outcomes: Seq<SendOutcome>) -> Seq<u64>
    decreases outcomes.len(),
{
    if outcomes.len() == 0 {
        Seq::empty()
    } else {
        match retry_step(p, attempt, outcomes[0]) {
            RetryStep::RetryAfter { delay_secs, next_attempt } => seq![delay_secs] + delays_waited(
                p,
                next_attempt,
                outcomes.drop_first(),
            ),
            _ => Seq::empty(),
        }
    }
}

/// A post that the server refuses with a client error is attempted once.
pub proof fn lemma_rejection_is_final(p: RetryPolicy, outcomes: Seq<SendOutcome>)
    requires
        outcomes.len() > 0,
        outcomes[0] is Rejected,
    ensures
        attempts_made(p, 1, outcomes) == 1,
        delays_waited(p, 1, outcomes).len() == 0,
{
}

proof fn lemma_attempts_from(p: RetryPolicy, attempt: u64, outcomes: Seq<SendOutcome>)
    requires
        outcomes.len() > 0,
    ensures
        1 <= attempts_made(p, attempt, outcomes),
        attempt <= p.max_attempts ==> attempt + attempts_made(p, attempt, outcomes) <= p.max_attempts
            + 1,
        attempt > p.max_attempts ==> attempts_made(p, attempt, outcomes) == 1,
    decreases outcomes.len(),
{
    let rest = outcomes.drop_first();
    if outcomes.len() == 1 {
        assert(attempts_made(p, (attempt + 1) as u64, rest) == 0);
    }
    if outcomes.len() > 1 && outcomes[0] is Transient && attempt < p.max_attempts {
        lemma_attempts_from(p, (attempt + 1) as u64, rest);
        assert(attempts_made(p, attempt, outcomes) == 1 + attempts_made(
            p,
            (attempt + 1) as u64,
            rest,
        ));
    }
}

/// A post is attempted at least once, and no more often than the policy
/// allows.
pub proof fn lemma_attempts_bounded(p: RetryPolicy, outcomes: Seq<SendOutcome>)
    requires
        outcomes.len() > 0,
    ensures
        1 <= attempts_made(p, 1, outcomes),
        p.max_attempts >= 1 ==> attempts_made(p, 1, outcomes) <= p.max_attempts,
        p.max_attempts == 0 ==> attempts_made(p, 1, outcomes) == 1,
{
    lemma_attempts_from(p, 1, outcomes);
}

proof fn lemma_transient_run(p: RetryPolicy, attempt: u64, outcomes: Seq<SendOutcome>)
    requires
        1 <= attempt <= p.max_attempts,
        outcomes.len() >= p.max_attempts - attempt + 1,
        forall|i: int| 0 <= i < outcomes.len() ==> #[trigger] outcomes[i] is Transient,
    ensures
        attempts_made(p, attempt, outcomes) == p.max_attempts - attempt + 1,
        delays_waited(p, attempt, outcomes).len() == p.max_attempts - attempt,
        forall|i: int|
            0 <= i < p.max_attempts - attempt ==> #[trigger] delays_waited(p, attempt, outcomes)[i]
                == backoff(p, (attempt + i) as u64),
    decreases p.max_attempts - attempt,
{
    assert(outcomes[0] is Transient);
    if attempt < p.max_attempts {
        let rest = outcomes.drop_first();
        assert forall|i: int| 0 <= i < rest.len() implies #[trigger] rest[i] is Transient by {
            assert(rest[i] == outcomes[i + 1]);
        }
        lemma_transient_run(p, (attempt + 1) as u64, rest);
        let d = delays_waited(p, attempt, outcomes);
        assert forall|i: int| 0 <= i < p.max_attempts - attempt implies #[trigger] d[i] == backoff(
            p,
            (attempt + i) as u64,
        ) by {
            if i > 0 {
                assert(d[i] == delays_waited(p, (attempt + 1) as u64, rest)[i - 1]);
            }
        }
    }
}

/// A post whose every attempt fails transiently is attempted exactly as
/// often as the policy allows, and the waits between attempts grow strictly:
/// the wait after the n-th attempt is n times the base delay.
pub proof fn lemma_transient_failures_retry(p: RetryPolicy, outcomes: Seq<SendOutcome>)
    requires
        p.max_attempts >= 1,
        outcomes.len() >= p.max_attempts,
        forall|i: int| 0 <= i < outcomes.len() ==> #[trigger] outcomes[i] is Transient,
        p.base_delay_secs > 0,
        p.max_attempts * p.base_delay_secs <= u64::MAX,
    ensures
        attempts_made(p, 1, outcomes) == p.max_attempts,
        delays_waited(p, 1, outcomes).len() == p.max_attempts - 1,
        forall|i: int|
            0 <= i < p.max_attempts - 1 ==> #[trigger] delays_waited(p, 1, outcomes)[i] == (i + 1)
                * p.base_delay_secs,
        forall|i: int, j: int|
            0 <= i < j < p.max_attempts - 1 ==> delays_waited(p, 1, outcomes)[i] < delays_waited(
                p,
                1,
                outcomes,
            )[j],
{
    lemma_transient_run(p, 1, outcomes);
    let d = delays_waited(p, 1, outcomes);
    assert forall|i: int| 0 <= i < p.max_attempts - 1 implies #[trigger] d[i] == (i + 1)
        * p.base_delay_secs by {
        assert((i + 1) * p.base_delay_secs <= p.max_attempts * p.base_delay_secs) by (nonlinear_arith)
            requires
                0 <= i < p.max_attempts - 1,
                p.base_delay_secs > 0,
        ;
        assert(d[i] == backoff(p, (1 + i) as u64));
    }
    assert forall|i: int, j: int| 0 <= i < j < p.max_attempts - 1 implies d[i] < d[j] by {
        assert(d[i] == (i + 1) * p.base_delay_secs);
        assert(d[j] == (j + 1) * p.base_delay_secs);
        assert((i + 1) * p.base_delay_secs < (j + 1) * p.base_delay_secs) by (nonlinear_arith)
            requires
                i < j,
                p.base_delay_secs > 0,
        ;
    }
}

impl SendOutcome {
    /// How a failed attempt ended, from the HTTP status that came back, if
    /// any: a client error is a rejection, everything else transient.
    pub fn from_failure(status: Option<u16>) -> (r: Self)
        ensures
            r == (match status {
                Some(s) => if client_error(s) {
                    SendOutcome::Rejected(s)
                } else {
                    SendOutcome::Transient
                },
                None => SendOutcome::Transient,
            }),
    {
        match status {
            Some(s) => if 400 <= s && s < 500 {
                SendOutcome::Rejected(s)
            } else {
                SendOutcome::Transient
            },
            None => SendOutcome::Transient,
        }
    }
}

impl RetryPolicy {
    /// A policy that allows `max_retries` attempts after the first one, or
    /// only the first one where none is given.
    pub fn new(max_retries: Option<u64>, base_delay_secs: u64) -> (r: Self)
        ensures
            r.max_attempts == (match max_retries {
                Some(n) => if n < u64::MAX {
                    n + 1
                } else {
                    u64::MAX as int
                },
                None => 1,
            }),
            r.base_delay_secs == base_delay_secs,
    {
        let max_attempts = match max_retries {
            Some(n) => n.saturating_add(1),
            None => 1,
        };
        RetryPolicy { max_attempts, base_delay_secs }
    }

    /// What to do after attempt `attempt` ended in `outcome`.
    pub fn after_attempt(&self, attempt: u64, outcome: SendOutcome) -> (r: RetryStep)
        ensures
            r == retry_step(*self, attempt, outcome),
    {
        match outcome {
            SendOutcome::Posted(id) => RetryStep::Done(id),
            SendOutcome::Rejected(status) => RetryStep::GiveUp(PostError::Rejected(status)),
            SendOutcome::Transient => {
                if attempt < self.max_attempts {
                    let delay_secs = match attempt.checked_mul(self.base_delay_secs) {
                        Some(d) => d,
                        None => u64::MAX,
                    };
                    RetryStep::RetryAfter { delay_secs, next_attempt: attempt + 1 }
                } else {
                    RetryStep::GiveUp(PostError::ExhaustedRetries(attempt))
                }
            },
        }
    }
}

/// The outbound side: the rate window that every post passes and the retry
/// policy of each post.
pub struct Publisher {
    pub window: RateWindow,
    pub policy: RetryPolicy,
}

impl Publisher {
    pub fn new(window: RateWindow, policy: RetryPolicy) -> (r: Self)
        ensures
            r.window == window,
            r.policy == policy,
    {
        Publisher { window, policy }
    }

    /// Lets the next attempt through the rate window at `now`, counting it,
    /// and returns the seconds to wait before it goes out.
    pub fn before_send(&mut self, now: u64) -> (wait: u64)
        ensures
            wait == crate::throttle::wait_before(old(self).window, now),
            final(self).window == crate::throttle::after_acquire(old(self).window, now),
            final(self).policy == old(self).policy,
    {
        self.window.acquire(now)
    }

    /// Records how attempt `attempt` ended, and says what comes next. An
    /// attempt that did not post frees the slot it was given.
    pub fn after_send(&mut self, attempt: u64, outcome: SendOutcome) -> (r: RetryStep)
        ensures
            final(self).window == (if outcome is Posted {
                old(self).window
            } else {
                after_release(old(self).window)
            }),
            final(self).policy == old(self).policy,
            r == retry_step(old(self).policy, attempt, outcome),
    {
        match &outcome {
            SendOutcome::Posted(_) => {},
            _ => self.window.release(),
        }
        self.policy.after_attempt(attempt, outcome)
    }
}

} // verus!
