//! Capped exponential backoff, shared by connection establishment and by
//! every call.

use vstd::arithmetic::power::pow;
use vstd::math::{max, min};
use vstd::prelude::*;

verus! {

/// Whether a failed attempt may be repeated.
#[derive(Clone, Copy, Debug, PartialEq, Eq, Structural)]
pub enum ErrorClass {
    /// A transient failure: the same request may succeed later.
    Retryable,
    /// A failure that repeating the request cannot mend.
    Terminal,
}

/// What to do after a failed attempt.
#[derive(Clone, Copy, Debug, PartialEq, Eq, Structural)]
pub enum RetryDecision {
    /// Wait this many milliseconds, then attempt again.
    RetryAfter(u64),
    /// Hand the last error to the caller.
    GiveUp,
}

/// The parameters of the backoff series.
#[derive(Clone, Copy, Debug, PartialEq, Eq, Structural)]
pub struct RetryPolicy {
    /// Delay after the first failed attempt, in milliseconds.
    pub start_delay_ms: u64,
    /// Factor by which the delay grows after each failed attempt.
    pub multiplier: u64,
    /// No delay is longer than this, in milliseconds.
    pub ceiling_ms: u64,
    /// Attempts made before the last error is handed to the caller.
    pub max_attempts: u32,
}

/// Progress of one retried operation.
#[derive(Clone, Copy, Debug, PartialEq, Eq, Structural)]
pub struct RetryState {
    /// Number of the attempt in flight, counted from 1.
    pub attempt: u32,
    /// Delay to wait if the attempt in flight fails and is repeated.
    pub delay_ms: u64,
}

/// How one attempt of an operation ended.
#[derive(Clone, Copy, Debug, PartialEq, Eq, Structural)]
pub enum AttemptOutcome {
    /// The operation returned a result.
    Succeeded,
    /// The operation failed with an error of this class.
    Failed(ErrorClass),
}

/// How a replayed operation ended.
#[derive(Clone, Copy, Debug, PartialEq, Eq, Structural)]
pub enum RetryVerdict {
    /// An attempt succeeded.
    Succeeded,
    /// A failure was handed to the caller.
    GaveUp,
    /// The recorded outcomes ended while another attempt was due.
    Unfinished,
}

/// The account of one replayed operation.
#[derive(Clone, Copy, Debug, PartialEq, Eq, Structural)]
pub struct RetrySummary {
    /// Attempts made.
    pub attempts: usize,
    /// Milliseconds waited between attempts, in total.
    pub slept_ms: u128,
    /// How the operation ended.
    pub verdict: RetryVerdict,
}

/// The delay after the `k`-th failed attempt, `k` counted from 1:
/// `min(start * multiplier^(k-1), ceiling)`.
pub open spec fn backoff_delay(policy: RetryPolicy, k: nat) -> int
    recommends
        k >= 1,
{
    min(policy.start_delay_ms * pow(policy.multiplier as int, (k - 1) as nat), policy.ceiling_ms as int)
}

/// Most attempts that a policy ever makes: the first is made unconditionally.
pub open spec fn attempt_limit(policy: RetryPolicy) -> int {
    max(policy.max_attempts as int, 1)
}

/// Growing a capped delay once more gives the next delay of the series.
pub proof fn lemma_backoff_step(policy: RetryPolicy, k: nat)
    requires
        k >= 1,
    ensures
        backoff_delay(policy, k + 1) == min(
            backoff_delay(policy, k) * policy.multiplier,
            policy.ceiling_ms as int,
        ),
        0 <= backoff_delay(policy, k) <= policy.ceiling_ms,
{
    let s = policy.start_delay_ms as int;
    let m = policy.multiplier as int;
    let c = policy.ceiling_ms as int;
    let p = pow(m, (k - 1) as nat);
    assert(pow(m, k) == m * p) by {
        reveal(pow);
    }
    assert(p >= 0) by {
        if m > 0 {
            vstd::arithmetic::power::lemma_pow_positive(m, (k - 1) as nat);
        } else if k == 1 {
            vstd::arithmetic::power::lemma_pow0(m);
        } else {
            vstd::arithmetic::power::lemma0_pow((k - 1) as nat);
        }
    }
    assert(s * p >= 0) by (nonlinear_arith)
        requires
            s >= 0,
            p >= 0,
    ;
    assert(s * (m * p) == (s * p) * m) by (nonlinear_arith);
    if s * p <= c {
    } else {
        assert((s * p) * m >= c * m) by (nonlinear_arith)
            requires
                s * p > c,
                m >= 0,
        ;
        if m >= 1 {
            assert(c * m >= c) by (nonlinear_arith)
                requires
                    c >= 0,
                    m >= 1,
            ;
        } else {
            assert(c * m == 0 && (s * p) * m == 0) by (nonlinear_arith)
                requires
                    m == 0,
            ;
        }
    }
}

impl RetryState {
    /// The state belongs to the series of `policy`: its delay is the one
    /// that the closed form gives for its attempt, and the attempt is within
    /// the policy's limit.
    pub open spec fn follows(self, policy: RetryPolicy) -> bool {
        &&& 1 <= self.attempt <= attempt_limit(policy)
        &&& self.delay_ms == backoff_delay(policy, self.attempt as nat)
    }
}

impl RetryPolicy {
    /// Doubling from 100 ms up to 10 s, for at most `max_attempts` attempts.
    pub fn exponential(max_attempts: u32) -> (policy: RetryPolicy)
        ensures
            policy == (RetryPolicy {
                start_delay_ms: 100,
                multiplier: 2,
                ceiling_ms: 10_000,
                max_attempts,
            }),
    {
        RetryPolicy { start_delay_ms: 100, multiplier: 2, ceiling_ms: 10_000, max_attempts }
    }

    /// The delay that follows `delay_ms` in the series.
    pub open spec fn grown(self, delay_ms: u64) -> u64 {
        min(delay_ms * self.multiplier, self.ceiling_ms as int) as u64
    }

    /// The decision after the attempt in flight failed with `class`.
    pub open spec fn decide(self, state: RetryState, class: ErrorClass) -> RetryDecision {
        if class == ErrorClass::Terminal || state.attempt >= self.max_attempts {
            RetryDecision::GiveUp
        } else {
            RetryDecision::RetryAfter(state.delay_ms)
        }
    }

    /// The state after the attempt in flight failed with `class`: unchanged
    /// when the operation is given up, else the next attempt with its delay.
    pub open spec fn advance(self, state: RetryState, class: ErrorClass) -> RetryState {
        if self.decide(state, class) == RetryDecision::GiveUp {
            state
        } else {
            RetryState { attempt: (state.attempt + 1) as u32, delay_ms: self.grown(state.delay_ms) }
        }
    }

    /// The state in which the first attempt is made.
    pub open spec fn initial(self) -> RetryState {
        RetryState {
            attempt: 1,
            delay_ms: min(self.start_delay_ms as int, self.ceiling_ms as int) as u64,
        }
    }

    /// The state before the first attempt is made.
    pub fn begin(&self) -> (state: RetryState)
        ensures
            state == self.initial(),
            state.follows(*self),
    {
        let delay_ms: u64 = if self.start_delay_ms <= self.ceiling_ms {
            self.start_delay_ms
        } else {
            self.ceiling_ms
        };
        proof {
            vstd::arithmetic::power::lemma_pow0(self.multiplier as int);
            assert(self.start_delay_ms * 1 == self.start_delay_ms);
        }
        RetryState { attempt: 1, delay_ms }
    }

    /// Records that the attempt in flight failed, and says what to do.
    ///
    /// A terminal failure is never repeated, and neither is a failure of the
    /// last attempt that the policy allows. Otherwise the caller waits for the
    /// current delay, which then grows by the multiplier up to the ceiling.
    pub fn on_failure(&self, state: &mut RetryState, class: ErrorClass) -> (decision: RetryDecision)
        ensures
            decision == self.decide(*old(state), class),
            *final(state) == self.advance(*old(state), class),
            old(state).follows(*self) ==> final(state).follows(*self),
            old(state).follows(*self) ==> (decision matches RetryDecision::RetryAfter(d) ==> d
                == backoff_delay(*self, old(state).attempt as nat)),
    {
        let is_terminal: bool = match class {
            ErrorClass::Terminal => true,
            ErrorClass::Retryable => false,
        };
        if is_terminal || state.attempt >= self.max_attempts {
            return RetryDecision::GiveUp;
        }
        let delay_ms: u64 = state.delay_ms;
        assert(delay_ms * self.multiplier <= 0xFFFF_FFFF_FFFF_FFFF * 0xFFFF_FFFF_FFFF_FFFF)
            by (nonlinear_arith)
            requires
                delay_ms <= 0xFFFF_FFFF_FFFF_FFFF,
                self.multiplier <= 0xFFFF_FFFF_FFFF_FFFF,
        ;
        let product: u128 = (delay_ms as u128) * (self.multiplier as u128);
        let next_delay: u64 = if product >= self.ceiling_ms as u128 {
            self.ceiling_ms
        } else {
            product as u64
        };
        proof {
            if old(state).follows(*self) {
                lemma_backoff_step(*self, old(state).attempt as nat);
            }
        }
        state.attempt = state.attempt + 1;
        state.delay_ms = next_delay;
        RetryDecision::RetryAfter(delay_ms)
    }

    /// What the retry loop does from `state` on when the attempts end as
    /// `script` says, one entry for each attempt: the attempts made, the
    /// milliseconds waited between them, and how the operation ended.
    pub open spec fn replay_from(self, state: RetryState, script: Seq<AttemptOutcome>) -> (
        nat,
        nat,
        RetryVerdict,
    )
        decreases script.len(),
    {
        if script.len() == 0 {
            (0, 0, RetryVerdict::Unfinished)
        } else {
            match script[0] {
                AttemptOutcome::Succeeded => (1, 0, RetryVerdict::Succeeded),
                AttemptOutcome::Failed(class) => match self.decide(state, class) {
                    RetryDecision::GiveUp => (1, 0, RetryVerdict::GaveUp),
                    RetryDecision::RetryAfter(delay_ms) => {
                        let rest = self.replay_from(self.advance(state, class), script.drop_first());
                        (rest.0 + 1, rest.1 + delay_ms as nat, rest.2)
                    },
                },
            }
        }
    }

    /// Runs the retry loop against a recorded sequence of attempt outcomes.
    ///
    /// The loop stops at the first success, at the first failure that is not
    /// repeated, or when the script ends while another attempt is due.
    pub fn replay(&self, script: &Vec<AttemptOutcome>) -> (summary: RetrySummary)
        ensures
            (summary.attempts as nat, summary.slept_ms as nat, summary.verdict)
                == self.replay_from(self.initial(), script@),
    {
        let mut state: RetryState = self.begin();
        let mut slept_ms: u128 = 0;
        let mut i: usize = 0;
        assert(script@.skip(0) == script@);
        while i < script.len()
            invariant
                i <= script.len(),
                slept_ms <= i * 0xFFFF_FFFF_FFFF_FFFF,
                self.replay_from(self.initial(), script@) == ({
                    let rest = self.replay_from(state, script@.skip(i as int));
                    (rest.0 + i as nat, rest.1 + slept_ms as nat, rest.2)
                }),
            decreases script.len() - i,
        {
            let ghost rest = script@.skip(i as int);
            assert(rest.len() > 0 && rest[0] == script@[i as int]);
            assert(rest.drop_first() == script@.skip(i + 1));
            match script[i] {
                AttemptOutcome::Succeeded => {
                    return RetrySummary {
                        attempts: i + 1,
                        slept_ms,
                        verdict: RetryVerdict::Succeeded,
                    };
                },
                AttemptOutcome::Failed(class) => match self.on_failure(&mut state, class) {
                    RetryDecision::GiveUp => {
                        return RetrySummary {
                            attempts: i + 1,
                            slept_ms,
                            verdict: RetryVerdict::GaveUp,
                        };
                    },
                    RetryDecision::RetryAfter(delay_ms) => {
                        slept_ms = slept_ms + delay_ms as u128;
                    },
                },
            }
            i = i + 1;
        }
        assert(script@.skip(i as int).len() == 0);
        RetrySummary { attempts: i, slept_ms, verdict: RetryVerdict::Unfinished }
    }
}

/// The sum of the first `n` delays of the series.
pub open spec fn backoff_total(policy: RetryPolicy, n: nat) -> int
    decreases n,
{
    if n == 0 {
        0
    } else {
        backoff_total(policy, (n - 1) as nat) + backoff_delay(policy, n)
    }
}

/// The retries that a replay made: every attempt but the last was followed
/// by a wait, and so was the last if the script ended before the operation.
pub open spec fn retries_of(replayed: (nat, nat, RetryVerdict)) -> nat {
    if replayed.2 == RetryVerdict::Unfinished {
        replayed.0
    } else {
        (replayed.0 - 1) as nat
    }
}

/// From a state of the series on, the attempts stay within the policy's
/// limit and the waits are the next delays of the series.
pub proof fn lemma_replay_from(policy: RetryPolicy, state: RetryState, script: Seq<AttemptOutcome>)
    requires
        state.follows(policy),
    ensures
        ({
            let replayed = policy.replay_from(state, script);
            &&& replayed.0 <= script.len()
            &&& replayed.0 + state.attempt <= attempt_limit(policy) + 1
            &&& replayed.2 != RetryVerdict::Unfinished ==> replayed.0 >= 1
            &&& replayed.2 == RetryVerdict::Unfinished ==> replayed.0 == script.len()
                && replayed.0 + state.attempt <= attempt_limit(policy)
            &&& replayed.1 == backoff_total(
                policy,
                (state.attempt - 1 + retries_of(replayed)) as nat,
            ) - backoff_total(policy, (state.attempt - 1) as nat)
        }),
    decreases script.len(),
{
    if script.len() > 0 {
        if let AttemptOutcome::Failed(class) = script[0] {
            if let RetryDecision::RetryAfter(delay_ms) = policy.decide(state, class) {
                let next = policy.advance(state, class);
                lemma_backoff_step(policy, state.attempt as nat);
                lemma_replay_from(policy, next, script.drop_first());
                let rest = policy.replay_from(next, script.drop_first());
                assert(retries_of(policy.replay_from(state, script)) == retries_of(rest) + 1);
            }
        }
    }
}

/// Whatever the attempts do, no more of them are made than the policy
/// allows, and the total wait is the sum of the delays
/// `min(start * multiplier^(k-1), ceiling)` over the retries made.
pub proof fn law_replay_bounded(policy: RetryPolicy, script: Seq<AttemptOutcome>)
    ensures
        ({
            let replayed = policy.replay_from(policy.initial(), script);
            &&& replayed.0 <= attempt_limit(policy)
            &&& policy.max_attempts >= 1 ==> replayed.0 <= policy.max_attempts
            &&& replayed.0 <= script.len()
            &&& replayed.1 == backoff_total(policy, retries_of(replayed))
        }),
{
    vstd::arithmetic::power::lemma_pow0(policy.multiplier as int);
    assert(policy.start_delay_ms * 1 == policy.start_delay_ms);
    lemma_replay_from(policy, policy.initial(), script);
}

/// The first `n` delays sum to at most `n` times the ceiling.
pub proof fn lemma_backoff_total_bounded(policy: RetryPolicy, n: nat)
    ensures
        0 <= backoff_total(policy, n) <= n * policy.ceiling_ms,
    decreases n,
{
    if n > 0 {
        lemma_backoff_total_bounded(policy, (n - 1) as nat);
        lemma_backoff_step(policy, n);
        assert(n * policy.ceiling_ms == (n - 1) * policy.ceiling_ms + policy.ceiling_ms)
            by (nonlinear_arith);
    }
}

/// The waits of one operation are bounded: a wait follows every attempt but
/// the last that the policy allows, and none is longer than the ceiling.
pub proof fn law_total_wait_bounded(policy: RetryPolicy, script: Seq<AttemptOutcome>)
    ensures
        ({
            let replayed = policy.replay_from(policy.initial(), script);
            &&& retries_of(replayed) <= attempt_limit(policy) - 1
            &&& replayed.1 <= (attempt_limit(policy) - 1) * policy.ceiling_ms
        }),
{
    vstd::arithmetic::power::lemma_pow0(policy.multiplier as int);
    assert(policy.start_delay_ms * 1 == policy.start_delay_ms);
    lemma_replay_from(policy, policy.initial(), script);
    let replayed = policy.replay_from(policy.initial(), script);
    let retries = retries_of(replayed);
    lemma_backoff_total_bounded(policy, retries);
    assert(retries * policy.ceiling_ms <= (attempt_limit(policy) - 1) * policy.ceiling_ms)
        by (nonlinear_arith)
        requires
            0 <= retries <= attempt_limit(policy) - 1,
            0 <= policy.ceiling_ms,
    ;
}

/// A terminal failure is never retried: when the first attempt fails with
/// one, exactly one attempt is made and nothing is waited.
pub proof fn law_terminal_never_retried(policy: RetryPolicy, script: Seq<AttemptOutcome>)
    requires
        script.len() > 0,
        script[0] == AttemptOutcome::Failed(ErrorClass::Terminal),
    ensures
        policy.replay_from(policy.initial(), script) == (1nat, 0nat, RetryVerdict::GaveUp),
{
}

/// A terminal failure ends the operation in whatever state it arrives.
pub proof fn law_terminal_gives_up(policy: RetryPolicy, state: RetryState)
    ensures
        policy.decide(state, ErrorClass::Terminal) == RetryDecision::GiveUp,
        policy.advance(state, ErrorClass::Terminal) == state,
{
}

} // verus!
