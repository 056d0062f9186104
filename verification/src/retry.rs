//! Bounded retry with a fixed pause between attempts.
//!
//! A retry operation sends a freshly built request, and on failure sends a new one after a
//! pause, until one attempt succeeds or the policy's budget of attempts is spent. The rules
//! live in [`RetryState::on_event`]; [`execute`] runs them against a transport given as
//! closures; a caller whose transport cannot be called from here steps a [`RetryState`] itself.

use vstd::prelude::*;
use crate::interval::Interval;

verus! {

/// Attempts allowed when the caller names no number.
pub const DEFAULT_MAX_RETRIES: usize = 3;

/// Seconds to pause between attempts when the caller names no pause.
pub const DEFAULT_BACKOFF_SECS: u64 = 1;

/// How often to attempt and how long to pause in between.
#[derive(Clone, Copy, Debug, PartialEq, Eq, Structural)]
pub struct RetryPolicy {
    /// Upper bound on the number of attempts; `0` allows one attempt, as `1` does.
    pub max_retries: usize,
    /// The pause between a failed attempt and the next one.
    pub backoff: Interval,
}

impl RetryPolicy {
    /// The policy for the given settings, each absent one replaced by its default.
    pub open spec fn resolved(max_retries: Option<usize>, backoff: Option<Interval>) -> RetryPolicy {
        RetryPolicy {
            max_retries: match max_retries {
                Some(n) => n,
                None => DEFAULT_MAX_RETRIES,
            },
            backoff: match backoff {
                Some(pause) => pause,
                None => Interval { secs: DEFAULT_BACKOFF_SECS, nanos: 0 },
            },
        }
    }

    /// The number of attempts after which the operation gives up: `max_retries`, but at
    /// least one, since the first attempt is always made.
    pub open spec fn budget(self) -> nat {
        if self.max_retries == 0 {
            1
        } else {
            self.max_retries as nat
        }
    }

    /// Builds the policy from optional settings: 3 attempts and a pause of 1 second where
    /// the caller leaves one out.
    pub fn new(max_retries: Option<usize>, backoff: Option<Interval>) -> (policy: RetryPolicy)
        ensures
            policy == RetryPolicy::resolved(max_retries, backoff),
    {
        let max_retries: usize = match max_retries {
            Some(n) => n,
            None => DEFAULT_MAX_RETRIES,
        };
        let backoff = match backoff {
            Some(pause) => pause,
            None => Interval::from_secs(DEFAULT_BACKOFF_SECS),
        };
        RetryPolicy { max_retries, backoff }
    }
}

impl Default for RetryPolicy {
    fn default() -> (policy: RetryPolicy)
        ensures
            policy == RetryPolicy::resolved(None, None),
            policy.max_retries == 3,
            policy.backoff == (Interval { secs: 1, nanos: 0 }),
    {
        RetryPolicy::new(None, None)
    }
}

/// Why a retry operation ended without a response.
#[derive(Debug, PartialEq, Eq)]
pub enum RetryError<E> {
    /// Every allowed attempt failed; holds the failure of the last one.
    RetriesExhausted(E),
    /// The caller withdrew the operation while it was waiting to try again.
    Cancelled,
}

/// What the driver of a retry operation reports to its [`RetryState`].
pub enum RetryEvent<R, E> {
    /// The attempt just made ended with this outcome.
    Attempted(Result<R, E>),
    /// The caller withdrew the operation.
    Cancelled,
}

/// What the driver has to do next.
pub enum RetryStep<R, E> {
    /// The operation is over with this outcome: send nothing more and do not pause.
    Finished(Result<R, RetryError<E>>),
    /// Pause for `pause`, then build a new request, send it, and report to `state`.
    Backoff { state: RetryState, pause: Interval },
}

/// A retry operation in progress: the policy and the number of attempts that have failed.
///
/// A value exists only while another attempt is allowed, so at every moment at most one
/// attempt of an operation is under way.
pub struct RetryState {
    policy: RetryPolicy,
    failures: usize,
}

impl RetryState {
    #[verifier::type_invariant]
    spec fn inv(self) -> bool {
        self.failures < self.policy.budget()
    }

    /// The policy this operation runs under.
    pub closed spec fn policy(self) -> RetryPolicy {
        self.policy
    }

    /// The number of attempts that have failed so far.
    pub closed spec fn failures(self) -> nat {
        self.failures as nat
    }

    /// Starts an operation: nothing has been attempted yet.
    pub fn start(policy: RetryPolicy) -> (state: RetryState)
        ensures
            state.policy() == policy,
            state.failures() == 0,
    {
        RetryState { policy, failures: 0 }
    }

    /// The policy this operation runs under.
    pub fn get_policy(&self) -> (policy: RetryPolicy)
        ensures
            policy == self.policy(),
    {
        self.policy
    }

    /// The number of attempts that have failed so far.
    pub fn failed_attempts(&self) -> (n: usize)
        ensures
            n == self.failures(),
            n < self.policy().budget(),
    {
        proof {
            use_type_invariant(self);
        }
        self.failures
    }

    /// Takes the report of what happened and says what to do next.
    ///
    /// A success ends the operation with the response. A failure ends it with that failure
    /// once the failed attempts reach `max_retries`, and otherwise asks for a pause of
    /// `backoff` before the next attempt. A cancellation ends it at once.
    pub fn on_event<R, E>(self, event: RetryEvent<R, E>) -> (step: RetryStep<R, E>)
        ensures
            match event {
                RetryEvent::Attempted(Ok(response)) => step == RetryStep::<R, E>::Finished(Ok(response)),
                RetryEvent::Attempted(Err(error)) => if self.failures() + 1 >= self.policy().max_retries {
                    step == RetryStep::<R, E>::Finished(Err(RetryError::RetriesExhausted(error)))
                } else {
                    &&& step matches RetryStep::Backoff { state, pause }
                    &&& pause == self.policy().backoff
                    &&& state.policy() == self.policy()
                    &&& state.failures() == self.failures() + 1
                },
                RetryEvent::Cancelled => step == RetryStep::<R, E>::Finished(Err(RetryError::Cancelled)),
            },
    {
        proof {
            use_type_invariant(&self);
        }
        match event {
            RetryEvent::Attempted(Ok(response)) => RetryStep::Finished(Ok(response)),
            RetryEvent::Attempted(Err(error)) => {
                let failures: usize = self.failures + 1;
                if failures >= self.policy.max_retries {
                    RetryStep::Finished(Err(RetryError::RetriesExhausted(error)))
                } else {
                    RetryStep::Backoff {
                        state: RetryState { policy: self.policy, failures },
                        pause: self.policy.backoff,
                    }
                }
            },
            RetryEvent::Cancelled => RetryStep::Finished(Err(RetryError::Cancelled)),
        }
    }
}

/// How a retry operation ended, with what it cost.
#[derive(Debug, PartialEq, Eq)]
pub struct RetryReport<R, E> {
    /// The response of the attempt that succeeded, or why there is none.
    pub outcome: Result<R, RetryError<E>>,
    /// The number of requests that were sent.
    pub attempts: usize,
    /// The number of pauses that were begun.
    pub suspensions: usize,
}

impl RetryPolicy {
    /// `attempts` lists, in order, what each attempt of one finished operation under this
    /// policy came to, and `withdrawn` says whether the operation was cancelled.
    ///
    /// Such an operation makes at least one attempt and no more than the budget; every
    /// attempt but the last failed; and it stopped either because it was withdrawn while
    /// another attempt was still due, or because the last attempt succeeded or spent the
    /// budget.
    pub open spec fn is_run<R, E>(self, attempts: Seq<Result<R, E>>, withdrawn: bool) -> bool {
        &&& 1 <= attempts.len() <= self.budget()
        &&& forall|i: int| 0 <= i < attempts.len() - 1 ==> (#[trigger] attempts[i]) is Err
        &&& if withdrawn {
            attempts.last() is Err && attempts.len() < self.budget()
        } else {
            attempts.last() is Ok || attempts.len() == self.budget()
        }
    }
}

/// The outcome of a finished operation: cancellation if it was withdrawn, else the last
/// attempt's response, or its failure as the reason the retries are exhausted.
pub open spec fn outcome_of<R, E>(attempts: Seq<Result<R, E>>, withdrawn: bool) -> Result<
    R,
    RetryError<E>,
> {
    if withdrawn {
        Err(RetryError::Cancelled)
    } else {
        match attempts.last() {
            Ok(response) => Ok(response),
            Err(error) => Err(RetryError::RetriesExhausted(error)),
        }
    }
}

/// The number of pauses of a finished operation: one between each two attempts, and one
/// more if it was withdrawn, which happens in or after a pause.
pub open spec fn suspensions_of<R, E>(attempts: Seq<Result<R, E>>, withdrawn: bool) -> nat {
    if withdrawn {
        attempts.len()
    } else {
        (attempts.len() - 1) as nat
    }
}

/// `report` is what the finished operation described by `attempts` and `withdrawn` returns.
pub open spec fn reports<R, E>(
    report: RetryReport<R, E>,
    attempts: Seq<Result<R, E>>,
    withdrawn: bool,
) -> bool {
    &&& report.outcome == outcome_of(attempts, withdrawn)
    &&& report.attempts == attempts.len()
    &&& report.suspensions == suspensions_of(attempts, withdrawn)
}

/// `outcome` is something the transport may answer to a request that the factory may build.
pub open spec fn answers<D, R, E, F: Fn() -> D, S: Fn(D) -> Result<R, E>>(
    factory: F,
    send: S,
    outcome: Result<R, E>,
) -> bool {
    exists|request: D|
        call_ensures(factory, (), request) && #[trigger] call_ensures(send, (request,), outcome)
}

/// Sends requests until one succeeds, the attempts allowed are spent, or the caller cancels.
///
/// Each attempt builds a new request with `factory` and hands it to `send`. After a failed
/// attempt that leaves another one due, it calls `pause` with the pause of the policy and
/// then asks `cancelled`; the answer `true` ends the operation. `max_retries` defaults to 3
/// and `backoff` to one second.
///
/// The report is that of a finished operation under the policy, whose attempts are answers
/// of the transport: so the number of attempts, the number of pauses and the outcome are
/// those that the answers determine.
pub fn execute<D, R, E, F, S, P, C>(
    factory: F,
    send: S,
    pause: P,
    cancelled: C,
    max_retries: Option<usize>,
    backoff: Option<Interval>,
) -> (report: RetryReport<R, E>) where
    F: Fn() -> D,
    S: Fn(D) -> Result<R, E>,
    P: Fn(Interval) -> (),
    C: Fn() -> bool,

    requires
        call_requires(factory, ()),
        forall|request: D| call_ensures(factory, (), request) ==> call_requires(send, (request,)),
        call_requires(pause, (RetryPolicy::resolved(max_retries, backoff).backoff,)),
        call_requires(cancelled, ()),
    ensures
        exists|attempts: Seq<Result<R, E>>, withdrawn: bool|
            {
                &&& #[trigger] RetryPolicy::resolved(max_retries, backoff).is_run(attempts, withdrawn)
                &&& reports(report, attempts, withdrawn)
                &&& forall|i: int|
                    0 <= i < attempts.len() ==> answers(factory, send, #[trigger] attempts[i])
                &&& withdrawn ==> call_ensures(cancelled, (), true)
                &&& attempts.len() > 1 ==> call_ensures(cancelled, (), false)
            },
        1 <= report.attempts <= RetryPolicy::resolved(max_retries, backoff).budget(),
        match report.outcome {
            Ok(_) => report.suspensions == report.attempts - 1,
            Err(RetryError::RetriesExhausted(_)) => {
                &&& report.attempts == RetryPolicy::resolved(max_retries, backoff).budget()
                &&& report.suspensions == report.attempts - 1
            },
            Err(RetryError::Cancelled) => {
                &&& report.attempts < RetryPolicy::resolved(max_retries, backoff).budget()
                &&& report.suspensions == report.attempts
            },
        },
{
    let policy = RetryPolicy::new(max_retries, backoff);
    let mut state = RetryState::start(policy);
    let mut suspensions: usize = 0;
    let ghost mut attempts: Seq<Result<R, E>> = Seq::empty();
    loop
        invariant
            policy == RetryPolicy::resolved(max_retries, backoff),
            state.policy() == policy,
            state.failures() == attempts.len(),
            suspensions == attempts.len(),
            attempts.len() < policy.budget(),
            forall|i: int| 0 <= i < attempts.len() ==> (#[trigger] attempts[i]) is Err,
            forall|i: int| 0 <= i < attempts.len() ==> answers(factory, send, #[trigger] attempts[i]),
            attempts.len() > 0 ==> call_ensures(cancelled, (), false),
            call_requires(factory, ()),
            forall|request: D|
                call_ensures(factory, (), request) ==> call_requires(send, (request,)),
            call_requires(pause, (policy.backoff,)),
            call_requires(cancelled, ()),
        decreases policy.budget() - attempts.len(),
    {
        let request = factory();
        let outcome = send(request);
        proof {
            assert(answers(factory, send, outcome));
            attempts = attempts.push(outcome);
        }
        match state.on_event(RetryEvent::Attempted(outcome)) {
            RetryStep::Finished(result) => {
                proof {
                    assert(policy.is_run(attempts, false));
                    assert(reports(
                        RetryReport { outcome: result, attempts: (suspensions + 1) as usize, suspensions },
                        attempts,
                        false,
                    ));
                }
                return RetryReport { outcome: result, attempts: suspensions + 1, suspensions };
            },
            RetryStep::Backoff { state: next, pause: interval } => {
                pause(interval);
                suspensions = suspensions + 1;
                if cancelled() {
                    proof {
                        assert(policy.is_run(attempts, true));
                    }
                    return RetryReport {
                        outcome: Err(RetryError::Cancelled),
                        attempts: suspensions,
                        suspensions,
                    };
                }
                state = next;
            },
        }
    }
}

impl RetryPolicy {
    /// `attempts` is what stepping a [`RetryState`] through one operation records, when the
    /// operation is not withdrawn: after each failure but the last the state asked for
    /// another attempt, that is, the failures so far had not reached `max_retries`; and the
    /// last attempt succeeded or made the failures reach `max_retries`.
    pub open spec fn follows_steps<R, E>(self, attempts: Seq<Result<R, E>>) -> bool {
        &&& attempts.len() >= 1
        &&& forall|i: int|
            0 <= i < attempts.len() - 1 ==> (#[trigger] attempts[i]) is Err && i + 1
                < self.max_retries
        &&& (attempts.last() is Ok || attempts.len() >= self.max_retries)
    }
}

/// The rule of the single step and the description of a whole operation agree: the
/// operations that stepping can record are exactly the finished operations that were not
/// withdrawn.
pub proof fn lemma_steps_are_runs<R, E>(policy: RetryPolicy, attempts: Seq<Result<R, E>>)
    ensures
        policy.follows_steps(attempts) <==> policy.is_run(attempts, false),
{
    if policy.follows_steps(attempts) {
        if attempts.len() >= 2 {
            assert(attempts[attempts.len() - 2] is Err);
        }
    }
    if policy.is_run(attempts, false) {
        assert forall|i: int| 0 <= i < attempts.len() - 1 implies (#[trigger] attempts[i]) is Err
            && i + 1 < policy.max_retries by {}
    }
}

/// With `max_retries` of 0 an operation makes exactly one attempt and never pauses: it
/// cannot have been withdrawn, and whatever the one attempt came to is returned at once.
pub proof fn lemma_zero_retries_single_attempt<R, E>(
    policy: RetryPolicy,
    attempts: Seq<Result<R, E>>,
    withdrawn: bool,
)
    requires
        policy.max_retries == 0,
        policy.is_run(attempts, withdrawn),
    ensures
        attempts.len() == 1,
        !withdrawn,
        suspensions_of(attempts, withdrawn) == 0,
        outcome_of(attempts, withdrawn) == match attempts[0] {
            Ok(response) => Ok::<R, RetryError<E>>(response),
            Err(error) => Err(RetryError::RetriesExhausted(error)),
        },
{
}

/// With `max_retries` of `N > 0`, an operation that is not withdrawn and whose attempts all
/// fail makes exactly `N` attempts with `N - 1` pauses between them, and returns the failure
/// of the `N`th attempt.
pub proof fn lemma_all_failures_spend_budget<R, E>(policy: RetryPolicy, attempts: Seq<Result<R, E>>)
    requires
        policy.max_retries > 0,
        policy.is_run(attempts, false),
        forall|i: int| 0 <= i < attempts.len() ==> (#[trigger] attempts[i]) is Err,
    ensures
        attempts.len() == policy.max_retries,
        suspensions_of(attempts, false) == policy.max_retries - 1,
        outcome_of(attempts, false) == Err::<R, RetryError<E>>(
            RetryError::RetriesExhausted(attempts[policy.max_retries - 1]->Err_0),
        ),
{
    assert(attempts.last() is Err);
}

/// Against a transport whose answers are `answers`, in order, of which the `k`th is the
/// first success (`1 <= k`, within the budget), an operation that is not withdrawn makes
/// exactly `k` attempts with `k - 1` pauses, none after the success, and returns that
/// response.
pub proof fn lemma_first_success_ends_run<R, E>(
    policy: RetryPolicy,
    answers: Seq<Result<R, E>>,
    attempts: Seq<Result<R, E>>,
    k: nat,
)
    requires
        1 <= k <= policy.budget(),
        k <= answers.len(),
        answers[k - 1] is Ok,
        forall|i: int| 0 <= i < k - 1 ==> (#[trigger] answers[i]) is Err,
        policy.is_run(attempts, false),
        attempts.len() <= answers.len(),
        forall|i: int| 0 <= i < attempts.len() ==> #[trigger] attempts[i] == answers[i],
    ensures
        attempts.len() == k,
        suspensions_of(attempts, false) == k - 1,
        outcome_of(attempts, false) == Ok::<R, RetryError<E>>(answers[k - 1]->Ok_0),
{
    if attempts.len() < k {
        assert(attempts[attempts.len() - 1] == answers[attempts.len() - 1]);
        assert(answers[attempts.len() - 1] is Err);
    } else if attempts.len() > k {
        assert(attempts[k - 1] == answers[k - 1]);
        assert(attempts[k - 1] is Err);
    }
    assert(attempts[k - 1] == answers[k - 1]);
}

/// Two operations under one policy against a transport that always succeeds each end with
/// one attempt, no pause and that attempt's response: the first leaves nothing behind that
/// the second could see.
pub proof fn lemma_successful_runs_are_independent<R, E>(
    policy: RetryPolicy,
    first: Seq<Result<R, E>>,
    first_withdrawn: bool,
    second: Seq<Result<R, E>>,
    second_withdrawn: bool,
)
    requires
        policy.is_run(first, first_withdrawn),
        policy.is_run(second, second_withdrawn),
        forall|i: int| 0 <= i < first.len() ==> (#[trigger] first[i]) is Ok,
        forall|i: int| 0 <= i < second.len() ==> (#[trigger] second[i]) is Ok,
    ensures
        first.len() == 1 && second.len() == 1,
        !first_withdrawn && !second_withdrawn,
        suspensions_of(first, first_withdrawn) == 0,
        suspensions_of(second, second_withdrawn) == 0,
        outcome_of(first, first_withdrawn) == Ok::<R, RetryError<E>>(first[0]->Ok_0),
        outcome_of(second, second_withdrawn) == Ok::<R, RetryError<E>>(second[0]->Ok_0),
{
    lemma_success_only_run(policy, first, first_withdrawn);
    lemma_success_only_run(policy, second, second_withdrawn);
}

/// An operation whose attempts all succeed has made one attempt and was not withdrawn.
pub proof fn lemma_success_only_run<R, E>(
    policy: RetryPolicy,
    attempts: Seq<Result<R, E>>,
    withdrawn: bool,
)
    requires
        policy.is_run(attempts, withdrawn),
        forall|i: int| 0 <= i < attempts.len() ==> (#[trigger] attempts[i]) is Ok,
    ensures
        attempts.len() == 1,
        !withdrawn,
        outcome_of(attempts, withdrawn) == Ok::<R, RetryError<E>>(attempts[0]->Ok_0),
{
    if attempts.len() > 1 {
        assert(attempts[0] is Err);
    }
    assert(attempts.last() is Ok);
}

/// The answers of a transport decide an operation: two operations under one policy, neither
/// withdrawn, that receive the same answers as far as both go, make the same attempts.
pub proof fn lemma_run_is_determined<R, E>(
    policy: RetryPolicy,
    one: Seq<Result<R, E>>,
    other: Seq<Result<R, E>>,
)
    requires
        policy.is_run(one, false),
        policy.is_run(other, false),
        forall|i: int| 0 <= i < one.len() && i < other.len() ==> one[i] == other[i],
    ensures
        one =~= other,
{
    if one.len() < other.len() {
        assert(other[one.len() - 1] is Err);
        assert(one[one.len() - 1] == other[one.len() - 1]);
    } else if other.len() < one.len() {
        assert(one[other.len() - 1] is Err);
        assert(one[other.len() - 1] == other[other.len() - 1]);
    }
}

} // verus!
