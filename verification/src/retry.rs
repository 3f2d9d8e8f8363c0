//! The retry orchestrator: a state machine that drives the attempt pipeline
//! up to a fixed number of times with a fixed delay between failed attempts,
//! short-circuiting on a fatal error and aggregating the last retryable error
//! when the budget runs out.
//!
//! The machine is scheduler-agnostic: the surrounding program performs one
//! pipeline attempt (and the inter-attempt delay) per step and feeds the
//! outcome back through [`retry_step`].

use vstd::prelude::*;

use crate::errors::Disposition;
use crate::errors::ErrorKind;
use crate::errors::ProcedureFailure;
use crate::errors::classify;
use crate::errors::is_fatal;

verus! {

/// Upper bound on pipeline attempts.
pub const MAX_ATTEMPTS: u32 = 10;

/// Fixed delay between a failed attempt and the next one, in milliseconds.
pub const RETRY_DELAY_MS: u64 = 500;

/// What one run of the attempt pipeline reported back. A successful run
/// yields a service proxy, which the caller holds; the machine only needs
/// the tag.
#[derive(Clone, Copy, Debug, PartialEq, Eq, Structural)]
pub enum AttemptOutcome {
    Success,
    Failure(ErrorKind),
}

/// State of the orchestrator. `Attempting` carries the 1-based index of the
/// attempt about to run (or running) and the last retryable error seen so
/// far; the other three states are terminal.
#[derive(Clone, Copy, Debug, PartialEq, Eq, Structural)]
pub enum RetryState {
    Attempting { attempt: u32, last_error: Option<ErrorKind> },
    Succeeded { attempt: u32 },
    FatalFailed { kind: ErrorKind },
    RetriesExhausted { last_error: Option<ErrorKind> },
}

/// An `Attempting` state never names an attempt outside the retry budget.
pub open spec fn wf_state(st: RetryState) -> bool {
    st matches RetryState::Attempting { attempt, .. } ==> 1 <= attempt <= MAX_ATTEMPTS
}

/// The procedure starts at attempt 1 with no error recorded.
pub open spec fn initial_state() -> RetryState {
    RetryState::Attempting { attempt: 1, last_error: None }
}

/// One transition of the machine: from the attempt that just finished and its
/// outcome to the next state. Success terminates at once; a fatal failure
/// terminates at once; a retryable failure is recorded and either starts the
/// next attempt or, at the last attempt, exhausts the budget.
pub open spec fn step_spec(st: RetryState, o: AttemptOutcome) -> RetryState
    recommends
        st is Attempting,
{
    let attempt = st->Attempting_attempt;
    match o {
        AttemptOutcome::Success => RetryState::Succeeded { attempt },
        AttemptOutcome::Failure(k) => if is_fatal(k) {
            RetryState::FatalFailed { kind: k }
        } else if attempt < MAX_ATTEMPTS {
            RetryState::Attempting { attempt: (attempt + 1) as u32, last_error: Some(k) }
        } else {
            RetryState::RetriesExhausted { last_error: Some(k) }
        },
    }
}

/// Executable transition. The caller runs the attempt named by `st`, then
/// hands its outcome here; if the result is again `Attempting`, the caller
/// delays [`RETRY_DELAY_MS`] before the next attempt.
pub fn retry_step(st: RetryState, o: AttemptOutcome) -> (next: RetryState)
    requires
        st is Attempting,
        wf_state(st),
    ensures
        next == step_spec(st, o),
        wf_state(next),
{
    match st {
        RetryState::Attempting { attempt, last_error: _ } => match o {
            AttemptOutcome::Success => RetryState::Succeeded { attempt },
            AttemptOutcome::Failure(k) => match classify(k) {
                Disposition::Fatal => RetryState::FatalFailed { kind: k },
                Disposition::Retryable => if attempt < MAX_ATTEMPTS {
                    RetryState::Attempting { attempt: attempt + 1, last_error: Some(k) }
                } else {
                    RetryState::RetriesExhausted { last_error: Some(k) }
                },
            },
        },
        _ => st,
    }
}

/// Whether a state still asks for a pipeline attempt.
pub fn is_attempting(st: &RetryState) -> (b: bool)
    ensures
        b == (*st is Attempting),
{
    match st {
        RetryState::Attempting { .. } => true,
        _ => false,
    }
}

/// The failure surfaced to the caller when the machine reaches a failing
/// terminal state. Exhaustion happens only at the last attempt, so it always
/// reports the full budget.
pub fn failure_of_state(st: RetryState) -> (f: ProcedureFailure)
    requires
        st is FatalFailed || st is RetriesExhausted,
    ensures
        st matches RetryState::FatalFailed { kind } ==> f == (ProcedureFailure::Fatal { kind }),
        st matches RetryState::RetriesExhausted { last_error } ==> f == (ProcedureFailure::RetriesExhausted {
            attempts: MAX_ATTEMPTS,
            last: last_error,
        }),
{
    match st {
        RetryState::FatalFailed { kind } => ProcedureFailure::Fatal { kind },
        RetryState::RetriesExhausted { last_error } => ProcedureFailure::RetriesExhausted {
            attempts: MAX_ATTEMPTS,
            last: last_error,
        },
        _ => ProcedureFailure::RetriesExhausted { attempts: MAX_ATTEMPTS, last: None },
    }
}

/// Model of a whole procedure run: feed the outcomes of successive pipeline
/// attempts through the machine, starting from `st`, until the machine is
/// terminal or the trace runs out. Yields the final state, the number of
/// pipeline invocations made, and the number of inter-attempt delays taken
/// (one before each attempt after the first).
pub open spec fn run_from(st: RetryState, outcomes: Seq<AttemptOutcome>) -> (RetryState, int, int)
    decreases outcomes.len(),
{
    if !(st is Attempting) || outcomes.len() == 0 {
        (st, 0, 0)
    } else {
        let next = step_spec(st, outcomes[0]);
        let rest = run_from(next, outcomes.drop_first());
        (rest.0, rest.1 + 1, rest.2 + if next is Attempting { 1int } else { 0int })
    }
}

/// A whole run from the initial state.
pub open spec fn run(outcomes: Seq<AttemptOutcome>) -> (RetryState, int, int) {
    run_from(initial_state(), outcomes)
}

/// Final state, attempt count and delay count of one whole run.
pub struct RunReport {
    pub state: RetryState,
    pub attempts: usize,
    pub delays: usize,
}

/// Executable counterpart of [`run`]: drives the machine over a given trace
/// of attempt outcomes, counting pipeline invocations and delays. The async
/// driver in the surrounding program mirrors this loop, performing the real
/// attempt and the real delay where this one consumes the next outcome.
pub fn run_attempts(outcomes: &Vec<AttemptOutcome>) -> (r: RunReport)
    ensures
        r.state == run(outcomes@).0,
        r.attempts as int == run(outcomes@).1,
        r.delays as int == run(outcomes@).2,
{
    let mut st = RetryState::Attempting { attempt: 1, last_error: None };
    let mut attempts: usize = 0;
    let mut delays: usize = 0;
    let mut i: usize = 0;
    proof {
        assert(outcomes@.skip(0) =~= outcomes@);
        assert(st == initial_state());
    }
    while i < outcomes.len() && is_attempting(&st)
        invariant
            i <= outcomes@.len(),
            attempts == i,
            delays <= i,
            wf_state(st),
            run(outcomes@).0 == run_from(st, outcomes@.skip(i as int)).0,
            run(outcomes@).1 == attempts + run_from(st, outcomes@.skip(i as int)).1,
            run(outcomes@).2 == delays + run_from(st, outcomes@.skip(i as int)).2,
        decreases outcomes@.len() - i,
    {
        let o = outcomes[i];
        proof {
            assert(outcomes@.skip(i as int).len() > 0);
            assert(outcomes@.skip(i as int)[0] == outcomes@[i as int]);
            assert(outcomes@.skip(i as int).drop_first() =~= outcomes@.skip(i as int + 1));
        }
        st = retry_step(st, o);
        attempts = attempts + 1;
        if is_attempting(&st) {
            delays = delays + 1;
        }
        i = i + 1;
    }
    proof {
        if i == outcomes@.len() {
            assert(outcomes@.skip(i as int).len() == 0);
        }
    }
    RunReport { state: st, attempts, delays }
}

/// A retryable (non-fatal) failure outcome: the machine records it and moves
/// to the next attempt while budget remains.
pub open spec fn is_retryable_failure(o: AttemptOutcome) -> bool {
    o matches AttemptOutcome::Failure(k) && !is_fatal(k)
}

/// The error kind carried by a failure outcome.
pub open spec fn failure_kind(o: AttemptOutcome) -> ErrorKind
    recommends
        o is Failure,
{
    o->0
}

/// Induction core for the run laws: starting at attempt `n`, if the first `j`
/// outcomes are retryable failures and the outcome at index `j` decides the
/// run (a success, a fatal failure, or a retryable failure at the last
/// budgeted attempt), the run consumes exactly `j + 1` outcomes, takes `j`
/// delays, and ends in the state that outcome decides.
proof fn lemma_run_from_decided(
    n: u32,
    last: Option<ErrorKind>,
    outcomes: Seq<AttemptOutcome>,
    j: int,
)
    requires
        0 <= j < outcomes.len(),
        1 <= n,
        n + j <= MAX_ATTEMPTS,
        forall|i: int| 0 <= i < j ==> is_retryable_failure(#[trigger] outcomes[i]),
        is_retryable_failure(outcomes[j]) ==> n + j == MAX_ATTEMPTS,
    ensures
        outcomes[j] is Success ==> run_from(
            RetryState::Attempting { attempt: n, last_error: last },
            outcomes,
        ) == (RetryState::Succeeded { attempt: (n + j) as u32 }, j + 1, j),
        outcomes[j] matches AttemptOutcome::Failure(k) && is_fatal(k) ==> run_from(
            RetryState::Attempting { attempt: n, last_error: last },
            outcomes,
        ) == (RetryState::FatalFailed { kind: failure_kind(outcomes[j]) }, j + 1, j),
        is_retryable_failure(outcomes[j]) ==> run_from(
            RetryState::Attempting { attempt: n, last_error: last },
            outcomes,
        ) == (
            RetryState::RetriesExhausted { last_error: Some(failure_kind(outcomes[j])) },
            j + 1,
            j,
        ),
    decreases j,
{
    let st = RetryState::Attempting { attempt: n, last_error: last };
    if j == 0 {
        let next = step_spec(st, outcomes[0]);
        assert(!(next is Attempting));
        assert(run_from(next, outcomes.drop_first()) == (next, 0int, 0int));
    } else {
        assert(is_retryable_failure(outcomes[0]));
        let k0 = failure_kind(outcomes[0]);
        let next = RetryState::Attempting { attempt: (n + 1) as u32, last_error: Some(k0) };
        assert(step_spec(st, outcomes[0]) == next);
        let rest = outcomes.drop_first();
        assert forall|i: int| 0 <= i < j - 1 implies is_retryable_failure(#[trigger] rest[i]) by {
            assert(rest[i] == outcomes[i + 1]);
        }
        assert(rest[j - 1] == outcomes[j]);
        lemma_run_from_decided((n + 1) as u32, Some(k0), rest, j - 1);
    }
}

/// If the first `k - 1` pipeline attempts each fail with a retryable error
/// and attempt `k` succeeds, the procedure succeeds using attempt `k`'s
/// result, after exactly `k` pipeline invocations and `k - 1` delays.
pub proof fn lemma_success_after_retries(outcomes: Seq<AttemptOutcome>, k: int)
    requires
        1 <= k <= MAX_ATTEMPTS,
        k <= outcomes.len(),
        forall|i: int| 0 <= i < k - 1 ==> is_retryable_failure(#[trigger] outcomes[i]),
        outcomes[k - 1] is Success,
    ensures
        run(outcomes) == (RetryState::Succeeded { attempt: k as u32 }, k, k - 1),
{
    lemma_run_from_decided(1, None, outcomes, k - 1);
}

/// A success on the very first attempt: exactly one pipeline invocation and
/// no delay.
pub proof fn lemma_immediate_success(outcomes: Seq<AttemptOutcome>)
    requires
        outcomes.len() >= 1,
        outcomes[0] is Success,
    ensures
        run(outcomes) == (RetryState::Succeeded { attempt: 1u32 }, 1int, 0int),
{
    lemma_success_after_retries(outcomes, 1);
}

/// A fatal failure at attempt `k` (the earlier attempts having failed with
/// retryable errors) terminates the procedure immediately after attempt `k`:
/// `k` pipeline invocations, `k - 1` delays, and no further attempt, whatever
/// retry budget remains.
pub proof fn lemma_fatal_stops_immediately(outcomes: Seq<AttemptOutcome>, k: int)
    requires
        1 <= k <= MAX_ATTEMPTS,
        k <= outcomes.len(),
        forall|i: int| 0 <= i < k - 1 ==> is_retryable_failure(#[trigger] outcomes[i]),
        outcomes[k - 1] matches AttemptOutcome::Failure(f) && is_fatal(f),
    ensures
        run(outcomes) == (
            RetryState::FatalFailed { kind: failure_kind(outcomes[k - 1]) },
            k,
            k - 1,
        ),
{
    lemma_run_from_decided(1, None, outcomes, k - 1);
}

/// If every attempt in a full budget's worth of outcomes fails with a
/// retryable error, the procedure makes exactly [`MAX_ATTEMPTS`] pipeline
/// invocations and [`MAX_ATTEMPTS`]` - 1` delays, and ends with the budget
/// exhausted, carrying the last attempt's error.
pub proof fn lemma_retries_exhausted(outcomes: Seq<AttemptOutcome>)
    requires
        outcomes.len() == MAX_ATTEMPTS,
        forall|i: int| 0 <= i < outcomes.len() ==> is_retryable_failure(#[trigger] outcomes[i]),
    ensures
        run(outcomes) == (
            RetryState::RetriesExhausted { last_error: Some(failure_kind(outcomes.last())) },
            MAX_ATTEMPTS as int,
            MAX_ATTEMPTS - 1,
        ),
{
    lemma_run_from_decided(1, None, outcomes, MAX_ATTEMPTS - 1);
}

/// If the environment variable is absent on every attempt, every attempt
/// fails with the missing-variable error and the procedure ends with the
/// budget exhausted after the full count of attempts and delays, reporting
/// that error as the last one.
pub proof fn lemma_env_missing_every_attempt(outcomes: Seq<AttemptOutcome>)
    requires
        outcomes.len() == MAX_ATTEMPTS,
        forall|i: int| 0 <= i < outcomes.len() ==> #[trigger] outcomes[i] == AttemptOutcome::Failure(
            ErrorKind::EnvMissing,
        ),
    ensures
        run(outcomes) == (
            RetryState::RetriesExhausted { last_error: Some(ErrorKind::EnvMissing) },
            MAX_ATTEMPTS as int,
            MAX_ATTEMPTS - 1,
        ),
{
    assert forall|i: int| 0 <= i < outcomes.len() implies is_retryable_failure(
        #[trigger] outcomes[i],
    ) by {
        assert(outcomes[i] == AttemptOutcome::Failure(ErrorKind::EnvMissing));
    }
    lemma_retries_exhausted(outcomes);
}

} // verus!
