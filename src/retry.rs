use vstd::prelude::*;

use crate::error::EsdmError;

verus! {

/// How many times a call to the daemon is attempted before the failure is surfaced.
pub const ESDM_RETRY_COUNT: u32 = 5;

/// What the retry envelope decides after one attempt.
#[derive(Clone, Copy, Debug, PartialEq, Eq, Structural)]
pub enum RetryStep {
    /// The attempt succeeded: the operation is done.
    Succeeded,
    /// The attempt failed and the bound is not reached: attempt again at once.
    TryAgain,
    /// The attempt failed and it was the last one allowed.
    GaveUp,
}

/// The step that follows an attempt with outcome `ok`, when `failures` attempts failed before it.
pub open spec fn next_step(failures: nat, ok: bool) -> RetryStep {
    if ok {
        RetryStep::Succeeded
    } else if failures + 1 >= ESDM_RETRY_COUNT {
        RetryStep::GaveUp
    } else {
        RetryStep::TryAgain
    }
}

/// The step at which the envelope stops when, after `failures` failed attempts, the
/// following attempts have the outcomes `outcomes` in order; `TryAgain` when the
/// outcomes run out first.
pub open spec fn run_from(failures: nat, outcomes: Seq<bool>) -> RetryStep
    decreases outcomes.len(),
{
    if outcomes.len() == 0 {
        RetryStep::TryAgain
    } else if next_step(failures, outcomes[0]) == RetryStep::TryAgain {
        run_from(failures + 1, outcomes.drop_first())
    } else {
        next_step(failures, outcomes[0])
    }
}

/// The number of attempts that the envelope makes in the run of `run_from`.
pub open spec fn attempts_from(failures: nat, outcomes: Seq<bool>) -> nat
    decreases outcomes.len(),
{
    if outcomes.len() == 0 {
        0
    } else if next_step(failures, outcomes[0]) == RetryStep::TryAgain {
        1 + attempts_from(failures + 1, outcomes.drop_first())
    } else {
        1
    }
}

proof fn lemma_run_from(failures: nat, outcomes: Seq<bool>)
    requires
        failures < ESDM_RETRY_COUNT,
        outcomes.len() + failures >= ESDM_RETRY_COUNT,
    ensures
        run_from(failures, outcomes) != RetryStep::TryAgain,
        attempts_from(failures, outcomes) + failures <= ESDM_RETRY_COUNT,
        run_from(failures, outcomes) == RetryStep::Succeeded <==> exists|i: int|
            0 <= i < ESDM_RETRY_COUNT - failures && #[trigger] outcomes[i],
    decreases outcomes.len(),
{
    if next_step(failures, outcomes[0]) == RetryStep::TryAgain {
        let rest = outcomes.drop_first();
        lemma_run_from(failures + 1, rest);
        if run_from(failures, outcomes) == RetryStep::Succeeded {
            let i = choose|i: int| 0 <= i < ESDM_RETRY_COUNT - failures - 1 && #[trigger] rest[i];
            assert(outcomes[i + 1]);
        }
        if exists|i: int| 0 <= i < ESDM_RETRY_COUNT - failures && #[trigger] outcomes[i] {
            let i = choose|i: int| 0 <= i < ESDM_RETRY_COUNT - failures && #[trigger] outcomes[i];
            assert(i != 0);
            assert(rest[i - 1]);
        }
    }
}

/// Whatever the daemon answers, the envelope stops after at most `ESDM_RETRY_COUNT`
/// attempts; it ends in success exactly when one of those attempts succeeds, and
/// otherwise it gives up.
pub proof fn lemma_retry_is_bounded(outcomes: Seq<bool>)
    requires
        outcomes.len() >= ESDM_RETRY_COUNT,
    ensures
        run_from(0, outcomes) != RetryStep::TryAgain,
        attempts_from(0, outcomes) <= ESDM_RETRY_COUNT,
        run_from(0, outcomes) == RetryStep::Succeeded <==> exists|i: int|
            0 <= i < ESDM_RETRY_COUNT && #[trigger] outcomes[i],
        run_from(0, outcomes) == RetryStep::GaveUp <==> forall|i: int|
            0 <= i < ESDM_RETRY_COUNT ==> !#[trigger] outcomes[i],
{
    lemma_run_from(0, outcomes);
}

/// Bookkeeping of the retry envelope for one operation.
pub struct Retry {
    failures: u32,
}

impl Retry {
    pub closed spec fn failed(&self) -> nat {
        self.failures as nat
    }

    /// An envelope that may still attempt the operation.
    pub open spec fn can_attempt(&self) -> bool {
        self.failed() < ESDM_RETRY_COUNT
    }

    /// A fresh envelope: no attempt made yet.
    pub fn new() -> (r: Retry)
        ensures
            r.failed() == 0,
    {
        Retry { failures: 0 }
    }

    /// The number of failed attempts so far.
    pub fn failures(&self) -> (r: u32)
        ensures
            r == self.failed(),
    {
        self.failures
    }

    /// Records the outcome of one attempt and says what to do next.
    pub fn record(&mut self, ok: bool) -> (step: RetryStep)
        requires
            old(self).can_attempt(),
        ensures
            step == next_step(old(self).failed(), ok),
            final(self).failed() == if ok { old(self).failed() } else { old(self).failed() + 1 },
    {
        if ok {
            RetryStep::Succeeded
        } else {
            self.failures = self.failures + 1;
            if self.failures >= ESDM_RETRY_COUNT {
                RetryStep::GaveUp
            } else {
                RetryStep::TryAgain
            }
        }
    }

    /// Records the status code that one attempt returned: the daemon reports
    /// success with `0` and failure with any other code.
    pub fn record_code(&mut self, code: i32) -> (step: RetryStep)
        requires
            old(self).can_attempt(),
        ensures
            step == next_step(old(self).failed(), code == 0),
            final(self).failed() == if code == 0 { old(self).failed() } else { old(self).failed() + 1 },
    {
        self.record(code == 0)
    }
}

/// The result that a finished envelope hands to its caller: a run that gave up
/// is reported as `Unavailable`.
pub fn step_result(step: RetryStep) -> (r: Option<Result<(), EsdmError>>)
    ensures
        r == match step {
            RetryStep::Succeeded => Some(Ok(())),
            RetryStep::GaveUp => Some(Err(EsdmError::Unavailable)),
            RetryStep::TryAgain => None::<Result<(), EsdmError>>,
        },
{
    match step {
        RetryStep::Succeeded => Some(Ok(())),
        RetryStep::GaveUp => Some(Err(EsdmError::Unavailable)),
        RetryStep::TryAgain => None,
    }
}

} // verus!
