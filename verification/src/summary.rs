//! The aggregator: reduce an outcome sequence to summary counts and the
//! process exit signal.

use vstd::prelude::*;

use crate::cases::{TestCaseDefView, TestCaseOutcome, TestCaseOutcomeView};
use crate::engine::run_outcomes;
use crate::loader::LoadError;

verus! {

/// Summary counts of one run. `total == 0` is a valid, vacuously successful
/// state.
#[derive(Clone, Copy, Debug, PartialEq, Eq, Structural)]
pub struct RunSummary {
    pub total: usize,
    pub passed: usize,
    pub failed: usize,
}

impl RunSummary {
    /// The counts of a summary are consistent: the failures are exactly the
    /// cases that did not pass.
    pub open spec fn wf(self) -> bool {
        &&& self.passed <= self.total
        &&& self.failed == self.total - self.passed
    }
}

/// How many outcomes of a sequence passed.
pub open spec fn count_passed(outcomes: Seq<TestCaseOutcomeView>) -> nat
    decreases outcomes.len(),
{
    if outcomes.len() == 0 {
        0
    } else {
        count_passed(outcomes.drop_last()) + if outcomes.last().passed {
            1nat
        } else {
            0nat
        }
    }
}

/// Reduce the outcome sequence to its summary counts. Tolerates the empty
/// sequence, which yields the all-zero summary, and for every input the
/// failed count is exactly the total minus the passed count.
pub fn summarize(outcomes: &Vec<TestCaseOutcome>) -> (s: RunSummary)
    ensures
        s.total == outcomes@.len(),
        s.passed == count_passed(outcomes.deep_view()),
        s.failed == s.total - s.passed,
        s.wf(),
{
    let total = outcomes.len();
    let mut passed: usize = 0;
    for i in 0..total
        invariant
            total == outcomes@.len(),
            passed == count_passed(outcomes.deep_view().take(i as int)),
            passed <= i,
    {
        proof {
            assert(outcomes.deep_view().take(i + 1).drop_last() =~= outcomes.deep_view().take(
                i as int,
            ));
            assert(outcomes.deep_view().take(i + 1).last() == outcomes@[i as int].deep_view());
        }
        if outcomes[i].passed {
            passed = passed + 1;
        }
    }
    proof {
        assert(outcomes.deep_view().take(total as int) =~= outcomes.deep_view());
    }
    RunSummary { total, passed, failed: total - passed }
}

/// Running the harness twice on identical definitions and an unchanged
/// policy port is idempotent: both runs yield the same outcome sequence,
/// hence the same total and passed counts.
pub proof fn lemma_harness_idempotent(
    agent: Seq<char>,
    policy: Seq<u8>,
    defs: Seq<TestCaseDefView>,
    out1: Seq<TestCaseOutcomeView>,
    out2: Seq<TestCaseOutcomeView>,
)
    requires
        out1 == run_outcomes(agent, policy, defs),
        out2 == run_outcomes(agent, policy, defs),
    ensures
        out1 == out2,
        out1.len() == out2.len(),
        count_passed(out1) == count_passed(out2),
{
}

/// The run's exit signal.
#[derive(Clone, Copy, Debug, PartialEq, Eq, Structural)]
pub enum ExitStatus {
    Success,
    Failure,
}

/// The exit signal of a completed evaluation: failure exactly when at least
/// one case failed.
pub fn exit_status(summary: &RunSummary) -> (s: ExitStatus)
    ensures
        (s == ExitStatus::Failure) <==> summary.failed > 0,
{
    if summary.failed > 0 {
        ExitStatus::Failure
    } else {
        ExitStatus::Success
    }
}

/// The exit signal of a whole run: failure exactly when the test cases could
/// not be loaded or at least one loaded case failed.
pub fn run_exit_status(run: &Result<RunSummary, LoadError>) -> (s: ExitStatus)
    ensures
        (s == ExitStatus::Failure) <==> (run is Err || (run matches Ok(summary) && summary.failed
            > 0)),
{
    match run {
        Ok(summary) => exit_status(summary),
        Err(_) => ExitStatus::Failure,
    }
}

} // verus!
