//! The evaluation engine: for each test-case definition, obtain the actual
//! decision from the policy port and compare it to the expected one. Each
//! case is evaluated independently; the outcome sequence keeps input order.

use vstd::prelude::*;

use crate::cases::{TestCaseDefView, TestCaseDefinition, TestCaseOutcome, TestCaseOutcomeView};
use crate::policy::{robot_decision, DecisionPort};
use rayon::iter::{IntoParallelRefIterator, ParallelIterator};

verus! {

/// The outcome that evaluating one definition against the policy yields.
pub open spec fn outcome_of(agent: Seq<char>, policy: Seq<u8>, def: TestCaseDefView) -> TestCaseOutcomeView {
    TestCaseOutcomeView {
        user_agent: def.user_agent,
        url: def.url,
        expected_result: def.expected_result,
        actual_result: robot_decision(agent, policy, def.url),
        passed: robot_decision(agent, policy, def.url) == def.expected_result,
    }
}

/// The outcome sequence of a whole run: one outcome per definition, in input
/// order.
pub open spec fn run_outcomes(agent: Seq<char>, policy: Seq<u8>, defs: Seq<TestCaseDefView>) -> Seq<TestCaseOutcomeView> {
    defs.map_values(|def: TestCaseDefView| outcome_of(agent, policy, def))
}

/// Evaluate a single definition against the port.
pub fn evaluate_case(port: &DecisionPort, def: &TestCaseDefinition) -> (r: TestCaseOutcome)
    ensures
        r@ == outcome_of(port.agent(), port.policy(), def@),
{
    let actual = port.decide(def.url.as_str());
    TestCaseOutcome::from_decision(def, actual)
}

/// Evaluate every definition, in order. Each evaluation reads only its own
/// definition and the shared read-only port, never another case's outcome.
pub fn evaluate_cases(port: &DecisionPort, defs: &Vec<TestCaseDefinition>) -> (r: Vec<TestCaseOutcome>)
    ensures
        r.deep_view() == run_outcomes(port.agent(), port.policy(), defs.deep_view()),
{
    let mut out: Vec<TestCaseOutcome> = Vec::new();
    let n = defs.len();
    for i in 0..n
        invariant
            n == defs@.len(),
            out@.len() == i,
            out.deep_view() =~= run_outcomes(port.agent(), port.policy(), defs.deep_view()).take(i as int),
    {
        let outcome = evaluate_case(port, &defs[i]);
        out.push(outcome);
        assert(out.deep_view() =~= run_outcomes(port.agent(), port.policy(), defs.deep_view()).take(i + 1));
    }
    assert(out.deep_view() =~= run_outcomes(port.agent(), port.policy(), defs.deep_view()));
    out
}

/// Evaluate every definition with a data-parallel map over the input, one
/// worker per case, sharing the port read-only.
///
/// Relies on rayon's `par_iter().map(..).collect()`: collecting an indexed
/// parallel iterator into a `Vec` yields the image of each element at the
/// position its source had, whatever the execution order, so the result is
/// the same sequence the sequential loop produces.
#[verifier::external_body]
pub fn evaluate_cases_parallel(port: &DecisionPort, defs: &Vec<TestCaseDefinition>) -> (r: Vec<TestCaseOutcome>)
    ensures
        r.deep_view() == run_outcomes(port.agent(), port.policy(), defs.deep_view()),
{
    defs.par_iter().map(|def| evaluate_case(port, def)).collect()
}

/// One outcome per input, each traceable to its source definition: the
/// outcome at an index carries that definition's user-agent, URL and
/// expected result unchanged, and its verdict is exactly the comparison of
/// the actual decision against the expected one.
pub proof fn lemma_outcomes_trace_inputs(agent: Seq<char>, policy: Seq<u8>, defs: Seq<TestCaseDefView>)
    ensures
        run_outcomes(agent, policy, defs).len() == defs.len(),
        forall|i: int| 0 <= i < defs.len() ==> {
            let o = #[trigger] run_outcomes(agent, policy, defs)[i];
            &&& o.user_agent == defs[i].user_agent
            &&& o.url == defs[i].url
            &&& o.expected_result == defs[i].expected_result
            &&& o.wf()
        },
{
}

} // verus!
