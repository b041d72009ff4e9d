//! The data carried through the harness: a test-case definition (one row of
//! expected behaviour) and the outcome of evaluating it against the policy.

use vstd::prelude::*;

verus! {

/// One row of expected behaviour: a user-agent, a URL, and whether access
/// should be allowed.
#[derive(Debug)]
pub struct TestCaseDefinition {
    pub user_agent: String,
    pub url: String,
    pub expected_result: bool,
}

/// The mathematical value of a `TestCaseDefinition`.
pub struct TestCaseDefView {
    pub user_agent: Seq<char>,
    pub url: Seq<char>,
    pub expected_result: bool,
}

impl View for TestCaseDefinition {
    type V = TestCaseDefView;

    open spec fn view(&self) -> TestCaseDefView {
        TestCaseDefView {
            user_agent: self.user_agent@,
            url: self.url@,
            expected_result: self.expected_result,
        }
    }
}

impl DeepView for TestCaseDefinition {
    type V = TestCaseDefView;

    open spec fn deep_view(&self) -> TestCaseDefView {
        self.view()
    }
}

/// The comparison of an actual policy decision against an expected one for a
/// single test case. Created exactly once per definition and never mutated.
#[derive(Debug)]
pub struct TestCaseOutcome {
    pub user_agent: String,
    pub url: String,
    pub expected_result: bool,
    pub actual_result: bool,
    pub passed: bool,
}

/// The mathematical value of a `TestCaseOutcome`.
pub struct TestCaseOutcomeView {
    pub user_agent: Seq<char>,
    pub url: Seq<char>,
    pub expected_result: bool,
    pub actual_result: bool,
    pub passed: bool,
}

impl View for TestCaseOutcome {
    type V = TestCaseOutcomeView;

    open spec fn view(&self) -> TestCaseOutcomeView {
        TestCaseOutcomeView {
            user_agent: self.user_agent@,
            url: self.url@,
            expected_result: self.expected_result,
            actual_result: self.actual_result,
            passed: self.passed,
        }
    }
}

impl DeepView for TestCaseOutcome {
    type V = TestCaseOutcomeView;

    open spec fn deep_view(&self) -> TestCaseOutcomeView {
        self.view()
    }
}

impl TestCaseOutcomeView {
    /// An outcome is well formed when its verdict is exactly the comparison
    /// of the actual decision against the expected one.
    pub open spec fn wf(self) -> bool {
        self.passed == (self.actual_result == self.expected_result)
    }
}

impl TestCaseOutcome {
    /// Record the actual decision for a definition; the verdict is the
    /// comparison of the actual decision against the expected one.
    pub fn from_decision(def: &TestCaseDefinition, actual: bool) -> (r: TestCaseOutcome)
        ensures
            r@.user_agent == def@.user_agent,
            r@.url == def@.url,
            r@.expected_result == def@.expected_result,
            r@.actual_result == actual,
            r@.wf(),
    {
        TestCaseOutcome {
            user_agent: def.user_agent.clone(),
            url: def.url.clone(),
            expected_result: def.expected_result,
            actual_result: actual,
            passed: actual == def.expected_result,
        }
    }
}

} // verus!
