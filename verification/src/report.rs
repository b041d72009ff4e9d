//! The report emitter: render the outcome sequence as a JUnit XML document,
//! one entry per outcome, all grouped under the report identifier. The entry
//! names and failure labels are built here and proved exact; the XML framing
//! is `junit_report`'s, whose schema is an external-format contract.

use vstd::prelude::*;
use vstd::string::StringExecFns;

use crate::cases::{TestCaseOutcome, TestCaseOutcomeView};

verus! {

/// Why report rendering or writing failed.
#[derive(Clone, Copy, Debug, PartialEq, Eq, Structural)]
pub enum ReportError {
    /// The report document could not be produced or written.
    Io,
}

impl ReportError {
    /// A human-readable description of the error.
    pub fn describe(&self) -> (r: &'static str)
        ensures
            r@ == "cannot write the test report"@,
    {
        "cannot write the test report"
    }
}

#[verifier::external_type_specification]
#[verifier::external_body]
pub struct ExTestCase(junit_report::TestCase);

/// The label an expected result carries in a report entry name.
pub open spec fn expected_label(expected: bool) -> Seq<char> {
    if expected {
        "allowed"@
    } else {
        "denied"@
    }
}

/// The deterministic name of an outcome's report entry.
pub open spec fn entry_name_of(o: TestCaseOutcomeView) -> Seq<char> {
    "Accessing URL: "@ + o.url + " as "@ + o.user_agent + " should be "@ + expected_label(
        o.expected_result,
    )
}

/// Build an outcome's report entry name.
pub fn entry_name(outcome: &TestCaseOutcome) -> (r: String)
    ensures
        r@ == entry_name_of(outcome@),
{
    let mut name = String::new();
    name.append("Accessing URL: ");
    name.append(outcome.url.as_str());
    name.append(" as ");
    name.append(outcome.user_agent.as_str());
    name.append(" should be ");
    if outcome.expected_result {
        name.append("allowed");
    } else {
        name.append("denied");
    }
    proof {
        assert(name@ =~= entry_name_of(outcome@));
    }
    name
}

/// The success entry that `junit_report` constructs for a name, with zero
/// recorded duration. The constructor fills every other field with a fixed
/// default, so the entry is a function of the name alone and can be given a
/// name without a body.
pub uninterp spec fn success_entry_of(name: Seq<char>) -> junit_report::TestCase;

/// The failure entry that `junit_report` constructs for a name, an
/// assertion-kind label and a message, with zero recorded duration. It is a
/// function of those three values alone.
pub uninterp spec fn failure_entry_of(name: Seq<char>, kind: Seq<char>, message: Seq<char>) -> junit_report::TestCase;

/// Relies on `junit_report::TestCaseBuilder::success` and its `build`: they
/// construct a success entry from the given name and the zero duration
/// alone, deterministically, with every other field a fixed default.
#[verifier::external_body]
fn junit_success_entry(name: &str) -> (r: junit_report::TestCase)
    ensures
        r == success_entry_of(name@),
{
    junit_report::TestCaseBuilder::success(name, junit_report::Duration::seconds(0)).build()
}

/// Relies on `junit_report::TestCase::failure`: it constructs a failure
/// entry from the given name, the zero duration, and the given
/// assertion-kind and message labels alone, deterministically, with every
/// other field a fixed default.
#[verifier::external_body]
fn junit_failure_entry(name: &str, kind: &str, message: &str) -> (r: junit_report::TestCase)
    ensures
        r == failure_entry_of(name@, kind@, message@),
{
    junit_report::TestCase::failure(name, junit_report::Duration::seconds(0), kind, message)
}

/// The report entry an outcome must yield: a success entry for a passing
/// outcome, else a failure entry labelled `assert_eq` with the message
/// `not equal`, in either case named deterministically from the outcome's
/// fields.
pub open spec fn entry_of(o: TestCaseOutcomeView) -> junit_report::TestCase {
    if o.passed {
        success_entry_of(entry_name_of(o))
    } else {
        failure_entry_of(entry_name_of(o), "assert_eq"@, "not equal"@)
    }
}

/// Relies on `junit_report::TestSuiteBuilder`, `ReportBuilder` and
/// `Report::write_xml`: the entries are grouped into one suite named by the
/// identifier, the one suite into one report, and the report is serialized
/// as an XML document that starts with the XML declaration, so the
/// rendering is never empty. Writing into an in-memory buffer cannot fail,
/// so the document is always returned. The suite's timestamp is the time of
/// the call, so no more is promised of the bytes.
#[verifier::external_body]
fn junit_render(suite_name: &str, entries: Vec<junit_report::TestCase>) -> (r: Option<Vec<u8>>)
    ensures
        r is Some,
        r matches Some(bytes) ==> bytes@.len() > 0,
{
    let suite = junit_report::TestSuiteBuilder::new(suite_name).add_testcases(entries).build();
    let report = junit_report::ReportBuilder::new().add_testsuite(suite).build();
    let mut out: Vec<u8> = Vec::new();
    match report.write_xml(&mut out) {
        Ok(()) => Some(out),
        Err(_) => None,
    }
}

/// Build one report entry per outcome, in order: a success entry with zero
/// duration for a passing outcome, a failure entry labelled `assert_eq` and
/// `not equal` for a failing one, each named deterministically from its
/// outcome's fields.
pub fn build_entries(outcomes: &Vec<TestCaseOutcome>) -> (r: Vec<junit_report::TestCase>)
    ensures
        r@.len() == outcomes@.len(),
        forall|i: int| 0 <= i < outcomes@.len() ==> r@[i] == entry_of(
            #[trigger] outcomes.deep_view()[i],
        ),
{
    let mut entries: Vec<junit_report::TestCase> = Vec::new();
    let n = outcomes.len();
    for i in 0..n
        invariant
            n == outcomes@.len(),
            entries@.len() == i,
            forall|j: int| 0 <= j < i ==> entries@[j] == entry_of(
                #[trigger] outcomes.deep_view()[j],
            ),
    {
        let name = entry_name(&outcomes[i]);
        let entry = if outcomes[i].passed {
            junit_success_entry(name.as_str())
        } else {
            junit_failure_entry(name.as_str(), "assert_eq", "not equal")
        };
        entries.push(entry);
    }
    entries
}

/// Render the outcome sequence as one XML report document: one entry per
/// outcome, as `build_entries` fixes them, all grouped under the report
/// identifier. Rendering into memory cannot fail and is never empty; the
/// exact bytes also carry the rendering time, so they are not pinned
/// further here.
pub fn render_report(outcomes: &Vec<TestCaseOutcome>, report_identifier: &str) -> (r: Vec<u8>)
    ensures
        r@.len() > 0,
{
    let entries = build_entries(outcomes);
    match junit_render(report_identifier, entries) {
        Some(bytes) => bytes,
        None => Vec::new(),
    }
}

} // verus!
