use robots_harness::cases::TestCaseDefinition;
use robots_harness::engine::{evaluate_case, evaluate_cases, evaluate_cases_parallel};
use robots_harness::policy::DecisionPort;
use robots_harness::summary::summarize;

fn def(user_agent: &str, url: &str, expected_result: bool) -> TestCaseDefinition {
    TestCaseDefinition {
        user_agent: user_agent.to_string(),
        url: url.to_string(),
        expected_result,
    }
}

#[test]
fn allow_all_policy_passes_expected_true() {
    let port = DecisionPort::new("bot", b"").unwrap();
    let outcome = evaluate_case(&port, &def("bot", "/x", true));
    assert_eq!(outcome.actual_result, true);
    assert_eq!(outcome.passed, true);
}

#[test]
fn disallow_private_policy_decides_both_ways() {
    let policy = b"User-agent: *\nDisallow: /private\n";
    let port = DecisionPort::new("bot", policy).unwrap();

    let expected_denied = evaluate_case(&port, &def("bot", "/private", false));
    assert_eq!(expected_denied.actual_result, false);
    assert_eq!(expected_denied.passed, true);

    let expected_allowed = evaluate_case(&port, &def("bot", "/private", true));
    assert_eq!(expected_allowed.actual_result, false);
    assert_eq!(expected_allowed.passed, false);
}

#[test]
fn outcomes_trace_their_definitions() {
    let policy = b"User-agent: *\nDisallow: /private\n";
    let port = DecisionPort::new("bot", policy).unwrap();
    let defs = vec![
        def("bot", "/open", true),
        def("bot", "/private", false),
        def("crawler", "/private/logs", true),
    ];
    let outcomes = evaluate_cases(&port, &defs);
    assert_eq!(outcomes.len(), defs.len());
    for (outcome, source) in outcomes.iter().zip(defs.iter()) {
        assert_eq!(outcome.user_agent, source.user_agent);
        assert_eq!(outcome.url, source.url);
        assert_eq!(outcome.expected_result, source.expected_result);
        assert_eq!(outcome.passed, outcome.actual_result == outcome.expected_result);
    }
    assert_eq!(outcomes[0].actual_result, true);
    assert_eq!(outcomes[1].actual_result, false);
    assert_eq!(outcomes[2].actual_result, false);
}

#[test]
fn parallel_evaluation_matches_sequential_order() {
    let policy = b"User-agent: *\nDisallow: /a\nDisallow: /c\n";
    let port = DecisionPort::new("bot", policy).unwrap();
    let mut defs = Vec::new();
    for i in 0..200 {
        let url = format!("/{}", if i % 3 == 0 { "a" } else { "b" });
        defs.push(def("bot", &url, i % 2 == 0));
    }
    let sequential = evaluate_cases(&port, &defs);
    let parallel = evaluate_cases_parallel(&port, &defs);
    assert_eq!(sequential.len(), parallel.len());
    for (s, p) in sequential.iter().zip(parallel.iter()) {
        assert_eq!(s.user_agent, p.user_agent);
        assert_eq!(s.url, p.url);
        assert_eq!(s.expected_result, p.expected_result);
        assert_eq!(s.actual_result, p.actual_result);
        assert_eq!(s.passed, p.passed);
    }
}

#[test]
fn two_runs_on_identical_inputs_agree() {
    let policy = b"User-agent: *\nDisallow: /private\n";
    let port = DecisionPort::new("bot", policy).unwrap();
    let defs = vec![
        def("bot", "/open", true),
        def("bot", "/private", true),
        def("bot", "/private/x", false),
    ];
    let first = summarize(&evaluate_cases(&port, &defs));
    let second = summarize(&evaluate_cases(&port, &defs));
    assert_eq!(first.total, second.total);
    assert_eq!(first.passed, second.passed);
    assert_eq!(first.failed, second.failed);
}
