//! The policy decision port: a parsed robots-exclusion policy, queried once
//! per test case. The parsing and matching are done by `texting_robots`; this
//! module only records which policy text and user-agent a port was built from,
//! so that contracts can speak of the decision as a function of those inputs.

use vstd::prelude::*;

verus! {

#[verifier::external_type_specification]
#[verifier::external_body]
pub struct ExRobot(texting_robots::Robot);

/// The decision that a robots-exclusion policy, parsed for a user-agent,
/// gives for a URL. `texting_robots` computes it from these three values
/// alone, deterministically, so it can be given a name without a body.
pub uninterp spec fn robot_decision(agent: Seq<char>, policy: Seq<u8>, url: Seq<char>) -> bool;

/// A robots-exclusion policy parsed once for a fixed user-agent, read-only
/// afterwards and safe to query concurrently.
pub struct DecisionPort {
    robot: texting_robots::Robot,
    agent_text: String,
    policy_text: Vec<u8>,
}

impl DecisionPort {
    /// The user-agent this port was built for.
    pub closed spec fn agent(&self) -> Seq<char> {
        self.agent_text@
    }

    /// The policy text this port was built from.
    pub closed spec fn policy(&self) -> Seq<u8> {
        self.policy_text@
    }

    /// Relies on `texting_robots::Robot::new`: parsing the policy text for
    /// the given user-agent either yields a matcher for exactly that pair of
    /// inputs or fails; nothing more is promised of either side.
    #[verifier::external_body]
    pub fn new(agent: &str, policy: &[u8]) -> (r: Option<DecisionPort>)
        ensures
            r matches Some(p) ==> p.agent() == agent@ && p.policy() == policy@,
    {
        match texting_robots::Robot::new(agent, policy) {
            Ok(robot) => Some(DecisionPort {
                robot,
                agent_text: agent.to_string(),
                policy_text: policy.to_vec(),
            }),
            Err(_) => None,
        }
    }

    /// Relies on `texting_robots::Robot::allowed`: the decision is computed
    /// from the parsed rules (a function of the policy text and user-agent)
    /// and the URL alone, with no other input, so it equals `robot_decision`
    /// of the three values.
    #[verifier::external_body]
    pub fn decide(&self, url: &str) -> (r: bool)
        ensures
            r == robot_decision(self.agent(), self.policy(), url@),
    {
        self.robot.allowed(url)
    }
}

} // verus!
