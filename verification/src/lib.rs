//! A batch harness that checks a robots-exclusion policy against a table of
//! expected outcomes: it loads test-case rows, asks the policy engine for a
//! decision on each, aggregates pass/fail counts, and can render the outcomes
//! as a JUnit XML report.

pub mod cases;
pub mod engine;
pub mod loader;
pub mod policy;
pub mod report;
pub mod summary;
