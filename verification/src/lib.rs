//! A small framework for evaluating a software project against a set of
//! best-practice rules.
//!
//! Each rule carries a human-readable description that doubles as its
//! identity, and an `evaluate` operation producing a tri-state
//! [`outcome::RuleOutcome`]: the checked property definitely holds
//! (`Success`), definitely does not hold (`Failure`), or could not be
//! decided (`Undetermined`). Project manifest metadata is supplied to the
//! framework as an already-parsed, optional snapshot; rules that need it
//! degrade to `Undetermined` when it is absent.

pub mod harness;
pub mod metadata;
pub mod outcome;
pub mod rules;
pub mod sink;

pub use harness::evaluate_rules;
pub use harness::execute_rule_against_project_dir;
pub use harness::execute_rule_against_project_dir_all_verbosities;
pub use harness::OutcomeCapture;
pub use harness::RuleReport;
pub use harness::VerbosityOutcomes;
pub use metadata::DependencyInfo;
pub use metadata::DependencyKind;
pub use metadata::MetadataSnapshot;
pub use metadata::PackageInfo;
pub use outcome::RuleOutcome;
pub use rules::default_rules;
pub use rules::CargoMetadataReadable;
pub use rules::DefaultRule;
pub use rules::Rule;
pub use rules::UsesPropertyBasedTestLibrary;
pub use sink::DiagnosticSink;
