//! The evaluation harness: drives rules against a project and captures
//! one outcome and one batch of diagnostic text per rule.
//!
//! The harness never fails as a whole: metadata that could not be
//! obtained upstream arrives here as `None` and is handed to every rule
//! unchanged, each rule receives its own fresh diagnostic sink, and
//! every rule in the registry contributes exactly one report whose
//! outcome depends on that rule and the shared inputs alone — never on
//! any other rule in the run.

use vstd::prelude::*;

use crate::metadata::MetadataSnapshot;
use crate::outcome::RuleOutcome;
use crate::rules::Rule;
use crate::sink::DiagnosticSink;

verus! {

/// What one rule evaluation left behind: its outcome and the diagnostic
/// text it wrote.
pub struct OutcomeCapture {
    /// The tri-state outcome the rule produced.
    pub outcome: RuleOutcome,
    /// The diagnostic text the rule wrote to its sink.
    pub print_output: String,
}

/// The captures of one rule evaluated twice over the same inputs, once
/// verbosely and once not.
pub struct VerbosityOutcomes {
    /// The capture of the verbose evaluation.
    pub verbose: OutcomeCapture,
    /// The capture of the non-verbose evaluation.
    pub not_verbose: OutcomeCapture,
}

/// One line of an evaluation run's result: a rule's identity, its
/// outcome, and its diagnostic text.
pub struct RuleReport {
    /// The description of the rule this report belongs to.
    pub description: String,
    /// The tri-state outcome the rule produced.
    pub outcome: RuleOutcome,
    /// The diagnostic text the rule wrote to its sink.
    pub diagnostics: String,
}

/// The conventional manifest location inside a project directory.
pub open spec fn manifest_path_of(project_dir: Seq<char>) -> Seq<char> {
    project_dir + "/Cargo.toml"@
}

/// Resolves the conventional manifest location inside `project_dir`.
pub fn resolve_manifest_path(project_dir: &str) -> (path: String)
    ensures
        path@ == manifest_path_of(project_dir@),
{
    let mut path = String::from_str(project_dir);
    path.append("/Cargo.toml");
    path
}

/// Evaluates one rule against a project directory with the supplied
/// metadata snapshot, capturing the outcome and the diagnostic text.
pub fn execute_rule_against_project_dir<R: Rule>(
    project_dir: &str,
    rule: &R,
    verbose: bool,
    metadata: &Option<MetadataSnapshot>,
) -> (capture: OutcomeCapture)
    ensures
        capture.outcome == rule.outcome_spec(manifest_path_of(project_dir@), *metadata),
{
    let manifest_path = resolve_manifest_path(project_dir);
    let mut sink = DiagnosticSink::new();
    let outcome = rule.evaluate(manifest_path.as_str(), verbose, metadata, &mut sink);
    OutcomeCapture { outcome, print_output: sink.into_text() }
}

/// Evaluates one rule twice over the same inputs, verbosely and not.
/// The verbose flag never changes the outcome, only the volume of
/// diagnostic text written, so the two captured outcomes agree.
pub fn execute_rule_against_project_dir_all_verbosities<R: Rule>(
    project_dir: &str,
    rule: &R,
    metadata: &Option<MetadataSnapshot>,
) -> (outcomes: VerbosityOutcomes)
    ensures
        outcomes.verbose.outcome == rule.outcome_spec(manifest_path_of(project_dir@), *metadata),
        outcomes.not_verbose.outcome == outcomes.verbose.outcome,
{
    VerbosityOutcomes {
        verbose: execute_rule_against_project_dir(project_dir, rule, true, metadata),
        not_verbose: execute_rule_against_project_dir(project_dir, rule, false, metadata),
    }
}

/// Evaluates every rule of a registry against one project, yielding
/// exactly one report per rule, in registry order. Each report carries
/// the rule's description and an outcome fixed by that rule and the
/// shared inputs alone, so no rule can corrupt or suppress the report of
/// another, and absent metadata degrades the run instead of aborting it.
pub fn evaluate_rules<R: Rule>(
    rules: &Vec<R>,
    project_dir: &str,
    verbose: bool,
    metadata: &Option<MetadataSnapshot>,
) -> (reports: Vec<RuleReport>)
    ensures
        reports@.len() == rules@.len(),
        forall|i: int|
            0 <= i < rules@.len() ==> (#[trigger] reports@[i]).outcome == rules@[i].outcome_spec(
                manifest_path_of(project_dir@),
                *metadata,
            ),
        forall|i: int|
            0 <= i < rules@.len() ==> (#[trigger] reports@[i]).description@
                == rules@[i].description_spec(),
{
    let mut reports: Vec<RuleReport> = Vec::new();
    let mut k: usize = 0;
    while k < rules.len()
        invariant
            k <= rules@.len(),
            reports@.len() == k,
            forall|i: int|
                0 <= i < k ==> (#[trigger] reports@[i]).outcome == rules@[i].outcome_spec(
                    manifest_path_of(project_dir@),
                    *metadata,
                ),
            forall|i: int|
                0 <= i < k ==> (#[trigger] reports@[i]).description@
                    == rules@[i].description_spec(),
        decreases rules@.len() - k,
    {
        let rule = &rules[k];
        let description = String::from_str(rule.description());
        let capture = execute_rule_against_project_dir(project_dir, rule, verbose, metadata);
        reports.push(
            RuleReport {
                description,
                outcome: capture.outcome,
                diagnostics: capture.print_output,
            },
        );
        k += 1;
    }
    reports
}

} // verus!
