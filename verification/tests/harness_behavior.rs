use cargo_culture_kit::CargoMetadataReadable;
use cargo_culture_kit::DefaultRule;
use cargo_culture_kit::DependencyInfo;
use cargo_culture_kit::DependencyKind;
use cargo_culture_kit::DiagnosticSink;
use cargo_culture_kit::MetadataSnapshot;
use cargo_culture_kit::PackageInfo;
use cargo_culture_kit::Rule;
use cargo_culture_kit::RuleOutcome;
use cargo_culture_kit::UsesPropertyBasedTestLibrary;
use cargo_culture_kit::default_rules;
use cargo_culture_kit::evaluate_rules;
use cargo_culture_kit::execute_rule_against_project_dir_all_verbosities;

fn conforming_snapshot() -> MetadataSnapshot {
    MetadataSnapshot {
        packages: vec![PackageInfo {
            name: "kid".to_string(),
            dependencies: vec![DependencyInfo {
                name: "proptest".to_string(),
                requirement: "*".to_string(),
                kind: DependencyKind::Development,
            }],
        }],
    }
}

/// A rule whose internal probe always errors; per the framework's error
/// discipline it catches the fault locally and reports `Undetermined`.
#[derive(Debug)]
struct AlwaysFaultingRule;

impl AlwaysFaultingRule {
    fn faulting_probe(&self) -> Result<bool, String> {
        Err("external tool invocation failed".to_string())
    }
}

enum PluggedRule {
    Faulty(AlwaysFaultingRule),
    Stock(DefaultRule),
}

impl Rule for PluggedRule {
    // The two specification items below exist only for the verifier's
    // benefit; they are never reachable from running code.
    fn description_spec(&self) -> vstd::seq::Seq<char> {
        panic!()
    }

    fn outcome_spec(
        &self,
        _manifest_path: vstd::seq::Seq<char>,
        _metadata: Option<MetadataSnapshot>,
    ) -> RuleOutcome {
        panic!()
    }

    fn description(&self) -> &'static str {
        match self {
            PluggedRule::Faulty(_) => "Should run an external probe.",
            PluggedRule::Stock(rule) => rule.description(),
        }
    }

    fn evaluate(
        &self,
        manifest_path: &str,
        verbose: bool,
        metadata: &Option<MetadataSnapshot>,
        sink: &mut DiagnosticSink,
    ) -> RuleOutcome {
        match self {
            PluggedRule::Faulty(rule) => match rule.faulting_probe() {
                Ok(true) => RuleOutcome::Success,
                Ok(false) => RuleOutcome::Failure,
                Err(detail) => {
                    if verbose {
                        sink.write_line(&detail);
                    }
                    RuleOutcome::Undetermined
                }
            },
            PluggedRule::Stock(rule) => rule.evaluate(manifest_path, verbose, metadata, sink),
        }
    }
}

#[test]
fn default_rules_are_stable_and_uniquely_described() {
    let first = default_rules();
    let second = default_rules();
    assert_eq!(first.len(), 2);
    assert_eq!(first.len(), second.len());
    for (a, b) in first.iter().zip(second.iter()) {
        assert_eq!(a.description(), b.description());
    }
    for (i, a) in first.iter().enumerate() {
        for b in first.iter().skip(i + 1) {
            assert_ne!(a.description(), b.description());
        }
    }
}

#[test]
fn every_default_rule_description_is_nonempty() {
    for rule in default_rules() {
        assert!(!rule.description().is_empty());
    }
}

#[test]
fn evaluate_rules_reports_once_per_rule_in_registry_order() {
    let rules = default_rules();
    let reports = evaluate_rules(&rules, "project", false, &Some(conforming_snapshot()));
    assert_eq!(reports.len(), rules.len());
    for (report, rule) in reports.iter().zip(rules.iter()) {
        assert_eq!(report.description, rule.description());
        assert_eq!(report.outcome, RuleOutcome::Success);
    }
}

#[test]
fn evaluate_rules_degrades_to_absent_metadata_without_aborting() {
    let rules = default_rules();
    let reports = evaluate_rules(&rules, "project", true, &None);
    assert_eq!(reports.len(), 2);
    assert_eq!(reports[0].outcome, RuleOutcome::Failure);
    assert_eq!(reports[1].outcome, RuleOutcome::Undetermined);
}

#[test]
fn one_faulting_rule_does_not_disturb_the_others() {
    let rules = vec![
        PluggedRule::Stock(DefaultRule::MetadataReadable(CargoMetadataReadable::default())),
        PluggedRule::Faulty(AlwaysFaultingRule),
        PluggedRule::Stock(DefaultRule::PropertyBasedTesting(
            UsesPropertyBasedTestLibrary::default(),
        )),
    ];
    let reports = evaluate_rules(&rules, "project", true, &Some(conforming_snapshot()));
    assert_eq!(reports.len(), 3);
    assert_eq!(reports[0].outcome, RuleOutcome::Success);
    assert_eq!(reports[1].outcome, RuleOutcome::Undetermined);
    assert_eq!(reports[2].outcome, RuleOutcome::Success);
}

#[test]
fn verbosity_changes_only_the_volume_of_diagnostics() {
    let rule = UsesPropertyBasedTestLibrary::default();
    let outcomes = execute_rule_against_project_dir_all_verbosities("project", &rule, &None);
    assert_eq!(outcomes.verbose.outcome, outcomes.not_verbose.outcome);
    assert!(outcomes.verbose.print_output.len() >= outcomes.not_verbose.print_output.len());
    assert!(!outcomes.verbose.print_output.is_empty());
    assert!(outcomes.not_verbose.print_output.is_empty());
}
