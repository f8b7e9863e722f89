//! The rule capability and the default rule set.
//!
//! A rule is an identity-bearing, immutable check: it exposes a
//! human-readable description that doubles as its identity, and an
//! `evaluate` operation that inspects a project and produces a tri-state
//! [`RuleOutcome`]. The framework treats every rule identically,
//! whatever its internal mechanism.

pub mod cargo_metadata_readable;
pub mod uses_property_based_test_library;

use vstd::prelude::*;

use crate::metadata::MetadataSnapshot;
use crate::outcome::RuleOutcome;
use crate::sink::DiagnosticSink;

pub use cargo_metadata_readable::CargoMetadataReadable;
pub use uses_property_based_test_library::UsesPropertyBasedTestLibrary;

verus! {

/// A best-practice check that a project either upholds or does not.
///
/// Every rule is pure with respect to its declared inputs: the outcome
/// of `evaluate` is fixed by the rule itself, the manifest path and the
/// metadata snapshot, as `outcome_spec` states. In particular the
/// verbose flag and the diagnostic sink never influence the outcome,
/// only the volume of diagnostic text written, and evaluating the same
/// rule twice against the same inputs yields the same outcome. A rule
/// must not fault out of `evaluate`: whatever goes wrong internally is
/// reported as `RuleOutcome::Undetermined`, never as an abrupt failure.
pub trait Rule: Sized {
    /// The rule's description, as the sequence of characters that
    /// `description` returns. It depends on the rule alone.
    spec fn description_spec(&self) -> Seq<char>;

    /// The outcome the rule produces for a given manifest path and
    /// metadata snapshot. `evaluate` is pinned to this value.
    spec fn outcome_spec(&self, manifest_path: Seq<char>, metadata: Option<MetadataSnapshot>) -> RuleOutcome;

    /// The central tenet of this rule: a human-readable, non-empty
    /// summary that also serves as the rule's unique, call-stable
    /// identity within a rule set.
    fn description(&self) -> (text: &'static str)
        ensures
            text@ == self.description_spec(),
            self.description_spec().len() > 0,
    ;

    /// Does the project whose manifest lives at `manifest_path` uphold
    /// this rule? Pre-parsed manifest `metadata` may be available, and
    /// supplemental human-readable detail may be written to `sink`,
    /// typically only when `verbose` is set.
    fn evaluate(
        &self,
        manifest_path: &str,
        verbose: bool,
        metadata: &Option<MetadataSnapshot>,
        sink: &mut DiagnosticSink,
    ) -> (outcome: RuleOutcome)
        ensures
            outcome == self.outcome_spec(manifest_path@, *metadata),
            old(sink)@.is_prefix_of(final(sink)@),
    ;
}

/// One rule of the out-of-the-box set, as a closed choice of kinds.
///
/// The default policy is fixed at compile time, so the registry holds a
/// sum of the concrete rule types rather than an open collection; the
/// framework still reaches every variant only through the shared
/// [`Rule`] capability.
#[derive(Clone, Copy, Debug, PartialEq, Eq, Structural)]
pub enum DefaultRule {
    /// The manifest-readability check.
    MetadataReadable(CargoMetadataReadable),
    /// The property-based-testing dependency check.
    PropertyBasedTesting(UsesPropertyBasedTestLibrary),
}

impl Rule for DefaultRule {
    open spec fn description_spec(&self) -> Seq<char> {
        match self {
            DefaultRule::MetadataReadable(rule) => rule.description_spec(),
            DefaultRule::PropertyBasedTesting(rule) => rule.description_spec(),
        }
    }

    open spec fn outcome_spec(&self, manifest_path: Seq<char>, metadata: Option<MetadataSnapshot>) -> RuleOutcome {
        match self {
            DefaultRule::MetadataReadable(rule) => rule.outcome_spec(manifest_path, metadata),
            DefaultRule::PropertyBasedTesting(rule) => rule.outcome_spec(manifest_path, metadata),
        }
    }

    fn description(&self) -> (text: &'static str) {
        match self {
            DefaultRule::MetadataReadable(rule) => rule.description(),
            DefaultRule::PropertyBasedTesting(rule) => rule.description(),
        }
    }

    fn evaluate(
        &self,
        manifest_path: &str,
        verbose: bool,
        metadata: &Option<MetadataSnapshot>,
        sink: &mut DiagnosticSink,
    ) -> (outcome: RuleOutcome) {
        match self {
            DefaultRule::MetadataReadable(rule) => rule.evaluate(
                manifest_path,
                verbose,
                metadata,
                sink,
            ),
            DefaultRule::PropertyBasedTesting(rule) => rule.evaluate(
                manifest_path,
                verbose,
                metadata,
                sink,
            ),
        }
    }
}

/// Every description in the rule set names a different rule: the
/// description doubles as the rule's identity, so the registry keeps
/// them pairwise distinct.
pub open spec fn descriptions_distinct<R: Rule>(rules: Seq<R>) -> bool {
    forall|i: int, j: int|
        0 <= i < j < rules.len() ==> (#[trigger] rules[i]).description_spec()
            != (#[trigger] rules[j]).description_spec()
}

/// The out-of-the-box rule set, in a fixed order chosen for stable,
/// reproducible reporting. Construction is total, the instances share no
/// state, and their descriptions are pairwise distinct.
pub fn default_rules() -> (rules: Vec<DefaultRule>)
    ensures
        rules@.len() == 2,
        rules@[0] is MetadataReadable,
        rules@[1] is PropertyBasedTesting,
        descriptions_distinct(rules@),
{
    let rules = vec![
        DefaultRule::MetadataReadable(CargoMetadataReadable::default()),
        DefaultRule::PropertyBasedTesting(UsesPropertyBasedTestLibrary::default()),
    ];
    proof {
        reveal_strlit("Should have a well-formed Cargo.toml file readable by `cargo metadata`");
        reveal_strlit("Should be making an effort to use property based tests.");
        assert(rules@[0].description_spec().len() != rules@[1].description_spec().len());
    }
    rules
}

/// Evaluating a rule is idempotent: the outcome is a function of the
/// rule and its declared inputs alone, so any two outcomes that
/// `evaluate`'s contract admits for the same rule, manifest path and
/// metadata are equal.
pub proof fn lemma_evaluation_idempotent<R: Rule>(
    rule: &R,
    manifest_path: Seq<char>,
    metadata: Option<MetadataSnapshot>,
    first: RuleOutcome,
    second: RuleOutcome,
)
    requires
        first == rule.outcome_spec(manifest_path, metadata),
        second == rule.outcome_spec(manifest_path, metadata),
    ensures
        first == second,
{
}

} // verus!
