//! A rule that wants the project's manifest to be readable as parsed
//! metadata at all.
//!
//! Whether metadata could be obtained is exactly the information this
//! rule checks, so an absent snapshot is a definite `Failure` here, not
//! an `Undetermined`: the upstream resolution already told us the
//! manifest could not be read.

use vstd::prelude::*;

use crate::metadata::MetadataSnapshot;
use crate::outcome::RuleOutcome;
use crate::rules::Rule;
use crate::sink::DiagnosticSink;

verus! {

/// The outcome of the metadata-readability rule: `Success` exactly when
/// a metadata snapshot is present.
pub open spec fn metadata_readable_outcome(metadata: Option<MetadataSnapshot>) -> RuleOutcome {
    match metadata {
        Option::None => RuleOutcome::Failure,
        Option::Some(_) => RuleOutcome::Success,
    }
}

/// The rule that a project should have a well-formed manifest from which
/// metadata can be parsed.
#[derive(Clone, Copy, Debug, PartialEq, Eq, Structural)]
pub struct CargoMetadataReadable;

impl Default for CargoMetadataReadable {
    /// The rule carries no configuration; its default is itself.
    fn default() -> (rule: CargoMetadataReadable)
        ensures
            rule == (CargoMetadataReadable {  }),
    {
        CargoMetadataReadable {  }
    }
}

impl Rule for CargoMetadataReadable {
    open spec fn description_spec(&self) -> Seq<char> {
        "Should have a well-formed Cargo.toml file readable by `cargo metadata`"@
    }

    open spec fn outcome_spec(&self, manifest_path: Seq<char>, metadata: Option<MetadataSnapshot>) -> RuleOutcome {
        metadata_readable_outcome(metadata)
    }

    fn description(&self) -> (text: &'static str) {
        proof {
            reveal_strlit("Should have a well-formed Cargo.toml file readable by `cargo metadata`");
        }
        "Should have a well-formed Cargo.toml file readable by `cargo metadata`"
    }

    fn evaluate(
        &self,
        _manifest_path: &str,
        verbose: bool,
        metadata: &Option<MetadataSnapshot>,
        sink: &mut DiagnosticSink,
    ) -> (outcome: RuleOutcome) {
        match metadata {
            Option::None => {
                if verbose {
                    sink.write_line("no parsed metadata was supplied for the manifest");
                }
                RuleOutcome::Failure
            },
            Option::Some(_) => RuleOutcome::Success,
        }
    }
}

} // verus!
