//! The tri-state result of evaluating a single rule.

use vstd::prelude::*;

verus! {

/// The result of evaluating one rule against one project.
///
/// This is deliberately a flat, three-valued enum rather than a
/// `Result<bool, _>`: a `Failure` is an expected, non-anomalous terminal
/// value meaning the rule's condition was checked and found not to hold,
/// and it must never be conflated with `Undetermined`, which means the
/// check could not be carried out at all.
#[derive(Clone, Debug, PartialEq, Eq, Structural)]
pub enum RuleOutcome {
    /// The rule's description is definitely upheld by the project.
    Success,
    /// The rule's description is definitely not upheld by the project.
    Failure,
    /// The evaluation lacked the information needed to decide either way,
    /// for example because no manifest metadata was available.
    Undetermined,
}

} // verus!
