//! A rule that wants every package to declare a development dependency
//! on a property-based testing library.
//!
//! A dependency counts when its kind is `Development` and its name,
//! compared ASCII-case-insensitively, begins with one of the recognized
//! library names `proptest`, `quickcheck` or `suppositions`. Matching is
//! by prefix, so a name such as `proptest-derive` is accepted; this is a
//! fixed, documented policy of the rule.

use vstd::prelude::*;

use crate::metadata::MetadataSnapshot;
use crate::metadata::PackageInfo;
use crate::outcome::RuleOutcome;
use crate::rules::Rule;
use crate::sink::DiagnosticSink;

verus! {

/// Maps an ASCII upper-case letter to its lower-case form and leaves
/// every other character unchanged.
pub open spec fn ascii_lower(c: char) -> char {
    if c == 'A' {
        'a'
    } else if c == 'B' {
        'b'
    } else if c == 'C' {
        'c'
    } else if c == 'D' {
        'd'
    } else if c == 'E' {
        'e'
    } else if c == 'F' {
        'f'
    } else if c == 'G' {
        'g'
    } else if c == 'H' {
        'h'
    } else if c == 'I' {
        'i'
    } else if c == 'J' {
        'j'
    } else if c == 'K' {
        'k'
    } else if c == 'L' {
        'l'
    } else if c == 'M' {
        'm'
    } else if c == 'N' {
        'n'
    } else if c == 'O' {
        'o'
    } else if c == 'P' {
        'p'
    } else if c == 'Q' {
        'q'
    } else if c == 'R' {
        'r'
    } else if c == 'S' {
        's'
    } else if c == 'T' {
        't'
    } else if c == 'U' {
        'u'
    } else if c == 'V' {
        'v'
    } else if c == 'W' {
        'w'
    } else if c == 'X' {
        'x'
    } else if c == 'Y' {
        'y'
    } else if c == 'Z' {
        'z'
    } else {
        c
    }
}

/// `pattern` is a prefix of `name` when both are folded with
/// [`ascii_lower`] character by character.
pub open spec fn is_prefix_ignoring_ascii_case(pattern: Seq<char>, name: Seq<char>) -> bool {
    pattern.len() <= name.len() && forall|i: int|
        0 <= i < pattern.len() ==> ascii_lower(name[i]) == ascii_lower(pattern[i])
}

/// The fixed family of recognized property-based testing library names:
/// `name` begins, ASCII-case-insensitively, with one of the alternatives.
pub open spec fn recognized_property_test_name(name: Seq<char>) -> bool {
    ||| is_prefix_ignoring_ascii_case("proptest"@, name)
    ||| is_prefix_ignoring_ascii_case("quickcheck"@, name)
    ||| is_prefix_ignoring_ascii_case("suppositions"@, name)
}

/// The package declares at least one development dependency whose name
/// is recognized by [`recognized_property_test_name`].
pub open spec fn package_declares_property_test_dep(package: PackageInfo) -> bool {
    exists|i: int|
        0 <= i < package.dependencies@.len()
            && (#[trigger] package.dependencies@[i]).kind is Development
            && recognized_property_test_name(package.dependencies@[i].name@)
}

/// The outcome of the property-based-testing rule: `Undetermined`
/// without metadata or with an empty package list, `Success` when every
/// package declares a recognized development dependency, `Failure`
/// otherwise.
pub open spec fn property_test_outcome(metadata: Option<MetadataSnapshot>) -> RuleOutcome {
    match metadata {
        Option::None => RuleOutcome::Undetermined,
        Option::Some(snapshot) => if snapshot.packages@.len() == 0 {
            RuleOutcome::Undetermined
        } else if forall|i: int|
            0 <= i < snapshot.packages@.len() ==> package_declares_property_test_dep(
                #[trigger] snapshot.packages@[i],
            ) {
            RuleOutcome::Success
        } else {
            RuleOutcome::Failure
        },
    }
}

fn lower_char(c: char) -> (folded: char)
    ensures
        folded == ascii_lower(c),
{
    match c {
        'A' => 'a',
        'B' => 'b',
        'C' => 'c',
        'D' => 'd',
        'E' => 'e',
        'F' => 'f',
        'G' => 'g',
        'H' => 'h',
        'I' => 'i',
        'J' => 'j',
        'K' => 'k',
        'L' => 'l',
        'M' => 'm',
        'N' => 'n',
        'O' => 'o',
        'P' => 'p',
        'Q' => 'q',
        'R' => 'r',
        'S' => 's',
        'T' => 't',
        'U' => 'u',
        'V' => 'v',
        'W' => 'w',
        'X' => 'x',
        'Y' => 'y',
        'Z' => 'z',
        _ => c,
    }
}

fn starts_with_ignoring_ascii_case(name: &str, pattern: &str) -> (matched: bool)
    ensures
        matched == is_prefix_ignoring_ascii_case(pattern@, name@),
{
    let pattern_len = pattern.unicode_len();
    if pattern_len > name.unicode_len() {
        return false;
    }
    let mut i: usize = 0;
    while i < pattern_len
        invariant
            i <= pattern_len,
            pattern_len == pattern@.len(),
            pattern_len <= name@.len(),
            forall|j: int| 0 <= j < i ==> ascii_lower(name@[j]) == ascii_lower(pattern@[j]),
        decreases pattern_len - i,
    {
        if lower_char(name.get_char(i)) != lower_char(pattern.get_char(i)) {
            return false;
        }
        i += 1;
    }
    true
}

/// Does `name` begin, ASCII-case-insensitively, with one of the
/// recognized property-based testing library names?
pub fn is_recognized_property_test_name(name: &str) -> (recognized: bool)
    ensures
        recognized == recognized_property_test_name(name@),
{
    ||| starts_with_ignoring_ascii_case(name, "proptest")
    ||| starts_with_ignoring_ascii_case(name, "quickcheck")
    ||| starts_with_ignoring_ascii_case(name, "suppositions")
}

/// Does `package` declare a development dependency on a recognized
/// property-based testing library?
pub fn package_declares_property_test_dependency(package: &PackageInfo) -> (declares: bool)
    ensures
        declares == package_declares_property_test_dep(*package),
{
    let mut i: usize = 0;
    while i < package.dependencies.len()
        invariant
            i <= package.dependencies@.len(),
            forall|j: int|
                0 <= j < i ==> !((#[trigger] package.dependencies@[j]).kind is Development
                    && recognized_property_test_name(package.dependencies@[j].name@)),
        decreases package.dependencies@.len() - i,
    {
        let dep = &package.dependencies[i];
        let is_development = match dep.kind {
            crate::metadata::DependencyKind::Development => true,
            _ => false,
        };
        if is_development && is_recognized_property_test_name(dep.name.as_str()) {
            return true;
        }
        i += 1;
    }
    false
}

/// The rule that every package should make an effort to use property
/// based tests, witnessed by a development dependency on a recognized
/// property-based testing library.
#[derive(Clone, Copy, Debug, PartialEq, Eq, Structural)]
pub struct UsesPropertyBasedTestLibrary;

impl Default for UsesPropertyBasedTestLibrary {
    /// The rule carries no configuration; its default is itself.
    fn default() -> (rule: UsesPropertyBasedTestLibrary)
        ensures
            rule == (UsesPropertyBasedTestLibrary {  }),
    {
        UsesPropertyBasedTestLibrary {  }
    }
}

impl Rule for UsesPropertyBasedTestLibrary {
    open spec fn description_spec(&self) -> Seq<char> {
        "Should be making an effort to use property based tests."@
    }

    open spec fn outcome_spec(&self, manifest_path: Seq<char>, metadata: Option<MetadataSnapshot>) -> RuleOutcome {
        property_test_outcome(metadata)
    }

    fn description(&self) -> (text: &'static str) {
        proof {
            reveal_strlit("Should be making an effort to use property based tests.");
        }
        "Should be making an effort to use property based tests."
    }

    #[verifier::loop_isolation(false)]
    fn evaluate(
        &self,
        _manifest_path: &str,
        verbose: bool,
        metadata: &Option<MetadataSnapshot>,
        sink: &mut DiagnosticSink,
    ) -> (outcome: RuleOutcome) {
        match metadata {
            Option::None => {
                if verbose {
                    sink.write_line("no manifest metadata available to inspect dependencies");
                }
                RuleOutcome::Undetermined
            },
            Option::Some(snapshot) => {
                if snapshot.packages.len() == 0 {
                    if verbose {
                        sink.write_line("metadata declares no packages to inspect");
                    }
                    return RuleOutcome::Undetermined;
                }
                let mut k: usize = 0;
                while k < snapshot.packages.len()
                    invariant
                        k <= snapshot.packages@.len(),
                        sink@ == old(sink)@,
                        forall|i: int|
                            0 <= i < k ==> package_declares_property_test_dep(
                                #[trigger] snapshot.packages@[i],
                            ),
                    decreases snapshot.packages@.len() - k,
                {
                    if !package_declares_property_test_dependency(&snapshot.packages[k]) {
                        if verbose {
                            sink.write_line("found a package without a recognized property testing development dependency");
                        }
                        return RuleOutcome::Failure;
                    }
                    k += 1;
                }
                RuleOutcome::Success
            },
        }
    }
}

/// Without manifest metadata this rule cannot inspect any dependencies,
/// so it reports `Undetermined` for every manifest path.
pub proof fn lemma_no_metadata_is_undetermined(
    rule: UsesPropertyBasedTestLibrary,
    manifest_path: Seq<char>,
)
    ensures
        rule.outcome_spec(manifest_path, Option::None) is Undetermined,
{
}

} // verus!
