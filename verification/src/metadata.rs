//! A plain, already-parsed snapshot of a project's manifest metadata.
//!
//! Resolving and parsing the manifest is the caller's business (it is an
//! external service from this framework's point of view); what arrives
//! here is an optional, read-only snapshot of the declared packages and
//! their dependencies. Absence of the snapshot models an upstream parse
//! or resolution failure and is an input every rule must tolerate.

use vstd::prelude::*;

verus! {

/// The scope a dependency is declared under.
#[derive(Clone, Copy, Debug, PartialEq, Eq, Structural)]
pub enum DependencyKind {
    /// An ordinary (runtime) dependency.
    Normal,
    /// A dependency used only while developing and testing.
    Development,
    /// A dependency of build scripts.
    Build,
}

/// One declared dependency of a package.
#[derive(Clone, Debug)]
pub struct DependencyInfo {
    /// The dependency's package name.
    pub name: String,
    /// The declared version requirement, kept verbatim.
    pub requirement: String,
    /// The scope the dependency is declared under.
    pub kind: DependencyKind,
}

/// One declared package and its dependencies, in declaration order.
#[derive(Clone, Debug)]
pub struct PackageInfo {
    /// The package's name.
    pub name: String,
    /// The package's declared dependencies, in declaration order.
    pub dependencies: Vec<DependencyInfo>,
}

/// An already-parsed view of a project's manifest metadata: the declared
/// packages, in declaration order.
#[derive(Clone, Debug)]
pub struct MetadataSnapshot {
    /// Every package the project declares.
    pub packages: Vec<PackageInfo>,
}

} // verus!
