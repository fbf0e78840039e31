//! The backend that the planner and the executor consume.

use vstd::prelude::*;
use crate::package_key::PackageKey;
use crate::transaction::{PackageDependencyError, PackageStatus, PackageStatusError};
use crate::transaction::install::InstallError;
use crate::transaction::uninstall::UninstallError;

verus! {

/// Scope in which an install or an uninstall takes effect.
#[derive(Debug, Clone, Copy, PartialEq, Eq, Hash, Structural)]
pub enum InstallTarget {
    System,
    User,
}

impl InstallTarget {
    /// The name of the scope.
    pub open spec fn name(self) -> Seq<char> {
        match self {
            InstallTarget::System => "System"@,
            InstallTarget::User => "User"@,
        }
    }

    /// The name of the scope, as it is printed for inspection.
    pub fn debug_string(&self) -> (text: String)
        ensures
            text@ == self.name(),
    {
        match self {
            InstallTarget::System => "System".to_owned(),
            InstallTarget::User => "User".to_owned(),
        }
    }
}

/// A package backend: it knows the packages of the configured repositories,
/// can tell what is installed, and installs and uninstalls.
///
/// Nothing is promised about what an implementation answers. The planner and
/// the executor are verified for every answer.
pub trait PackageStore {
    /// The record that the store keeps of a package.
    type Package;

    /// The record of the package named `key`, or `None` when no configured
    /// repository knows the key.
    fn find_package_by_key(&self, key: &PackageKey) -> Option<Self::Package>;

    /// Everything that has to be installed for `package` to work under
    /// `target`: the transitive closure of its declared dependencies, in no
    /// particular order.
    fn find_package_dependencies(
        &self,
        key: &PackageKey,
        package: &Self::Package,
        target: &InstallTarget,
    ) -> Result<Vec<(PackageKey, Self::Package)>, PackageDependencyError>;

    /// Whether the package is installed under `target`, and up to date.
    fn status(&self, key: &PackageKey, target: InstallTarget) -> Result<
        PackageStatus,
        PackageStatusError,
    >;

    /// Installs the package under `target`. May block for long.
    fn install(&self, key: &PackageKey, target: InstallTarget) -> Result<(), InstallError>;

    /// Uninstalls the package from `target`. May block for long.
    fn uninstall(&self, key: &PackageKey, target: InstallTarget) -> Result<(), UninstallError>;
}

} // verus!
