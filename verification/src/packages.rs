//! Package and package-manager configuration boundary.

use vstd::prelude::*;

verus! {

/// What to do with packages.
#[derive(Debug, Clone)]
pub enum PackageAction {
    Install,
    Remove,
    Upgrade,
}

/// A request to a package manager.
#[derive(Debug, Clone)]
pub struct PackageRequest {
    pub action: PackageAction,
    pub packages: Vec<String>,
}

/// A package manager that plans requests as commands.
pub trait PackageManager {
    fn name(&self) -> &str;

    fn plan(&self, request: &PackageRequest) -> Result<Vec<String>, String>;
}

} // verus!
