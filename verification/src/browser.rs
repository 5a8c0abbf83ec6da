//! Security-focused browser environment boundary.

use vstd::prelude::*;

verus! {

/// A browser to launch, and how.
#[derive(Debug, Clone)]
pub struct BrowserEnvironment {
    pub package: String,
    pub ephemeral: bool,
    pub extra_args: Vec<String>,
}

/// Something that launches browsers.
pub trait BrowserLauncher {
    fn launch(&self, env: &BrowserEnvironment) -> Result<(), String>;
}

} // verus!
