//! Configuration verification primitives.

use vstd::prelude::*;

verus! {

/// The result of checking one control.
#[derive(Debug, Clone)]
pub struct CheckResult {
    pub control: String,
    pub passed: bool,
    pub detail: String,
}

/// Something that checks a configuration.
pub trait Verifier {
    fn verify(&self) -> Result<Vec<CheckResult>, String>;
}

} // verus!
