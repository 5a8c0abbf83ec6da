//! System recovery, backup and rollback boundary.

use vstd::prelude::*;

verus! {

/// A backup to make.
#[derive(Debug, Clone)]
pub struct Backup {
    pub source: String,
    pub destination: String,
    pub compressed: bool,
}

/// Something that backs up, restores and rolls back.
pub trait RecoveryManager {
    fn backup(&self, request: &Backup) -> Result<(), String>;

    fn restore(&self, backup: &str) -> Result<(), String>;

    fn rollback(&self) -> Result<(), String>;
}

} // verus!
