//! Backups. Nothing is backed up yet: the service answers with fixed
//! values.

use crate::error::ServiceError;
use crate::strings::owned;
use vstd::prelude::*;

verus! {

/// The identifier that stands for a backup while none is made.
pub const BACKUP_PLACEHOLDER: &'static str = "backup-placeholder";

/// The backup service.
#[derive(Clone, Copy, Debug, PartialEq, Eq, Structural)]
pub struct BackupService;

impl BackupService {
    /// The backup service.
    pub fn new() -> (service: BackupService)
        ensures
            service == BackupService,
    {
        BackupService
    }

    /// The identifier of a new backup: for now always
    /// [`BACKUP_PLACEHOLDER`].
    pub fn create_backup(&self) -> (r: Result<String, ServiceError>)
        ensures
            r matches Ok(id) && id@ == BACKUP_PLACEHOLDER@,
    {
        Ok(owned(BACKUP_PLACEHOLDER))
    }

    /// Restores a backup: for now nothing happens, and that is a success.
    pub fn restore_backup(&self, _backup_id: &str) -> (r: Result<(), ServiceError>)
        ensures
            r is Ok,
    {
        Ok(())
    }
}

} // verus!
