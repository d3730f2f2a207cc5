//! The command-line companion. Nothing talks to it yet: the service
//! answers with fixed values.

use crate::error::ServiceError;
use vstd::prelude::*;

verus! {

/// The service for the command-line companion.
#[derive(Clone, Copy, Debug, PartialEq, Eq, Structural)]
pub struct WriteFlowService;

impl WriteFlowService {
    /// The service for the command-line companion.
    pub fn new() -> (service: WriteFlowService)
        ensures
            service == WriteFlowService,
    {
        WriteFlowService
    }

    /// Whether the companion is installed: for now it never is.
    pub fn check_cli_installation(&self) -> (r: Result<bool, ServiceError>)
        ensures
            r == Ok::<bool, ServiceError>(false),
    {
        Ok(false)
    }

    /// Installs the companion: for now nothing happens, and that is a
    /// success.
    pub fn install_cli(&self) -> (r: Result<(), ServiceError>)
        ensures
            r is Ok,
    {
        Ok(())
    }

    /// Brings a project in step with the companion: for now nothing
    /// happens, and that is a success.
    pub fn sync_project(&self, _project_id: &str) -> (r: Result<(), ServiceError>)
        ensures
            r is Ok,
    {
        Ok(())
    }
}

} // verus!
