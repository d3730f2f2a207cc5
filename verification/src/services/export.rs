//! Export of documents. Nothing is exported yet: the service answers with
//! empty results.

use crate::error::ServiceError;
use vstd::prelude::*;

verus! {

/// The export service.
#[derive(Clone, Copy, Debug, PartialEq, Eq, Structural)]
pub struct ExportService;

impl ExportService {
    /// The export service.
    pub fn new() -> (service: ExportService)
        ensures
            service == ExportService,
    {
        ExportService
    }

    /// The PDF of `content`: for now no bytes at all.
    pub fn export_to_pdf(&self, _content: &str) -> (r: Result<Vec<u8>, ServiceError>)
        ensures
            r matches Ok(bytes) && bytes@.len() == 0,
    {
        Ok(Vec::new())
    }

    /// The HTML of `content`: for now the empty text.
    pub fn export_to_html(&self, _content: &str) -> (r: Result<String, ServiceError>)
        ensures
            r matches Ok(html) && html@.len() == 0,
    {
        Ok(String::new())
    }

    /// The Markdown of `content`: for now the empty text.
    pub fn export_to_markdown(&self, _content: &str) -> (r: Result<String, ServiceError>)
        ensures
            r matches Ok(markdown) && markdown@.len() == 0,
    {
        Ok(String::new())
    }
}

} // verus!
