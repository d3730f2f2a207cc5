//! The command surface, as far as it decides anything: what stands in for
//! arguments that a caller leaves out, and how failures read.

use crate::models::workspace::Workspace;
use crate::strings::owned;
use vstd::prelude::*;
use vstd::string::*;

verus! {

/// The page of a search where the caller names none.
pub const DEFAULT_PAGE: u32 = 1;

/// The size of a page of a search where the caller names none.
pub const DEFAULT_PAGE_SIZE: u32 = 9;

/// What a failure to make a document starts with.
pub const DOCUMENT_NOT_CREATED: &'static str = "创建文档失败: ";

/// What a caller is told who switches to a workspace that is not there.
pub const WORKSPACE_NOT_FOUND: &'static str = "Workspace not found";

/// The page and the size of a page that a search works with: what the
/// caller names, or else the first page and nine projects a page.
pub fn page_arguments(page: Option<u32>, page_size: Option<u32>) -> (r: (u32, u32))
    ensures
        r.0 == match page {
            Some(page) => page,
            None => DEFAULT_PAGE,
        },
        r.1 == match page_size {
            Some(page_size) => page_size,
            None => DEFAULT_PAGE_SIZE,
        },
{
    let page = match page {
        Some(page) => page,
        None => DEFAULT_PAGE,
    };
    let page_size = match page_size {
        Some(page_size) => page_size,
        None => DEFAULT_PAGE_SIZE,
    };
    (page, page_size)
}

/// What a caller is told when a document could not be made for the reason
/// `reason`.
pub fn document_creation_failure(reason: &str) -> (text: String)
    ensures
        text@ == DOCUMENT_NOT_CREATED@ + reason@,
{
    owned(DOCUMENT_NOT_CREATED).concat(reason)
}

/// The answer to a switch of workspace, given what the store holds under
/// the identifier: the workspace, or the failure that there is none.
pub fn switch_workspace(found: Option<Workspace>) -> (r: Result<Workspace, String>)
    ensures
        match found {
            Some(workspace) => r == Ok::<Workspace, String>(workspace),
            None => r matches Err(text) && text@ == WORKSPACE_NOT_FOUND@,
        },
{
    match found {
        Some(workspace) => Ok(workspace),
        None => Err(owned(WORKSPACE_NOT_FOUND)),
    }
}

} // verus!
