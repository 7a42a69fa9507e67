//! Workspace management: a placeholder subsystem.
//!
//! Workspace, buffer and file-editing state is an external collaborator
//! of the control plane and not designed yet; the manager here only
//! reserves the seam.

use vstd::prelude::*;

verus! {

/// Errors of workspace operations.
pub enum WorkspaceError {
    /// No workspace of that name.
    NotFound(String),
    /// No buffer of that name.
    BufferNotFound(String),
    /// An I/O failure, described.
    Io(String),
}

impl WorkspaceError {
    /// The name or description the error carries.
    pub fn detail(&self) -> (r: &String)
        ensures
            (self matches WorkspaceError::NotFound(s) ==> r@ == s@),
            (self matches WorkspaceError::BufferNotFound(s) ==> r@ == s@),
            (self matches WorkspaceError::Io(s) ==> r@ == s@),
    {
        match self {
            WorkspaceError::NotFound(s) => s,
            WorkspaceError::BufferNotFound(s) => s,
            WorkspaceError::Io(s) => s,
        }
    }
}

/// Placeholder workspace manager; later work will track workspaces,
/// buffer lifecycles and indexing behind it.
pub struct WorkspaceManager {}

impl WorkspaceManager {
    /// A new workspace manager.
    pub fn new() -> (r: WorkspaceManager) {
        WorkspaceManager {  }
    }
}

impl Default for WorkspaceManager {
    /// Same as `new`.
    fn default() -> (r: WorkspaceManager) {
        WorkspaceManager::new()
    }
}

} // verus!
