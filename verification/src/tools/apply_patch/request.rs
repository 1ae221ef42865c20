//! What the tool is asked to do.

use crate::paths::path_parts;
use crate::text::copy_opt;
use vstd::prelude::*;

verus! {

/// An absolute path.
#[derive(Debug)]
pub struct AbsolutePathBuf {
    pub path: std::path::PathBuf,
}

impl Clone for AbsolutePathBuf {
    fn clone(&self) -> (r: AbsolutePathBuf)
        ensures
            r == *self,
    {
        AbsolutePathBuf { path: self.path.clone() }
    }
}

/// What a patch does to a file.
#[derive(Debug)]
pub enum ApplyPatchFileChange {
    Add { content: String },
    Delete { content: String },
    Update { unified_diff: String, move_path: Option<std::path::PathBuf>, new_content: String },
}

/// No path occurs twice, in whichever way it is written.
pub open spec fn paths_once<T>(changes: Seq<(std::path::PathBuf, T)>) -> bool {
    forall|i: int, j: int|
        0 <= i < j < changes.len() ==> path_parts((#[trigger] changes[i]).0) != path_parts(
            (#[trigger] changes[j]).0,
        )
}

/// A patch: what it does to which file, in no particular order, its text, and
/// the directory that it is applied in.
#[derive(Debug)]
pub struct ApplyPatchAction {
    pub changes: Vec<(std::path::PathBuf, ApplyPatchFileChange)>,
    pub patch: String,
    pub cwd: std::path::PathBuf,
}

impl ApplyPatchAction {
    /// The patch changes no file twice.
    pub open spec fn well_formed(self) -> bool {
        paths_once(self.changes@)
    }
}

/// What is shown of a change to whoever approves it.
#[derive(Debug)]
pub enum FileChange {
    Add { content: String },
    Delete { content: String },
    Update { unified_diff: String, move_path: Option<std::path::PathBuf> },
}

/// Whether running the tool needs approval.
#[derive(Debug)]
pub enum ExecApprovalRequirement {
    Skip { bypass_sandbox: bool },
    NeedsApproval(Option<String>),
    Forbidden(String),
}

impl Clone for ExecApprovalRequirement {
    fn clone(&self) -> (r: ExecApprovalRequirement)
        ensures
            r == *self,
    {
        match self {
            ExecApprovalRequirement::Skip { bypass_sandbox } => ExecApprovalRequirement::Skip {
                bypass_sandbox: *bypass_sandbox,
            },
            ExecApprovalRequirement::NeedsApproval(reason) =>
                ExecApprovalRequirement::NeedsApproval(copy_opt(reason)),
            ExecApprovalRequirement::Forbidden(reason) => ExecApprovalRequirement::Forbidden(
                reason.clone(),
            ),
        }
    }
}

/// What the command may do beyond the sandbox.
#[derive(Debug, Clone, Copy, PartialEq, Eq, Structural)]
pub enum SandboxPermissions {
    UseDefault,
    RequireEscalated,
    WithAdditionalPermissions,
}

/// Permissions that are granted in addition.
#[derive(Debug)]
pub struct PermissionProfile {
    pub network: Option<bool>,
    pub read: Vec<AbsolutePathBuf>,
    pub write: Vec<AbsolutePathBuf>,
}

/// What the tool is asked to do.
#[derive(Debug)]
pub struct ApplyPatchRequest {
    pub action: ApplyPatchAction,
    pub file_paths: Vec<AbsolutePathBuf>,
    pub changes: Vec<(std::path::PathBuf, FileChange)>,
    pub exec_approval_requirement: ExecApprovalRequirement,
    pub sandbox_permissions: SandboxPermissions,
    pub additional_permissions: Option<PermissionProfile>,
    pub permissions_preapproved: bool,
    pub timeout_ms: Option<u64>,
    pub codex_exe: Option<std::path::PathBuf>,
}

impl ApplyPatchRequest {
    /// Neither the patch nor what is shown of it changes a file twice.
    pub open spec fn well_formed(self) -> bool {
        self.action.well_formed() && paths_once(self.changes@)
    }
}

/// The tool that applies patches.
#[derive(Debug)]
pub struct ApplyPatchRuntime;

impl Default for ApplyPatchRuntime {
    fn default() -> (r: ApplyPatchRuntime)
        ensures
            r == ApplyPatchRuntime,
    {
        ApplyPatchRuntime
    }
}

impl ApplyPatchRuntime {
    /// The tool that applies patches.
    pub fn new() -> (r: ApplyPatchRuntime)
        ensures
            r == ApplyPatchRuntime,
    {
        ApplyPatchRuntime
    }
}

} // verus!
