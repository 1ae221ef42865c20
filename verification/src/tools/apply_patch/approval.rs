//! Who is asked whether a patch may be applied, and what the tool wants of the
//! sandbox.

use crate::text::copy_opt;
use crate::tools::apply_patch::request::paths_once;
use crate::tools::apply_patch::request::AbsolutePathBuf;
use crate::tools::apply_patch::request::ApplyPatchRequest;
use crate::tools::apply_patch::request::ApplyPatchRuntime;
use crate::tools::apply_patch::request::ExecApprovalRequirement;
use crate::tools::apply_patch::request::FileChange;
use vstd::prelude::*;

verus! {

/// The name under which approvals of the tool are remembered.
pub const APPLY_PATCH_APPROVALS: &'static str = "apply_patch";

/// What the guardian is asked to review.
#[derive(Debug)]
pub enum GuardianApprovalRequest {
    ApplyPatch {
        id: String,
        cwd: std::path::PathBuf,
        files: Vec<AbsolutePathBuf>,
        change_count: usize,
        patch: String,
    },
}

/// What the user is asked to approve.
#[derive(Debug)]
pub struct PatchApproval<'a> {
    pub call_id: String,
    pub changes: &'a Vec<(std::path::PathBuf, FileChange)>,
    pub reason: Option<String>,
    pub grant_root: Option<std::path::PathBuf>,
}

/// How the approval of a patch begins.
#[derive(Debug)]
pub enum ApprovalStart<'a> {
    /// The guardian reviews the patch.
    Review { action: GuardianApprovalRequest, retry_reason: Option<String> },
    /// The patch is approved.
    Approved,
    /// The user is asked.
    Ask(PatchApproval<'a>),
    /// The user is asked unless approvals remembered under `tool` cover every
    /// one of the keys.
    AskUnlessCached { tool: String, keys: Vec<AbsolutePathBuf>, approval: PatchApproval<'a> },
}

/// The circumstances of an approval.
#[derive(Debug)]
pub struct ApprovalContext {
    pub call_id: String,
    /// Why the tool is run again, where it is.
    pub retry_reason: Option<String>,
    /// Approvals go to the guardian.
    pub guarded: bool,
}

/// The guardian is asked to review exactly the patch of the request.
pub open spec fn reviews(
    action: GuardianApprovalRequest,
    request: ApplyPatchRequest,
    call_id: Seq<char>,
) -> bool {
    match action {
        GuardianApprovalRequest::ApplyPatch { id, cwd, files, change_count, patch } => {
            &&& id@ == call_id
            &&& cwd == request.action.cwd
            &&& files@ == request.file_paths@
            &&& change_count == request.changes@.len()
            &&& patch@ == request.action.patch@
        },
    }
}

/// The user is asked to approve exactly the changes of the request.
pub open spec fn asks_for(
    approval: PatchApproval,
    request: ApplyPatchRequest,
    call_id: Seq<char>,
    reason: Option<String>,
) -> bool {
    &&& approval.call_id@ == call_id
    &&& *approval.changes == request.changes
    &&& approval.reason == reason
    &&& approval.grant_root is None
}

/// The user is not asked about a file twice.
pub proof fn approvals_name_no_file_twice(
    approval: PatchApproval,
    request: ApplyPatchRequest,
    call_id: Seq<char>,
    reason: Option<String>,
)
    requires
        asks_for(approval, request, call_id, reason),
        request.well_formed(),
    ensures
        paths_once(approval.changes@),
{
}

/// When the user is asked for approval, by policy.
#[derive(Debug, Clone, Copy, PartialEq, Eq, Structural)]
pub enum AskForApproval {
    Never,
    Granular(GranularApprovalConfig),
    OnFailure,
    OnRequest,
    UnlessTrusted,
}

/// What the user may be asked for, where that is set one by one.
#[derive(Debug, Clone, Copy, PartialEq, Eq, Structural)]
pub struct GranularApprovalConfig {
    pub sandbox_approval: bool,
}

impl GranularApprovalConfig {
    /// The user may be asked to leave the sandbox.
    pub fn allows_sandbox_approval(&self) -> (r: bool)
        ensures
            r == self.sandbox_approval,
    {
        self.sandbox_approval
    }
}

/// Whether a tool is to run in the sandbox.
#[derive(Debug, Clone, Copy, PartialEq, Eq, Structural)]
pub enum SandboxablePreference {
    Auto,
}

/// Where the output of a command is reported while it runs.
#[derive(Debug)]
pub struct StdoutStream {
    pub sub_id: String,
    pub call_id: String,
}

/// A copy of a list of paths.
pub fn copy_paths(paths: &Vec<AbsolutePathBuf>) -> (r: Vec<AbsolutePathBuf>)
    ensures
        r@ == paths@,
{
    let r = paths.clone();
    assert(r@ == paths@);
    r
}

impl ApplyPatchRuntime {
    /// What the guardian is asked to review of a request.
    pub fn build_guardian_review_request(req: &ApplyPatchRequest, call_id: &str) -> (r:
        GuardianApprovalRequest)
        ensures
            reviews(r, *req, call_id@),
    {
        GuardianApprovalRequest::ApplyPatch {
            id: call_id.to_owned(),
            cwd: req.action.cwd.clone(),
            files: copy_paths(&req.file_paths),
            change_count: req.changes.len(),
            patch: req.action.patch.clone(),
        }
    }

    /// Approval is given for each file by itself.
    pub fn approval_keys(&self, req: &ApplyPatchRequest) -> (r: Vec<AbsolutePathBuf>)
        ensures
            r@ == req.file_paths@,
    {
        copy_paths(&req.file_paths)
    }

    /// Begins the approval of a patch. Where the guardian watches, it reviews
    /// the patch. Else a patch that is approved already is approved, unless it
    /// is tried again; one that is tried again is put to the user with the
    /// reason; and any other is put to the user unless every file of it was
    /// approved before.
    pub fn start_approval<'a>(&self, req: &'a ApplyPatchRequest, ctx: &ApprovalContext) -> (r:
        ApprovalStart<'a>)
        ensures
            ctx.guarded ==> (r matches ApprovalStart::Review { action, retry_reason } && reviews(
                action,
                *req,
                ctx.call_id@,
            ) && retry_reason == ctx.retry_reason),
            !ctx.guarded && ctx.retry_reason is Some ==> (r matches ApprovalStart::Ask(approval)
                && asks_for(approval, *req, ctx.call_id@, ctx.retry_reason)),
            !ctx.guarded && ctx.retry_reason is None && req.permissions_preapproved
                ==> r is Approved,
            !ctx.guarded && ctx.retry_reason is None && !req.permissions_preapproved ==> (
            r matches ApprovalStart::AskUnlessCached { tool, keys, approval } && tool@
                == APPLY_PATCH_APPROVALS@ && keys@ == req.file_paths@ && asks_for(
                approval,
                *req,
                ctx.call_id@,
                None,
            )),
    {
        let retry_reason = copy_opt(&ctx.retry_reason);
        if ctx.guarded {
            let action = ApplyPatchRuntime::build_guardian_review_request(
                req,
                ctx.call_id.as_str(),
            );
            return ApprovalStart::Review { action, retry_reason };
        }
        if req.permissions_preapproved && retry_reason.is_none() {
            return ApprovalStart::Approved;
        }
        let retried = retry_reason.is_some();
        let approval = PatchApproval {
            call_id: ctx.call_id.clone(),
            changes: &req.changes,
            reason: retry_reason,
            grant_root: None,
        };
        if retried {
            ApprovalStart::Ask(approval)
        } else {
            ApprovalStart::AskUnlessCached {
                tool: APPLY_PATCH_APPROVALS.to_owned(),
                keys: self.approval_keys(req),
                approval,
            }
        }
    }

    /// Whether the user is asked before the tool leaves the sandbox.
    pub fn wants_no_sandbox_approval(&self, policy: AskForApproval) -> (r: bool)
        ensures
            r == (match policy {
                AskForApproval::Never => false,
                AskForApproval::Granular(config) => config.sandbox_approval,
                _ => true,
            }),
    {
        match policy {
            AskForApproval::Never => false,
            AskForApproval::Granular(config) => config.allows_sandbox_approval(),
            AskForApproval::OnFailure => true,
            AskForApproval::OnRequest => true,
            AskForApproval::UnlessTrusted => true,
        }
    }

    /// Whether a patch needs approval was settled before, and stays as it was
    /// settled.
    pub fn exec_approval_requirement(&self, req: &ApplyPatchRequest) -> (r: Option<
        ExecApprovalRequirement,
    >)
        ensures
            r == Some(req.exec_approval_requirement),
    {
        Some(req.exec_approval_requirement.clone())
    }

    /// The sandbox is chosen as for any other tool.
    pub fn sandbox_preference(&self) -> (r: SandboxablePreference)
        ensures
            r == SandboxablePreference::Auto,
    {
        SandboxablePreference::Auto
    }

    /// A patch that fails in the sandbox may be tried outside.
    pub fn escalate_on_failure(&self) -> (r: bool)
        ensures
            r,
    {
        true
    }

    /// The output of the command is reported under the turn and the call.
    pub fn stdout_stream(sub_id: &str, call_id: &str) -> (r: Option<StdoutStream>)
        ensures
            r matches Some(stream) && stream.sub_id@ == sub_id@ && stream.call_id@ == call_id@,
    {
        Some(StdoutStream { sub_id: sub_id.to_owned(), call_id: call_id.to_owned() })
    }
}

/// Whoever is asked is asked about the patch of the request, all of it and
/// nothing else: the guardian about its text, its directory, its files and how
/// many changes there are, and the user about its changes.
pub proof fn approvals_are_about_the_whole_patch(
    action: GuardianApprovalRequest,
    approval: PatchApproval,
    request: ApplyPatchRequest,
    call_id: Seq<char>,
    reason: Option<String>,
)
    ensures
        reviews(action, request, call_id) ==> (action matches GuardianApprovalRequest::ApplyPatch {
            id,
            cwd,
            files,
            change_count,
            patch,
        } && id@ == call_id && cwd == request.action.cwd && files@ == request.file_paths@
            && change_count == request.changes@.len() && patch@ == request.action.patch@),
        asks_for(approval, request, call_id, reason) ==> {
            &&& approval.call_id@ == call_id
            &&& approval.changes@ == request.changes@
            &&& approval.reason == reason
            &&& approval.grant_root is None
        },
        APPLY_PATCH_APPROVALS@ == "apply_patch"@,
{
}

} // verus!
