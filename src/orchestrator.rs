//! The remote-call surface's own decisions: delegation, the simulated heal cycle and the
//! registry watcher.
use vstd::prelude::*;
use crate::apply::ApplyRequest;
use crate::governor::{depth_admitted, hitl_violation, RlmRequest, SafetyGovernor};
use crate::patches::{PatchRequest, PatchResponse};
use crate::status::{Code, Status};
use crate::text::same_text;

verus! {

/// Author and committer name of every commit the runtime makes.
pub const COMMIT_AUTHOR: &'static str = "Sovereign Architect";

/// Author and committer e-mail of every commit the runtime makes.
pub const COMMIT_EMAIL: &'static str = "agi@core";

/// Message of the registry watcher's commits.
pub const WATCH_COMMIT_MESSAGE: &'static str = "Auto-commit self-patch (L6 traceability)";

/// Message of the worker commit that records an evolved skill.
pub const EVOLVE_COMMIT_MESSAGE: &'static str = "Auto-evolved skill from self-patch";

/// Line that a simulated heal cycle leaves in the log.
pub const HEAL_LOG_LINE: &'static str = "Heal cycle simulated";

/// The answer to a delegated reasoning request.
#[derive(Clone, Debug)]
pub struct RlmResponse {
    pub summary: String,
    pub converged: bool,
}

/// Delegates a reasoning request: the governor's verdict, and for an admitted request a
/// summary that reports convergence within the recursion limit.
pub fn delegate_rlm(gov: &SafetyGovernor, req: RlmRequest) -> (r: Result<RlmResponse, Status>)
    ensures
        !depth_admitted(req.depth as int, gov.max_depth) ==> (r matches Err(e) && e.code
            == Code::InvalidArgument),
        depth_admitted(req.depth as int, gov.max_depth) && hitl_violation(
            gov.hitl_gate,
            req.sub_query@,
        ) ==> (r matches Err(e) && e.code == Code::PermissionDenied),
        depth_admitted(req.depth as int, gov.max_depth) && !hitl_violation(
            gov.hitl_gate,
            req.sub_query@,
        ) ==> (r matches Ok(resp) && resp.summary@ == "Generic delegation processed"@
            && resp.converged),
{
    let guarded = gov.guard_rlm(req);
    match guarded {
        Ok(g) => Ok(
            RlmResponse {
                summary: "Generic delegation processed".to_string(),
                converged: g.depth >= 0 && g.depth as u32 <= gov.max_depth,
            },
        ),
        Err(e) => Err(e),
    }
}

/// The proposal that a simulated heal cycle makes.
pub fn simulated_patch_request() -> (r: PatchRequest)
    ensures
        r.error_trace@ == "Simulated Rust error for verification"@,
        r.component@ == "rust_core"@,
{
    PatchRequest {
        error_trace: "Simulated Rust error for verification".to_string(),
        component: "rust_core".to_string(),
    }
}

/// Whether a simulated heal cycle waits for the approval flag: when the patch needs
/// approval and the cycle does not force a failure (a forced failure runs approved, so
/// that the apply reaches the forced failure).
pub fn simulation_polls(requires_hitl: bool, force_test_fail: bool) -> (r: bool)
    ensures
        r == (requires_hitl && !force_test_fail),
{
    requires_hitl && !force_test_fail
}

/// What a simulated heal cycle does next while it waits for approval.
#[derive(Clone, Copy, Debug, PartialEq, Eq, Structural)]
pub enum PollDecision {
    /// The flag is there: apply approved.
    Approved,
    /// Time is up without the flag: apply unapproved.
    GiveUp,
    /// Sleep a while and look again.
    Wait,
}

/// One look for the approval flag: its presence approves; otherwise the cycle waits while
/// time is left, and gives up once it is not.
pub fn poll_approval(flag_present: bool, time_left: bool) -> (r: PollDecision)
    ensures
        flag_present ==> r == PollDecision::Approved,
        !flag_present && time_left ==> r == PollDecision::Wait,
        !flag_present && !time_left ==> r == PollDecision::GiveUp,
{
    if flag_present {
        PollDecision::Approved
    } else if time_left {
        PollDecision::Wait
    } else {
        PollDecision::GiveUp
    }
}

/// The apply that ends a simulated heal cycle.
pub fn simulated_apply_request(proposed: &PatchResponse, approved: bool) -> (r: ApplyRequest)
    ensures
        r.patch_id@ == proposed.patch_id@,
        r.approved == approved,
        r.component@ == "rust_core"@,
        r.requires_hitl == proposed.requires_hitl,
{
    ApplyRequest {
        patch_id: proposed.patch_id.clone(),
        approved,
        component: "rust_core".to_string(),
        requires_hitl: proposed.requires_hitl,
    }
}

/// Whether the registry watcher commits: when the staged tree differs from the head
/// commit's tree, or there is no head commit yet.
pub fn watch_should_commit(head_tree: Option<&str>, staged_tree: &str) -> (r: bool)
    ensures
        head_tree is None ==> r,
        head_tree matches Some(h) ==> r == (h@ != staged_tree@),
{
    match head_tree {
        Some(h) => !same_text(h, staged_tree),
        None => true,
    }
}

} // verus!
