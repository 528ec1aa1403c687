//! The apply half of the patch lifecycle, as a state machine: each step takes what the
//! outside world reported and names the next piece of outside work, in the order
//! approval, forced failure, tests, persistence, commit, evolution, release.
use vstd::prelude::*;
use crate::patches::{is_core, PendingPatch, Watchdog};
use crate::status::{Code, Status};
use crate::text::push_str;

verus! {

/// A request to apply a proposed patch.
#[derive(Clone, Debug)]
pub struct ApplyRequest {
    pub patch_id: String,
    pub approved: bool,
    pub component: String,
    pub requires_hitl: bool,
}

/// The outcome of a successful apply.
#[derive(Clone, Debug)]
pub struct ApplyResponse {
    pub success: bool,
    /// The registry commit that records the patch; empty when auto-commit is off.
    pub commit_hash: String,
}

/// Which test suite guards a patch.
#[derive(Clone, Copy, Debug, PartialEq, Eq, Structural)]
pub enum TestSide {
    /// The server's own tests.
    Core,
    /// The reasoning worker's tests.
    Worker,
}

/// The configuration switches that shape an apply.
#[derive(Clone, Copy, Debug)]
pub struct ApplySwitches {
    pub force_test_fail: bool,
    pub skip_apply_test: bool,
    pub auto_commit: bool,
    pub auto_evolve: bool,
}

/// What an apply waits for.
#[derive(Clone, Copy, Debug, PartialEq, Eq, Structural)]
pub enum ApplyPhase {
    AwaitFlag,
    AwaitTests,
    AwaitWrite,
    AwaitCommit,
    AwaitEvolve,
    Finished,
}

/// What the outside world reports back.
#[derive(Debug)]
pub enum ApplyEvent {
    /// Whether the approval flag file exists.
    FlagChecked(bool),
    /// Whether the test suite passed.
    TestsFinished(bool),
    /// The patch file is on disk.
    PatchWritten,
    /// The registry commit was made, with this identifier.
    Committed(String),
    /// Auto-evolution ran, successfully or not.
    EvolveFinished,
    /// The outside work failed with this message.
    Failed(String),
}

/// The next piece of outside work.
#[derive(Debug)]
pub enum ApplyAction {
    /// Look for the approval flag file.
    CheckApproveFlag,
    /// Run this test suite.
    RunTests(TestSide),
    /// Write `contents` to `patches/<file_name>` in the registry.
    WritePatch { file_name: String, contents: String },
    /// Stage `rel_path` in the registry and commit it with `message`.
    CommitPatch { rel_path: String, message: String },
    /// Derive a new skill from the persisted `patches/<file_name>`.
    Evolve { file_name: String },
    /// The apply is over, with this result.
    Finish(Result<ApplyResponse, Status>),
}

/// One apply in progress.
#[derive(Debug)]
pub struct ApplySession {
    pub patch_id: String,
    pub proposed_code: String,
    pub requires_hitl: bool,
    pub component: String,
    pub approved: bool,
    pub tests_passed: bool,
    pub switches: ApplySwitches,
    pub phase: ApplyPhase,
    pub commit_hash: String,
}

pub open spec fn patch_ext(component: Seq<char>) -> Seq<char> {
    if is_core(component) {
        "rs"@
    } else {
        "py"@
    }
}

/// `patch_<id>.<rs|py>`.
pub open spec fn patch_file_name(patch_id: Seq<char>, component: Seq<char>) -> Seq<char> {
    "patch_"@ + patch_id + "."@ + patch_ext(component)
}

/// The patch file's path relative to the registry.
pub open spec fn patch_rel_path(patch_id: Seq<char>, component: Seq<char>) -> Seq<char> {
    "patches/"@ + patch_file_name(patch_id, component)
}

pub open spec fn commit_message(patch_id: Seq<char>, component: Seq<char>) -> Seq<char> {
    "Self-patch apply "@ + patch_id + " for "@ + component
}

pub open spec fn test_side(component: Seq<char>) -> TestSide {
    if is_core(component) {
        TestSide::Core
    } else {
        TestSide::Worker
    }
}

/// The approval requirement holds: none is needed, or it was given.
pub open spec fn hitl_satisfied(s: ApplySession) -> bool {
    !s.requires_hitl || s.approved
}

/// Every check that must precede persistence has passed.
pub open spec fn cleared_to_write(s: ApplySession) -> bool {
    hitl_satisfied(s) && !s.switches.force_test_fail && s.tests_passed
}

/// Auto-evolution follows a commit of a worker-side patch when it is switched on.
pub open spec fn evolve_due(s: ApplySession) -> bool {
    s.switches.auto_commit && s.switches.auto_evolve && !is_core(s.component@)
}

/// Whether `event` reports the work that `phase` waits for (or its failure).
pub open spec fn awaited(phase: ApplyPhase, event: ApplyEvent) -> bool {
    match phase {
        ApplyPhase::AwaitFlag => event is FlagChecked,
        ApplyPhase::AwaitTests => event is TestsFinished,
        ApplyPhase::AwaitWrite => event is PatchWritten || event is Failed,
        ApplyPhase::AwaitCommit => event is Committed || event is Failed,
        ApplyPhase::AwaitEvolve => event is EvolveFinished || event is Failed,
        ApplyPhase::Finished => false,
    }
}

/// One step of an apply: the session `s` and the reported `event` lead to session `t`
/// and action `r`. The patch and switches stay; the action names the work the new phase
/// waits for; approval is settled once the flag was looked for; failed tests and failed
/// writes or commits end the apply with an internal error; a commit is followed by
/// evolution when that is due; evolution, whatever its outcome, ends the apply with
/// success; an event that the phase does not wait for ends it with an internal error.
pub open spec fn steps_to(s: ApplySession, event: ApplyEvent, t: ApplySession, r: ApplyAction) -> bool {
    &&& (!awaited(s.phase, event) ==> (r matches ApplyAction::Finish(Err(e)) && e.code
        == Code::Internal))
    &&& t.wf()
    &&& t.same_patch(s)
    &&& t.announces(r)
    &&& (s.phase == ApplyPhase::AwaitFlag ==> (event matches ApplyEvent::FlagChecked(present)
        ==> t.approved == present && t.settles_approval(r)))
    &&& (s.phase == ApplyPhase::AwaitTests ==> (event matches ApplyEvent::TestsFinished(passed)
        ==> (passed ==> r is WritePatch) && (!passed ==> (r matches ApplyAction::Finish(Err(e))
        && e.code == Code::Internal && e.message@ == "Patch test failed; apply aborted"@))))
    &&& (s.phase == ApplyPhase::AwaitWrite && event is PatchWritten ==> (s.switches.auto_commit
        ==> r is CommitPatch) && (!s.switches.auto_commit ==> (r matches ApplyAction::Finish(
        Ok(resp),
    ) && resp.commit_hash@.len() == 0)))
    &&& (s.phase == ApplyPhase::AwaitCommit ==> (event matches ApplyEvent::Committed(hash)
        ==> t.commit_hash@ == hash@ && (evolve_due(s) ==> r is Evolve) && (!evolve_due(s) ==> (
    r matches ApplyAction::Finish(Ok(resp)) && resp.commit_hash@ == hash@))))
    &&& (s.phase == ApplyPhase::AwaitEvolve && (event is EvolveFinished || event is Failed) ==> (
    r matches ApplyAction::Finish(Ok(resp)) && resp.commit_hash@ == s.commit_hash@))
    &&& ((s.phase == ApplyPhase::AwaitWrite || s.phase == ApplyPhase::AwaitCommit) ==> (
    event matches ApplyEvent::Failed(msg) ==> (r matches ApplyAction::Finish(Err(e)) && e.code
        == Code::Internal && e.message@ == msg@)))
    &&& (s.phase == ApplyPhase::Finished ==> (r matches ApplyAction::Finish(Err(e)) && e.code
        == Code::Internal))
}

impl ApplySession {
    /// What holds of the session in each phase.
    pub open spec fn wf(&self) -> bool {
        &&& (self.phase == ApplyPhase::AwaitFlag ==> self.requires_hitl && !self.approved
            && !self.tests_passed)
        &&& (self.phase == ApplyPhase::AwaitCommit ==> self.switches.auto_commit)
        &&& (self.phase == ApplyPhase::AwaitTests ==> hitl_satisfied(*self)
            && !self.switches.force_test_fail && !self.tests_passed)
        &&& (self.phase == ApplyPhase::AwaitWrite || self.phase == ApplyPhase::AwaitCommit
            || self.phase == ApplyPhase::AwaitEvolve ==> cleared_to_write(*self))
        &&& (self.phase == ApplyPhase::AwaitEvolve ==> evolve_due(*self))
        &&& self.hash_rule()
    }

    /// No commit identifier without auto-commit.
    pub open spec fn hash_rule(&self) -> bool {
        !self.switches.auto_commit ==> self.commit_hash@.len() == 0
    }

    /// The action names the work that the phase waits for, with the patch's own data.
    pub open spec fn announces(&self, a: ApplyAction) -> bool {
        match a {
            ApplyAction::CheckApproveFlag => self.phase == ApplyPhase::AwaitFlag,
            ApplyAction::RunTests(side) => self.phase == ApplyPhase::AwaitTests && side
                == test_side(self.component@),
            ApplyAction::WritePatch { file_name, contents } => self.phase == ApplyPhase::AwaitWrite
                && file_name@ == patch_file_name(self.patch_id@, self.component@) && contents@
                == self.proposed_code@,
            ApplyAction::CommitPatch { rel_path, message } => self.phase
                == ApplyPhase::AwaitCommit && rel_path@ == patch_rel_path(
                self.patch_id@,
                self.component@,
            ) && message@ == commit_message(self.patch_id@, self.component@),
            ApplyAction::Evolve { file_name } => self.phase == ApplyPhase::AwaitEvolve
                && file_name@ == patch_file_name(self.patch_id@, self.component@),
            ApplyAction::Finish(res) => self.phase == ApplyPhase::Finished && (res matches Ok(
                resp,
            ) ==> resp.success && resp.commit_hash@ == self.commit_hash@ && cleared_to_write(
                *self,
            )),
        }
    }

    /// The first action once approval is settled: refusal without approval, the forced
    /// failure, else the tests, or persistence when tests are skipped.
    pub open spec fn settles_approval(&self, a: ApplyAction) -> bool {
        &&& (!hitl_satisfied(*self) ==> (a matches ApplyAction::Finish(Err(e)) && e.code
            == Code::PermissionDenied))
        &&& (hitl_satisfied(*self) && self.switches.force_test_fail ==> (a matches ApplyAction::Finish(
            Err(e),
        ) && e.code == Code::Internal))
        &&& (hitl_satisfied(*self) && !self.switches.force_test_fail
            && self.switches.skip_apply_test ==> a is WritePatch)
        &&& (hitl_satisfied(*self) && !self.switches.force_test_fail
            && !self.switches.skip_apply_test ==> a is RunTests)
    }

    /// Unchanging parts of a session.
    pub open spec fn same_patch(&self, other: ApplySession) -> bool {
        &&& self.patch_id@ == other.patch_id@
        &&& self.proposed_code@ == other.proposed_code@
        &&& self.requires_hitl == other.requires_hitl
        &&& self.component@ == other.component@
        &&& self.switches == other.switches
    }

    /// Whether the session is well formed (see `wf`).
    pub fn is_wf(&self) -> (r: bool)
        ensures
            r == self.wf(),
    {
        let core = crate::text::same_text(self.component.as_str(), "rust_core");
        let sw = self.switches;
        let hitl_ok = !self.requires_hitl || self.approved;
        let cleared = hitl_ok && !sw.force_test_fail && self.tests_passed;
        let persisting = self.phase == ApplyPhase::AwaitWrite || self.phase
            == ApplyPhase::AwaitCommit || self.phase == ApplyPhase::AwaitEvolve;
        (self.phase != ApplyPhase::AwaitFlag || (self.requires_hitl && !self.approved
            && !self.tests_passed)) && (self.phase != ApplyPhase::AwaitCommit || sw.auto_commit)
            && (self.phase != ApplyPhase::AwaitTests || (hitl_ok && !sw.force_test_fail
            && !self.tests_passed)) && (!persisting || cleared) && (self.phase
            != ApplyPhase::AwaitEvolve || (sw.auto_commit && sw.auto_evolve && !core)) && (
        sw.auto_commit || self.commit_hash.as_str().is_empty())
    }

    fn file_name(&self) -> (r: String)
        ensures
            r@ == patch_file_name(self.patch_id@, self.component@),
    {
        let mut name = "patch_".to_string();
        push_str(&mut name, self.patch_id.as_str());
        push_str(&mut name, ".");
        if crate::text::same_text(self.component.as_str(), "rust_core") {
            push_str(&mut name, "rs");
        } else {
            push_str(&mut name, "py");
        }
        name
    }

    fn finish_err(&mut self, code: Code, message: String) -> (r: ApplyAction)
        requires
            old(self).hash_rule(),
        ensures
            final(self).wf(),
            final(self).same_patch(*old(self)),
            final(self).approved == old(self).approved,
            final(self).tests_passed == old(self).tests_passed,
            final(self).commit_hash@ == old(self).commit_hash@,
            final(self).announces(r),
            r matches ApplyAction::Finish(Err(e)) && e.code == code && e.message@ == message@,
    {
        self.phase = ApplyPhase::Finished;
        ApplyAction::Finish(Err(Status::new(code, message)))
    }

    fn finish_ok(&mut self) -> (r: ApplyAction)
        requires
            old(self).hash_rule(),
            cleared_to_write(*old(self)),
        ensures
            final(self).wf(),
            final(self).same_patch(*old(self)),
            final(self).approved == old(self).approved,
            final(self).tests_passed == old(self).tests_passed,
            final(self).commit_hash@ == old(self).commit_hash@,
            final(self).announces(r),
            r is Finish,
            r matches ApplyAction::Finish(res) && res is Ok,
    {
        self.phase = ApplyPhase::Finished;
        ApplyAction::Finish(Ok(ApplyResponse { success: true, commit_hash: self.commit_hash.clone() }))
    }

    fn begin_write(&mut self) -> (r: ApplyAction)
        requires
            old(self).hash_rule(),
            cleared_to_write(*old(self)),
        ensures
            final(self).wf(),
            final(self).same_patch(*old(self)),
            final(self).approved == old(self).approved,
            final(self).tests_passed == old(self).tests_passed,
            final(self).commit_hash@ == old(self).commit_hash@,
            final(self).announces(r),
            r is WritePatch,
    {
        self.phase = ApplyPhase::AwaitWrite;
        ApplyAction::WritePatch { file_name: self.file_name(), contents: self.proposed_code.clone() }
    }

    fn after_approval(&mut self) -> (r: ApplyAction)
        requires
            old(self).hash_rule(),
            !old(self).tests_passed,
        ensures
            final(self).wf(),
            final(self).same_patch(*old(self)),
            final(self).approved == old(self).approved,
            final(self).commit_hash@ == old(self).commit_hash@,
            final(self).announces(r),
            old(self).settles_approval(r),
    {
        if self.requires_hitl && !self.approved {
            return self.finish_err(
                Code::PermissionDenied,
                "HITL approval required for this patch (set approved or create PAGI_APPROVE_FLAG file)".to_string(),
            );
        }
        if self.switches.force_test_fail {
            return self.finish_err(Code::Internal, "Forced test failure for verification".to_string());
        }
        if self.switches.skip_apply_test {
            self.tests_passed = true;
            return self.begin_write();
        }
        self.phase = ApplyPhase::AwaitTests;
        let side = if crate::text::same_text(self.component.as_str(), "rust_core") {
            TestSide::Core
        } else {
            TestSide::Worker
        };
        ApplyAction::RunTests(side)
    }

    /// Advances the apply by one reported event (see `steps_to`). A session that is not
    /// well formed ends with an internal error.
    pub fn step(&mut self, event: ApplyEvent) -> (r: ApplyAction)
        ensures
            old(self).wf() ==> steps_to(*old(self), event, *final(self), r),
            !old(self).wf() ==> (r matches ApplyAction::Finish(Err(e)) && e.code == Code::Internal),
            final(self).wf(),
    {
        if !self.is_wf() {
            self.commit_hash = String::new();
            return self.finish_err(Code::Internal, "inconsistent apply session".to_string());
        }
        match (self.phase, event) {
            (ApplyPhase::AwaitFlag, ApplyEvent::FlagChecked(present)) => {
                self.approved = present;
                self.after_approval()
            },
            (ApplyPhase::AwaitTests, ApplyEvent::TestsFinished(passed)) => {
                if passed {
                    self.tests_passed = true;
                    self.begin_write()
                } else {
                    self.finish_err(Code::Internal, "Patch test failed; apply aborted".to_string())
                }
            },
            (ApplyPhase::AwaitWrite, ApplyEvent::PatchWritten) => {
                if self.switches.auto_commit {
                    self.phase = ApplyPhase::AwaitCommit;
                    let mut rel_path = "patches/".to_string();
                    let name = self.file_name();
                    push_str(&mut rel_path, name.as_str());
                    let mut message = "Self-patch apply ".to_string();
                    push_str(&mut message, self.patch_id.as_str());
                    push_str(&mut message, " for ");
                    push_str(&mut message, self.component.as_str());
                    ApplyAction::CommitPatch { rel_path, message }
                } else {
                    self.finish_ok()
                }
            },
            (ApplyPhase::AwaitCommit, ApplyEvent::Committed(hash)) => {
                self.commit_hash = hash;
                if self.switches.auto_evolve && !crate::text::same_text(
                    self.component.as_str(),
                    "rust_core",
                ) {
                    self.phase = ApplyPhase::AwaitEvolve;
                    ApplyAction::Evolve { file_name: self.file_name() }
                } else {
                    self.finish_ok()
                }
            },
            (ApplyPhase::AwaitEvolve, ApplyEvent::EvolveFinished) => self.finish_ok(),
            (ApplyPhase::AwaitEvolve, ApplyEvent::Failed(_)) => self.finish_ok(),
            (ApplyPhase::AwaitWrite, ApplyEvent::Failed(msg)) => self.finish_err(Code::Internal, msg),
            (ApplyPhase::AwaitCommit, ApplyEvent::Failed(msg)) => self.finish_err(Code::Internal, msg),
            _ => self.finish_err(Code::Internal, "unexpected apply event".to_string()),
        }
    }
}

impl Watchdog {
    /// Opens an apply of the patch that the request names. An unknown id ends it at once
    /// with not-found; otherwise the session carries the pending patch, and the first
    /// action looks for the approval flag when the patch needs approval that the request
    /// does not give, or else settles approval.
    pub fn start_apply(&self, req: &ApplyRequest, switches: ApplySwitches) -> (r: (
        ApplySession,
        ApplyAction,
    ))
        ensures
            r.0.wf(),
            r.0.announces(r.1),
            r.0.patch_id@ == req.patch_id@,
            r.0.switches == switches,
            !self.pending().contains_key(req.patch_id@) ==> (r.1 matches ApplyAction::Finish(
                Err(e),
            ) && e.code == Code::NotFound),
            self.pending().contains_key(req.patch_id@) ==> {
                let p = self.pending()[req.patch_id@];
                &&& r.0.proposed_code@ == p.0
                &&& r.0.requires_hitl == p.1
                &&& r.0.component@ == p.2
                &&& r.0.approved == req.approved
                &&& (p.1 && !req.approved ==> r.1 is CheckApproveFlag)
                &&& (!(p.1 && !req.approved) ==> r.0.settles_approval(r.1))
            },
    {
        match self.pending_patch(req.patch_id.as_str()) {
            None => {
                let session = ApplySession {
                    patch_id: req.patch_id.clone(),
                    proposed_code: String::new(),
                    requires_hitl: false,
                    component: String::new(),
                    approved: req.approved,
                    tests_passed: false,
                    switches,
                    phase: ApplyPhase::Finished,
                    commit_hash: String::new(),
                };
                (
                    session,
                    ApplyAction::Finish(
                        Err(Status::new(Code::NotFound, "patch_id not found".to_string())),
                    ),
                )
            },
            Some(p) => {
                let PendingPatch { proposed_code, requires_hitl, component } = p;
                let mut session = ApplySession {
                    patch_id: req.patch_id.clone(),
                    proposed_code,
                    requires_hitl,
                    component,
                    approved: req.approved,
                    tests_passed: false,
                    switches,
                    phase: ApplyPhase::AwaitFlag,
                    commit_hash: String::new(),
                };
                if requires_hitl && !req.approved {
                    (session, ApplyAction::CheckApproveFlag)
                } else {
                    let a = session.after_approval();
                    (session, a)
                }
            },
        }
    }

    /// Advances an apply by one reported event (see `steps_to`); a successful end
    /// releases the patch, so that its id serves no second apply.
    pub fn apply_step(&mut self, session: &mut ApplySession, event: ApplyEvent) -> (r: ApplyAction)
        ensures
            old(session).wf() ==> steps_to(*old(session), event, *final(session), r),
            !old(session).wf() ==> (r matches ApplyAction::Finish(Err(e)) && e.code
                == Code::Internal),
            final(session).wf(),
            (r matches ApplyAction::Finish(res) && res is Ok) ==> final(self).pending() == old(
                self,
            ).pending().remove(old(session).patch_id@),
            !(r matches ApplyAction::Finish(res) && res is Ok) ==> final(self).pending() == old(
                self,
            ).pending(),
            final(self).paths() == old(self).paths(),
    {
        let a = session.step(event);
        let done = match &a {
            ApplyAction::Finish(Ok(_)) => true,
            _ => false,
        };
        if done {
            self.forget_patch(session.patch_id.as_str());
        }
        a
    }
}

/// A patch that needs approval, applied without it, is refused for lack of permission
/// once no approval flag is found, and nothing is written.
pub proof fn lemma_unapproved_patch_denied(s: ApplySession, t: ApplySession, r: ApplyAction)
    requires
        s.wf(),
        s.phase == ApplyPhase::AwaitFlag,
        steps_to(s, ApplyEvent::FlagChecked(false), t, r),
    ensures
        r matches ApplyAction::Finish(Err(e)) && e.code == Code::PermissionDenied,
{
}

/// Persistence is asked for only once approval holds, no failure is forced, and the tests
/// passed or are skipped; evolution only after a commit of a worker-side patch with
/// auto-commit and auto-evolution on.
pub proof fn lemma_persist_and_evolve_gates(
    s: ApplySession,
    e: ApplyEvent,
    t: ApplySession,
    r: ApplyAction,
)
    requires
        steps_to(s, e, t, r),
    ensures
        r is WritePatch || r is CommitPatch ==> cleared_to_write(t),
        r is Evolve ==> cleared_to_write(t) && evolve_due(t),
        (r matches ApplyAction::Finish(res) && res is Ok) ==> cleared_to_write(t),
{
}

} // verus!
