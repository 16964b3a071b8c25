//! The per-file workflow: a state machine that sequences diffing, the
//! optional audit gate, drafting, review, staging, committing and the
//! optional push for one change. Each step consumes the outcome of the
//! last outside action — a repository command, a backend call or an
//! operator answer — and names the next action; the surrounding program
//! performs the actions and feeds the outcomes back. A deleted file is
//! reported and skipped; the first unhandled failure ends the run.
use vstd::prelude::*;

use crate::audit::{AuditResult, ParseFailure, audit_parse_spec, parse_audit_response};
use crate::config::LocalTemplate;
use crate::git::{ChangeStatus, GitError};
use crate::prompt::{build_audit_prompt, build_file_prompt, built_audit_prompt, built_prompt};
use crate::providers::BackendError;
use crate::review::{ReviewLoop, prefixed};
use crate::text::{is_consent, is_consent_spec, is_rejection_spec};

verus! {

/// The workflow step at which an error arose.
#[derive(Clone, Copy, Debug, PartialEq, Eq, Structural)]
pub enum StepKind {
    Diffing,
    Auditing,
    Generating,
    Staging,
    Committing,
    Pushing,
}

/// What kind of failure ended a file's processing.
#[derive(Clone, Debug)]
pub enum ErrorKind {
    Repo(GitError),
    Backend(BackendError),
    Parse(ParseFailure),
    OperatorAbort,
}

/// A failure, with the file and the step it arose at, as the run's
/// terminal report needs it.
#[derive(Clone, Debug)]
pub struct WorkflowError {
    pub path: String,
    pub step: StepKind,
    pub kind: ErrorKind,
}

/// Where one file's processing stands: which outside outcome it waits for.
#[derive(Clone, Copy, Debug, PartialEq, Eq, Structural)]
pub enum Phase {
    DiffWait,
    AuditWait,
    AuditContinueWait,
    DraftWait,
    ApprovalWait,
    StageWait,
    CommitWait,
    PushWait,
    Done,
    Failed,
}

/// The next outside action the surrounding program is to perform.
pub enum Action {
    /// Report the file as deleted and move on; nothing else happens.
    SkipDeleted,
    /// Run the repository diff for this file.
    GetDiff,
    /// Send the given prompt to the backend.
    CallBackend { prompt: String },
    /// Show the audit outcome, then send the given prompt to the backend.
    ShowAuditThenGenerate { outcome: AuditResult, prompt: String },
    /// Show the draft and ask the operator to approve or reject it.
    AskApproval { message: String },
    /// Ask the operator whether to continue although the audit failed.
    AskContinueAudit,
    /// Stage this file.
    Stage,
    /// Commit the staged file under the given message.
    Commit { message: String },
    /// Push the recorded commits.
    Push,
    /// This file is done.
    Finish,
    /// The run ends; surface the error.
    Fail { error: WorkflowError },
}

/// The outcome of the last outside action, fed back into the workflow.
pub enum Event {
    DiffReady(Result<String, GitError>),
    BackendReady(Result<String, BackendError>),
    OperatorLine(String),
    StageDone(Result<(), GitError>),
    CommitDone(Result<(), GitError>),
    PushDone(Result<(), GitError>),
}

/// The event kind each phase waits for; terminal phases wait for nothing.
pub open spec fn event_matches(phase: Phase, event: Event) -> bool {
    match phase {
        Phase::DiffWait => event is DiffReady,
        Phase::AuditWait => event is BackendReady,
        Phase::AuditContinueWait => event is OperatorLine,
        Phase::DraftWait => event is BackendReady,
        Phase::ApprovalWait => event is OperatorLine,
        Phase::StageWait => event is StageDone,
        Phase::CommitWait => event is CommitDone,
        Phase::PushWait => event is PushDone,
        Phase::Done => false,
        Phase::Failed => false,
    }
}

/// The workflow for one file.
pub struct FileWorkflow {
    pub path: String,
    pub status: ChangeStatus,
    pub prefix: String,
    pub audit_enabled: bool,
    pub auto_push: bool,
    pub templates: LocalTemplate,
    pub base_prompt: String,
    pub audit_template: String,
    pub phase: Phase,
    pub file_prompt: String,
    pub audit_prompt: String,
    pub review: ReviewLoop,
    pub pending_error: Option<WorkflowError>,
    pub staged: bool,
    pub committed: bool,
    pub pushed: bool,
    pub skipped: bool,
}

impl FileWorkflow {
    /// The workflow's invariant. In particular: a commit is only ever
    /// reached with the file staged, a push only with the commit
    /// recorded and auto-push requested, and the staging phases are only
    /// reached with an approved review.
    pub open spec fn inv(&self) -> bool {
        &&& self.review.inv()
        &&& self.review.prompt@ == self.file_prompt@
        &&& self.review.prefix@ == self.prefix@
        &&& (self.phase is DiffWait ==> self.review.state is Drafting)
        &&& (self.phase is AuditWait ==> self.review.state is Drafting)
        &&& (self.phase is AuditContinueWait ==> self.review.state is Drafting)
        &&& (self.phase is DraftWait ==> self.review.state is Drafting)
        &&& (self.phase is ApprovalWait ==> self.review.state is AwaitingApproval)
        &&& ((self.phase is StageWait || self.phase is CommitWait || self.phase is PushWait)
            ==> self.review.state is Approved)
        &&& ((self.phase is Done && !self.skipped) ==> self.committed)
        &&& (self.committed ==> self.staged)
        &&& (self.pushed ==> self.committed)
        &&& (self.phase is CommitWait ==> self.staged)
        &&& (self.phase is PushWait ==> self.staged && self.committed && self.auto_push)
        &&& (self.phase is AuditContinueWait ==> self.pending_error is Some)
        &&& (self.skipped ==> self.status is Deleted)
    }
}

} // verus!

verus! {

/// The transition relation of one workflow step: what the next phase,
/// state and action are for each phase and each outcome handed in.
pub open spec fn step_spec(
    pre: FileWorkflow,
    event: Event,
    post: FileWorkflow,
    action: Action,
) -> bool {
    match (pre.phase, event) {
        (Phase::DiffWait, Event::DiffReady(res)) => match res {
            Ok(diff) => {
                &&& post.file_prompt@ == built_prompt(
                    diff@,
                    pre.templates.commit_types.deep_view(),
                    pre.templates.output_format.template@,
                    pre.templates.output_format.max_length as nat,
                    pre.templates.output_format.examples.deep_view(),
                    pre.base_prompt@,
                )
                &&& post.audit_prompt@ == built_audit_prompt(diff@, pre.audit_template@)
                &&& post.review.backend_successes == 0
                &&& post.review.rejections == 0
                &&& if pre.audit_enabled {
                    &&& post.phase is AuditWait
                    &&& (action matches Action::CallBackend { prompt } && prompt@
                        == post.audit_prompt@)
                } else {
                    &&& post.phase is DraftWait
                    &&& (action matches Action::CallBackend { prompt } && prompt@
                        == post.file_prompt@)
                }
            },
            Err(e) => {
                &&& post.phase is Failed
                &&& (action matches Action::Fail { error } && error.path == pre.path && error.step
                    == StepKind::Diffing && error.kind == ErrorKind::Repo(e))
            },
        },
        (Phase::AuditWait, Event::BackendReady(res)) => match res {
            Ok(text) => if audit_parse_spec(text@) is Some {
                &&& post.phase is DraftWait
                &&& (action matches Action::ShowAuditThenGenerate { outcome, prompt }
                    && outcome.issues.deep_view() == (audit_parse_spec(text@)->0).0
                    && outcome.summary@ == (audit_parse_spec(text@)->0).1 && prompt@
                    == pre.file_prompt@)
            } else {
                &&& post.phase is AuditContinueWait
                &&& action is AskContinueAudit
                &&& (post.pending_error matches Some(we) && we.path == pre.path && we.step
                    == StepKind::Auditing && we.kind is Parse)
            },
            Err(e) => {
                &&& post.phase is AuditContinueWait
                &&& action is AskContinueAudit
                &&& (post.pending_error matches Some(we) && we.path == pre.path && we.step
                    == StepKind::Auditing && we.kind == ErrorKind::Backend(e))
            },
        },
        (Phase::AuditContinueWait, Event::OperatorLine(line)) => if is_consent_spec(line@) {
            &&& post.phase is DraftWait
            &&& (action matches Action::CallBackend { prompt } && prompt@ == pre.file_prompt@)
        } else {
            &&& post.phase is Failed
            &&& (action matches Action::Fail { error } && Some(error) == pre.pending_error)
        },
        (Phase::DraftWait, Event::BackendReady(res)) => match res {
            Ok(text) => {
                &&& post.phase is ApprovalWait
                &&& post.review.draft@ == prefixed(pre.prefix@, text@)
                &&& post.review.backend_successes == pre.review.backend_successes + 1
                &&& post.review.rejections == pre.review.rejections
                &&& (action matches Action::AskApproval { message } && message@
                    == post.review.draft@)
            },
            Err(e) => {
                &&& post.phase is Failed
                &&& (action matches Action::Fail { error } && error.path == pre.path && error.step
                    == StepKind::Generating && error.kind == ErrorKind::Backend(e))
            },
        },
        (Phase::ApprovalWait, Event::OperatorLine(line)) => if is_rejection_spec(line@) {
            &&& post.phase is DraftWait
            &&& post.review.rejections == pre.review.rejections + 1
            &&& post.review.backend_successes == pre.review.backend_successes
            &&& (action matches Action::CallBackend { prompt } && prompt@ == pre.file_prompt@)
        } else {
            &&& post.phase is StageWait
            &&& post.review.state is Approved
            &&& post.review.draft == pre.review.draft
            &&& post.review.backend_successes == pre.review.backend_successes
            &&& post.review.rejections == pre.review.rejections
            &&& action is Stage
        },
        (Phase::StageWait, Event::StageDone(res)) => match res {
            Ok(_) => {
                &&& post.phase is CommitWait
                &&& post.staged
                &&& (action matches Action::Commit { message } && message == pre.review.draft)
            },
            Err(e) => {
                &&& post.phase is Failed
                &&& (action matches Action::Fail { error } && error.path == pre.path && error.step
                    == StepKind::Staging && error.kind == ErrorKind::Repo(e))
            },
        },
        (Phase::CommitWait, Event::CommitDone(res)) => match res {
            Ok(_) => {
                &&& post.committed
                &&& if pre.auto_push {
                    post.phase is PushWait && action is Push
                } else {
                    post.phase is Done && action is Finish
                }
            },
            Err(e) => {
                &&& post.phase is Failed
                &&& (action matches Action::Fail { error } && error.path == pre.path && error.step
                    == StepKind::Committing && error.kind == ErrorKind::Repo(e))
            },
        },
        (Phase::PushWait, Event::PushDone(res)) => match res {
            Ok(_) => {
                &&& post.phase is Done
                &&& post.pushed
                &&& action is Finish
            },
            Err(e) => {
                &&& post.phase is Failed
                &&& (action matches Action::Fail { error } && error.path == pre.path && error.step
                    == StepKind::Pushing && error.kind == ErrorKind::Repo(e))
            },
        },
        _ => false,
    }
}

impl FileWorkflow {
    /// Opens the workflow for one discovered change. A deleted file is
    /// reported and skipped outright; a modified file starts by asking
    /// for its diff.
    pub fn new(
        path: String,
        status: ChangeStatus,
        prefix: String,
        audit_enabled: bool,
        auto_push: bool,
        templates: LocalTemplate,
        base_prompt: String,
        audit_template: String,
    ) -> (r: (FileWorkflow, Action))
        ensures
            r.0.inv(),
            r.0.path@ == path@,
            r.0.status == status,
            r.0.prefix@ == prefix@,
            r.0.audit_enabled == audit_enabled,
            r.0.auto_push == auto_push,
            r.0.templates == templates,
            r.0.base_prompt == base_prompt,
            r.0.audit_template == audit_template,
            !r.0.staged && !r.0.committed && !r.0.pushed,
            r.0.review.backend_successes == 0 && r.0.review.rejections == 0,
            status is Deleted ==> r.0.phase is Done && r.0.skipped && r.1 is SkipDeleted,
            status is Modified ==> r.0.phase is DiffWait && !r.0.skipped && r.1 is GetDiff,
    {
        let review = ReviewLoop::new(String::new(), prefix.clone());
        let skipped = match status {
            ChangeStatus::Deleted => true,
            ChangeStatus::Modified => false,
        };
        let phase = if skipped {
            Phase::Done
        } else {
            Phase::DiffWait
        };
        let action = if skipped {
            Action::SkipDeleted
        } else {
            Action::GetDiff
        };
        let wf = FileWorkflow {
            path,
            status,
            prefix,
            audit_enabled,
            auto_push,
            templates,
            base_prompt,
            audit_template,
            phase,
            file_prompt: String::new(),
            audit_prompt: String::new(),
            review,
            pending_error: None,
            staged: false,
            committed: false,
            pushed: false,
            skipped,
        };
        (wf, action)
    }

    /// Consumes the outcome of the last outside action and names the next
    /// one. A commit is only ever issued by a successful stage of this
    /// same file and carries the approved draft; a push only when
    /// auto-push is requested and the commit succeeded; and the prompt a
    /// regeneration is asked with never changes once built.
    #[verifier::rlimit(100)]
    #[verifier::spinoff_prover]
    pub fn step(&mut self, event: Event) -> (action: Action)
        requires
            old(self).inv(),
            event_matches(old(self).phase, event),
            old(self).review.backend_successes < u64::MAX,
        ensures
            final(self).inv(),
            step_spec(*old(self), event, *final(self), action),
            final(self).path == old(self).path,
            final(self).status == old(self).status,
            final(self).prefix == old(self).prefix,
            final(self).audit_enabled == old(self).audit_enabled,
            final(self).auto_push == old(self).auto_push,
            final(self).templates == old(self).templates,
            final(self).base_prompt == old(self).base_prompt,
            final(self).audit_template == old(self).audit_template,
            !(old(self).phase is DiffWait) ==> final(self).file_prompt == old(self).file_prompt
                && final(self).audit_prompt == old(self).audit_prompt,
            (old(self).phase is AuditWait || old(self).phase is AuditContinueWait || old(
                self,
            ).phase is StageWait || old(self).phase is CommitWait || old(self).phase is PushWait)
                ==> final(self).review == old(self).review,
            (action matches Action::Commit { message } ==> old(self).phase is StageWait
                && final(self).staged && message == final(self).review.draft
                && final(self).review.state is Approved),
            (action is Push ==> old(self).auto_push && final(self).committed),
            (action is Stage ==> final(self).review.state is Approved
                && final(self).review.backend_successes >= 1),
            final(self).staged == (old(self).staged || (old(self).phase is StageWait && (
            event matches Event::StageDone(r1) && r1 is Ok))),
            final(self).committed == (old(self).committed || (old(self).phase is CommitWait && (
            event matches Event::CommitDone(r2) && r2 is Ok))),
            final(self).pushed == (old(self).pushed || (old(self).phase is PushWait && (
            event matches Event::PushDone(r3) && r3 is Ok))),
    {
        match (self.phase, event) {
            (Phase::DiffWait, Event::DiffReady(res)) => match res {
                Ok(diff) => {
                    let file_prompt = build_file_prompt(
                        diff.as_str(),
                        &self.templates,
                        self.base_prompt.as_str(),
                    );
                    let audit_prompt = build_audit_prompt(
                        diff.as_str(),
                        self.audit_template.as_str(),
                    );
                    self.file_prompt = file_prompt;
                    self.audit_prompt = audit_prompt;
                    self.review = ReviewLoop::new(self.file_prompt.clone(), self.prefix.clone());
                    if self.audit_enabled {
                        self.phase = Phase::AuditWait;
                        Action::CallBackend { prompt: self.audit_prompt.clone() }
                    } else {
                        self.phase = Phase::DraftWait;
                        Action::CallBackend { prompt: self.file_prompt.clone() }
                    }
                },
                Err(e) => {
                    self.phase = Phase::Failed;
                    Action::Fail {
                        error: WorkflowError {
                            path: self.path.clone(),
                            step: StepKind::Diffing,
                            kind: ErrorKind::Repo(e),
                        },
                    }
                },
            },
            (Phase::AuditWait, Event::BackendReady(res)) => match res {
                Ok(text) => match parse_audit_response(text.as_str()) {
                    Ok(outcome) => {
                        self.phase = Phase::DraftWait;
                        Action::ShowAuditThenGenerate {
                            outcome,
                            prompt: self.file_prompt.clone(),
                        }
                    },
                    Err(failure) => {
                        self.pending_error = Some(
                            WorkflowError {
                                path: self.path.clone(),
                                step: StepKind::Auditing,
                                kind: ErrorKind::Parse(failure),
                            },
                        );
                        self.phase = Phase::AuditContinueWait;
                        Action::AskContinueAudit
                    },
                },
                Err(e) => {
                    self.pending_error = Some(
                        WorkflowError {
                            path: self.path.clone(),
                            step: StepKind::Auditing,
                            kind: ErrorKind::Backend(e),
                        },
                    );
                    self.phase = Phase::AuditContinueWait;
                    Action::AskContinueAudit
                },
            },
            (Phase::AuditContinueWait, Event::OperatorLine(line)) => {
                if is_consent(line.as_str()) {
                    self.phase = Phase::DraftWait;
                    Action::CallBackend { prompt: self.file_prompt.clone() }
                } else {
                    let err = self.pending_error.take();
                    match err {
                        Some(error) => {
                            self.phase = Phase::Failed;
                            Action::Fail { error }
                        },
                        None => vstd::pervasive::unreached(),
                    }
                }
            },
            (Phase::DraftWait, Event::BackendReady(res)) => match res {
                Ok(text) => {
                    self.review.on_backend_success(text.as_str());
                    self.phase = Phase::ApprovalWait;
                    Action::AskApproval { message: self.review.draft.clone() }
                },
                Err(e) => {
                    self.phase = Phase::Failed;
                    Action::Fail {
                        error: WorkflowError {
                            path: self.path.clone(),
                            step: StepKind::Generating,
                            kind: ErrorKind::Backend(e),
                        },
                    }
                },
            },
            (Phase::ApprovalWait, Event::OperatorLine(line)) => {
                let approved = self.review.on_operator_line(line.as_str());
                if approved {
                    self.phase = Phase::StageWait;
                    Action::Stage
                } else {
                    self.phase = Phase::DraftWait;
                    Action::CallBackend { prompt: self.file_prompt.clone() }
                }
            },
            (Phase::StageWait, Event::StageDone(res)) => match res {
                Ok(_) => {
                    self.staged = true;
                    self.phase = Phase::CommitWait;
                    Action::Commit { message: self.review.draft.clone() }
                },
                Err(e) => {
                    self.phase = Phase::Failed;
                    Action::Fail {
                        error: WorkflowError {
                            path: self.path.clone(),
                            step: StepKind::Staging,
                            kind: ErrorKind::Repo(e),
                        },
                    }
                },
            },
            (Phase::CommitWait, Event::CommitDone(res)) => match res {
                Ok(_) => {
                    self.committed = true;
                    if self.auto_push {
                        self.phase = Phase::PushWait;
                        Action::Push
                    } else {
                        self.phase = Phase::Done;
                        Action::Finish
                    }
                },
                Err(e) => {
                    self.phase = Phase::Failed;
                    Action::Fail {
                        error: WorkflowError {
                            path: self.path.clone(),
                            step: StepKind::Committing,
                            kind: ErrorKind::Repo(e),
                        },
                    }
                },
            },
            (Phase::PushWait, Event::PushDone(res)) => match res {
                Ok(_) => {
                    self.pushed = true;
                    self.phase = Phase::Done;
                    Action::Finish
                },
                Err(e) => {
                    self.phase = Phase::Failed;
                    Action::Fail {
                        error: WorkflowError {
                            path: self.path.clone(),
                            step: StepKind::Pushing,
                            kind: ErrorKind::Repo(e),
                        },
                    }
                },
            },
            _ => vstd::pervasive::unreached(),
        }
    }
}

} // verus!
