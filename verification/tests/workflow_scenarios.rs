use comgen::config::{CommitTemplate, LocalTemplate};
use comgen::git::ChangeStatus;
use comgen::providers::BackendError;
use comgen::review::{ReviewLoop, ReviewState, apply_prefix};
use comgen::workflow::{Action, Event, FileWorkflow, Phase};

fn templates() -> LocalTemplate {
    LocalTemplate {
        commit_types: vec!["feat".to_string(), "fix".to_string()],
        output_format: CommitTemplate {
            template: "type: subject".to_string(),
            max_length: 72,
            examples: vec!["fix: example".to_string()],
        },
    }
}

fn modified_workflow(audit_enabled: bool, auto_push: bool) -> (FileWorkflow, Action) {
    FileWorkflow::new(
        "a.txt".to_string(),
        ChangeStatus::Modified,
        String::new(),
        audit_enabled,
        auto_push,
        templates(),
        "Summarize: {{git_diff}}".to_string(),
        "Audit: {{git_diff}}".to_string(),
    )
}

#[test]
fn accepted_draft_is_staged_and_committed_without_push() {
    let (mut wf, first) = modified_workflow(false, false);
    assert!(matches!(first, Action::GetDiff));

    let action = wf.step(Event::DiffReady(Ok("+ new line".to_string())));
    let prompt = match action {
        Action::CallBackend { prompt } => prompt,
        _ => panic!("expected a backend call after the diff"),
    };
    assert!(prompt.starts_with("Summarize: + new line"));

    let action = wf.step(Event::BackendReady(Ok("fix: update a.txt".to_string())));
    match action {
        Action::AskApproval { message } => assert_eq!(message, "fix: update a.txt"),
        _ => panic!("expected the approval prompt"),
    }

    let action = wf.step(Event::OperatorLine(String::new()));
    assert!(matches!(action, Action::Stage));

    let action = wf.step(Event::StageDone(Ok(())));
    match action {
        Action::Commit { message } => assert_eq!(message, "fix: update a.txt"),
        _ => panic!("expected the commit after a successful stage"),
    }

    let action = wf.step(Event::CommitDone(Ok(())));
    assert!(matches!(action, Action::Finish));
    assert!(matches!(wf.phase, Phase::Done));
    assert!(wf.staged && wf.committed && !wf.pushed);
}

#[test]
fn one_rejection_asks_the_backend_again_with_the_same_prompt() {
    let (mut wf, _) = modified_workflow(false, false);
    let first_prompt = match wf.step(Event::DiffReady(Ok("diff".to_string()))) {
        Action::CallBackend { prompt } => prompt,
        _ => panic!("expected a backend call"),
    };
    wf.step(Event::BackendReady(Ok("fix: first try".to_string())));

    let action = wf.step(Event::OperatorLine("n".to_string()));
    match action {
        Action::CallBackend { prompt } => assert_eq!(prompt, first_prompt),
        _ => panic!("expected a regeneration call"),
    }

    let action = wf.step(Event::BackendReady(Ok("fix: correct typo".to_string())));
    match action {
        Action::AskApproval { message } => assert_eq!(message, "fix: correct typo"),
        _ => panic!("expected the approval prompt again"),
    }

    let action = wf.step(Event::OperatorLine("yes".to_string()));
    assert!(matches!(action, Action::Stage));
    assert_eq!(wf.review.backend_successes, 2);
    assert_eq!(wf.review.rejections, 1);

    wf.step(Event::StageDone(Ok(())));
    let action = wf.step(Event::CommitDone(Ok(())));
    assert!(matches!(action, Action::Finish));
}

#[test]
fn deleted_file_is_skipped_without_any_other_action() {
    let (wf, action) = FileWorkflow::new(
        "b.txt".to_string(),
        ChangeStatus::Deleted,
        String::new(),
        true,
        true,
        templates(),
        "{{git_diff}}".to_string(),
        "{{git_diff}}".to_string(),
    );
    assert!(matches!(action, Action::SkipDeleted));
    assert!(matches!(wf.phase, Phase::Done));
    assert!(!wf.staged && !wf.committed && !wf.pushed);
    assert_eq!(wf.review.backend_successes, 0);
}

#[test]
fn audit_transport_failure_continues_only_on_explicit_consent() {
    let (mut wf, _) = modified_workflow(true, false);
    let action = wf.step(Event::DiffReady(Ok("diff".to_string())));
    match action {
        Action::CallBackend { prompt } => assert_eq!(prompt, "Audit: diff"),
        _ => panic!("expected the audit backend call"),
    }

    let action = wf.step(Event::BackendReady(Err(BackendError::Transport(
        "connection reset".to_string(),
    ))));
    assert!(matches!(action, Action::AskContinueAudit));

    let action = wf.step(Event::OperatorLine("y".to_string()));
    match action {
        Action::CallBackend { prompt } => assert!(prompt.starts_with("Summarize: diff")),
        _ => panic!("expected message generation to proceed"),
    }
}

#[test]
fn audit_failure_aborts_on_uppercase_consent_letter() {
    let (mut wf, _) = modified_workflow(true, false);
    wf.step(Event::DiffReady(Ok("diff".to_string())));
    wf.step(Event::BackendReady(Err(BackendError::Transport(
        "timed out".to_string(),
    ))));
    let action = wf.step(Event::OperatorLine("Y".to_string()));
    assert!(matches!(action, Action::Fail { .. }));
    assert!(matches!(wf.phase, Phase::Failed));
}

#[test]
fn audit_failure_aborts_on_any_other_answer_without_staging() {
    let (mut wf, _) = modified_workflow(true, false);
    wf.step(Event::DiffReady(Ok("diff".to_string())));
    wf.step(Event::BackendReady(Err(BackendError::Transport(
        "timed out".to_string(),
    ))));

    let action = wf.step(Event::OperatorLine(String::new()));
    match action {
        Action::Fail { error } => {
            assert_eq!(error.path, "a.txt");
            assert!(matches!(
                error.kind,
                comgen::workflow::ErrorKind::Backend(BackendError::Transport(_))
            ));
        }
        _ => panic!("expected the run to abort"),
    }
    assert!(matches!(wf.phase, Phase::Failed));
    assert!(!wf.staged && !wf.committed && !wf.pushed);
}

#[test]
fn audit_findings_are_shown_then_generation_proceeds() {
    let (mut wf, _) = modified_workflow(true, false);
    wf.step(Event::DiffReady(Ok("diff".to_string())));
    let findings = "[{\"severity\": \"CRITICAL\", \"title\": \"t\", \"impact\": \"i\", \"context\": \"c\", \"suggestion\": \"s\"}]";
    let action = wf.step(Event::BackendReady(Ok(findings.to_string())));
    match action {
        Action::ShowAuditThenGenerate { outcome, prompt } => {
            assert_eq!(outcome.issues.len(), 1);
            assert!(outcome.has_critical_issues());
            assert_eq!(outcome.summary, "Found 1 issues");
            assert!(prompt.starts_with("Summarize: diff"));
        }
        _ => panic!("expected the findings to be shown before generation"),
    }
}

#[test]
fn push_happens_only_when_requested_and_commit_succeeded() {
    let (mut wf, _) = modified_workflow(false, true);
    wf.step(Event::DiffReady(Ok("diff".to_string())));
    wf.step(Event::BackendReady(Ok("feat: add".to_string())));
    wf.step(Event::OperatorLine(String::new()));
    wf.step(Event::StageDone(Ok(())));
    let action = wf.step(Event::CommitDone(Ok(())));
    assert!(matches!(action, Action::Push));
    let action = wf.step(Event::PushDone(Ok(())));
    assert!(matches!(action, Action::Finish));
    assert!(wf.pushed);
}

#[test]
fn failed_stage_surfaces_a_repository_error() {
    let (mut wf, _) = modified_workflow(false, false);
    wf.step(Event::DiffReady(Ok("diff".to_string())));
    wf.step(Event::BackendReady(Ok("feat: add".to_string())));
    wf.step(Event::OperatorLine(String::new()));
    let action = wf.step(Event::StageDone(Err(comgen::git::GitError::StageError(
        "no such file".to_string(),
    ))));
    match action {
        Action::Fail { error } => {
            assert!(matches!(error.step, comgen::workflow::StepKind::Staging));
            assert!(matches!(error.kind, comgen::workflow::ErrorKind::Repo(_)));
        }
        _ => panic!("expected the stage failure to end the run"),
    }
    assert!(!wf.committed);
}

#[test]
fn review_loop_counts_calls_and_rejections() {
    let mut review = ReviewLoop::new("prompt".to_string(), "api".to_string());
    assert!(matches!(review.state, ReviewState::Drafting));

    review.on_backend_success("first draft");
    assert!(matches!(review.state, ReviewState::AwaitingApproval));
    assert_eq!(review.draft, "[api] first draft");

    let approved = review.on_operator_line("N");
    assert!(!approved);
    assert!(matches!(review.state, ReviewState::Drafting));

    review.on_backend_success("second draft");
    let approved = review.on_operator_line("\n");
    assert!(approved);
    assert!(matches!(review.state, ReviewState::Approved));
    assert_eq!(review.backend_successes, 2);
    assert_eq!(review.rejections, 1);
}

#[test]
fn prefix_is_applied_only_when_configured() {
    assert_eq!(apply_prefix("", "raw text"), "raw text");
    assert_eq!(apply_prefix("team", "raw text"), "[team] raw text");
}

#[test]
fn backend_failure_while_drafting_is_fatal() {
    let (mut wf, _) = modified_workflow(false, false);
    wf.step(Event::DiffReady(Ok("diff".to_string())));
    let action = wf.step(Event::BackendReady(Err(BackendError::MalformedResponse(
        "no text".to_string(),
    ))));
    match action {
        Action::Fail { error } => {
            assert!(matches!(error.step, comgen::workflow::StepKind::Generating));
        }
        _ => panic!("expected the backend failure to end the run"),
    }
    assert!(matches!(wf.phase, Phase::Failed));
}

#[test]
fn diff_failure_is_fatal_before_any_backend_call() {
    let (mut wf, _) = modified_workflow(false, false);
    let action = wf.step(Event::DiffReady(Err(comgen::git::GitError::DiffError(
        "bad tree".to_string(),
    ))));
    match action {
        Action::Fail { error } => {
            assert!(matches!(error.step, comgen::workflow::StepKind::Diffing));
        }
        _ => panic!("expected the diff failure to end the run"),
    }
    assert_eq!(wf.review.backend_successes, 0);
}

#[test]
fn failed_commit_surfaces_a_repository_error() {
    let (mut wf, _) = modified_workflow(false, false);
    wf.step(Event::DiffReady(Ok("diff".to_string())));
    wf.step(Event::BackendReady(Ok("feat: add".to_string())));
    wf.step(Event::OperatorLine(String::new()));
    wf.step(Event::StageDone(Ok(())));
    let action = wf.step(Event::CommitDone(Err(comgen::git::GitError::CommitError(
        "nothing staged".to_string(),
    ))));
    match action {
        Action::Fail { error } => {
            assert!(matches!(error.step, comgen::workflow::StepKind::Committing));
        }
        _ => panic!("expected the commit failure to end the run"),
    }
    assert!(wf.staged && !wf.committed);
}

#[test]
fn failed_push_surfaces_a_repository_error() {
    let (mut wf, _) = modified_workflow(false, true);
    wf.step(Event::DiffReady(Ok("diff".to_string())));
    wf.step(Event::BackendReady(Ok("feat: add".to_string())));
    wf.step(Event::OperatorLine(String::new()));
    wf.step(Event::StageDone(Ok(())));
    let action = wf.step(Event::CommitDone(Ok(())));
    assert!(matches!(action, Action::Push));
    let action = wf.step(Event::PushDone(Err(comgen::git::GitError::PushError(
        "no remote".to_string(),
    ))));
    match action {
        Action::Fail { error } => {
            assert!(matches!(error.step, comgen::workflow::StepKind::Pushing));
        }
        _ => panic!("expected the push failure to end the run"),
    }
    assert!(wf.committed && !wf.pushed);
}
