use stack_lifecycle::branch::{select_preview_branch, select_up_branch, Branch};
use stack_lifecycle::client::{
    change_set_status, contains_bytes, describe_failure, pending_change_set, pending_index,
    stack_status,
};
use stack_lifecycle::model::{ChangeSetDescription, ChangeSetSummary, Stack};
use stack_lifecycle::protocol::{Event, Failure, Outcome, Prompt};
use stack_lifecycle::renderer::{eval_arguments, eval_result, RENDERER};
use stack_lifecycle::status::{ChangeSetStatus, ExecutionStatus, StackStatus};

fn text(s: &str) -> String {
    s.to_string()
}

fn stack(status: Option<StackStatus>, reason: Option<&str>) -> Stack {
    Stack {
        stack_id: None,
        stack_name: Some(text("demo")),
        parent_id: None,
        description: None,
        creation_time: None,
        last_updated_time: None,
        stack_status: status,
        stack_status_reason: reason.map(text),
        parameters: Vec::new(),
        change_set_id: None,
    }
}

fn change_set(status: Option<ChangeSetStatus>, reason: Option<&str>) -> ChangeSetDescription {
    ChangeSetDescription {
        change_set_id: None,
        change_set_name: None,
        status,
        status_reason: reason.map(text),
        changes: Vec::new(),
    }
}

fn summary(id: &str, execution: Option<ExecutionStatus>) -> ChangeSetSummary {
    ChangeSetSummary { change_set_id: Some(text(id)), execution_status: execution }
}

#[test]
fn the_status_of_a_stack_is_that_of_the_first_one_listed() {
    let stacks = Some(vec![
        stack(Some(StackStatus::UpdateFailed), Some("a resource failed")),
        stack(Some(StackStatus::CreateComplete), None),
    ]);
    assert_eq!(
        stack_status(&stacks),
        Ok((StackStatus::UpdateFailed, text("a resource failed")))
    );
}

#[test]
fn a_status_without_reason_has_an_unknown_reason() {
    assert_eq!(
        stack_status(&Some(vec![stack(Some(StackStatus::CreateComplete), None)])),
        Ok((StackStatus::CreateComplete, text("Unknown reason")))
    );
    assert_eq!(
        change_set_status(&change_set(Some(ChangeSetStatus::CreatePending), None)),
        Ok((ChangeSetStatus::CreatePending, text("Unknown reason")))
    );
}

#[test]
fn an_answer_without_stacks_or_status_is_a_failure() {
    assert_eq!(stack_status(&None), Err(Failure::NoStacksList));
    assert_eq!(stack_status(&Some(Vec::new())), Err(Failure::EmptyStacksList));
    assert_eq!(
        stack_status(&Some(vec![stack(None, Some("reason alone"))])),
        Err(Failure::MissingStatus)
    );
    assert_eq!(
        change_set_status(&change_set(None, Some("reason alone"))),
        Err(Failure::MissingStatus)
    );
    assert_eq!(Failure::NoStacksList.message(), "No stacks list");
    assert_eq!(Failure::EmptyStacksList.message(), "Empty stacks list");
    assert_eq!(Failure::MissingStatus.message(), "Stack without status");
    assert_eq!(Failure::MissingStackId.message(), "Stack without id");
    assert_eq!(Failure::UnexpectedEvent.message(), "Unexpected event");
    assert_eq!(Failure::Remote(text("as the service said")).message(), "as the service said");
}

#[test]
fn the_status_of_a_change_set_comes_with_its_reason() {
    assert_eq!(
        change_set_status(&change_set(Some(ChangeSetStatus::Failed), Some("no changes"))),
        Ok((ChangeSetStatus::Failed, text("no changes")))
    );
}

#[test]
fn the_pending_change_set_is_the_first_that_can_be_executed() {
    let listed = vec![
        summary("a", Some(ExecutionStatus::Unavailable)),
        summary("b", None),
        summary("c", Some(ExecutionStatus::Available)),
        summary("d", Some(ExecutionStatus::ExecuteFailed)),
        summary("e", Some(ExecutionStatus::Available)),
    ];
    assert_eq!(pending_index(&listed), Some(2));
    assert_eq!(
        pending_change_set(listed),
        Some(summary("c", Some(ExecutionStatus::Available)))
    );
}

#[test]
fn there_is_no_pending_change_set_where_none_can_be_executed() {
    let listed = vec![
        summary("a", Some(ExecutionStatus::ExecuteComplete)),
        summary("b", Some(ExecutionStatus::ExecuteInProgress)),
        summary("c", Some(ExecutionStatus::Obsolete)),
        summary("d", Some(ExecutionStatus::Unknown)),
    ];
    assert_eq!(pending_index(&listed), None);
    assert_eq!(pending_change_set(listed), None);
    assert_eq!(pending_change_set(Vec::new()), None);
}

#[test]
fn the_branch_of_up_follows_the_status() {
    let cases = [
        (None, Branch::Create),
        (Some(StackStatus::DeleteComplete), Branch::Create),
        (Some(StackStatus::CreateComplete), Branch::Update),
        (Some(StackStatus::ImportComplete), Branch::Update),
        (Some(StackStatus::UpdateComplete), Branch::Update),
        (Some(StackStatus::UpdateRollbackComplete), Branch::Update),
        (Some(StackStatus::CreateFailed), Branch::Recreate),
        (Some(StackStatus::RollbackComplete), Branch::Recreate),
        (Some(StackStatus::ReviewInProgress), Branch::Resume),
        (Some(StackStatus::DeleteFailed), Branch::Abort),
        (Some(StackStatus::ImportRollbackComplete), Branch::Abort),
        (Some(StackStatus::ImportRollbackFailed), Branch::Abort),
        (Some(StackStatus::RollbackFailed), Branch::Abort),
        (Some(StackStatus::UpdateFailed), Branch::Abort),
        (Some(StackStatus::UpdateRollbackFailed), Branch::Abort),
        (Some(StackStatus::Unknown), Branch::Abort),
        (Some(StackStatus::CreateInProgress), Branch::Wait),
        (Some(StackStatus::DeleteInProgress), Branch::Wait),
        (Some(StackStatus::ImportInProgress), Branch::Wait),
        (Some(StackStatus::ImportRollbackInProgress), Branch::Wait),
        (Some(StackStatus::RollbackInProgress), Branch::Wait),
        (Some(StackStatus::UpdateCompleteCleanupInProgress), Branch::Wait),
        (Some(StackStatus::UpdateInProgress), Branch::Wait),
        (Some(StackStatus::UpdateRollbackCompleteCleanupInProgress), Branch::Wait),
        (Some(StackStatus::UpdateRollbackInProgress), Branch::Wait),
    ];
    for (observed, branch) in cases {
        assert_eq!(select_up_branch(observed), branch, "{observed:?}");
        let previewed = if branch == Branch::Recreate { Branch::Abort } else { branch };
        assert_eq!(select_preview_branch(observed), previewed, "{observed:?}");
    }
}

#[test]
fn the_renderer_is_called_on_the_template_within_its_project() {
    assert_eq!(RENDERER, "pkl");
    assert_eq!(
        eval_arguments("infra/stack.pkl", "infra"),
        vec!["eval", "infra/stack.pkl", "--project-dir", "infra", "--format", "json"]
    );
}

#[test]
fn a_rendering_that_failed_gives_its_errors_word_for_word() {
    assert_eq!(
        eval_result(true, text("{\"Resources\":{}}"), text("a warning")),
        Event::Template(text("{\"Resources\":{}}"))
    );
    assert_eq!(
        eval_result(false, text("half an output"), text("–– Pkl Error ––\nCannot find module")),
        Event::Failed(Failure::Template(text("–– Pkl Error ––\nCannot find module")))
    );
}

#[test]
fn only_a_failure_makes_the_process_fail() {
    assert!(Outcome::Succeeded.is_clean());
    assert!(Outcome::Shown.is_clean());
    assert!(Outcome::Declined.is_clean());
    assert!(Outcome::Unsuccessful(StackStatus::UpdateFailed).is_clean());
    assert!(Outcome::Aborted { status: StackStatus::UpdateFailed, reason: String::new() }
        .is_clean());
    assert!(!Outcome::Failed(Failure::NotFound).is_clean());
}

#[test]
fn the_questions_in_words() {
    assert_eq!(Prompt::Continue.text(), "Do you want to continue?");
    assert_eq!(Prompt::ApplyPending.text(), "Do you want to apply this change set?");
    assert_eq!(Prompt::DeletePending.text(), "Do you want to delete this change set?");
    assert_eq!(
        Prompt::Recreate.text(),
        "Do you want to delete the stack and create it again?"
    );
}

#[test]
fn a_refusal_that_says_so_means_that_the_stack_does_not_exist() {
    assert_eq!(
        describe_failure(
            Some("ValidationError"),
            Some("Stack with id demo does not exist"),
            text("service error")
        ),
        Failure::NotFound
    );
    assert_eq!(
        describe_failure(Some("ValidationError"), Some("does not exist"), text("e")),
        Failure::NotFound
    );
}

#[test]
fn any_other_refusal_is_a_failed_call() {
    let cases = [
        (Some("ValidationError"), Some("Stack name is not valid")),
        (Some("ValidationError"), Some("does not exis")),
        (Some("ValidationError"), None),
        (Some("AccessDenied"), Some("Stack with id demo does not exist")),
        (Some("ValidationErrors"), Some("Stack with id demo does not exist")),
        (Some("ValidationErro"), Some("Stack with id demo does not exist")),
        (Some("validationerror"), Some("Stack with id demo does not exist")),
        (Some(""), Some("does not exist")),
        (None, Some("Stack with id demo does not exist")),
        (None, None),
    ];
    for (code, message) in cases {
        assert_eq!(
            describe_failure(code, message, text("as the service said")),
            Failure::Remote(text("as the service said")),
            "{code:?} {message:?}"
        );
    }
}

#[test]
fn bytes_are_sought_everywhere_in_a_text() {
    assert!(contains_bytes(b"", b""));
    assert!(contains_bytes(b"", b"abc"));
    assert!(contains_bytes(b"abc", b"abc"));
    assert!(contains_bytes(b"ab", b"abc"));
    assert!(contains_bytes(b"bc", b"abc"));
    assert!(contains_bytes(b"aab", b"aaab"));
    assert!(!contains_bytes(b"abcd", b"abc"));
    assert!(!contains_bytes(b"ac", b"abc"));
    assert!(!contains_bytes(b"a", b""));
}
