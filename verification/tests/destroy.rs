use stack_lifecycle::commands::destroy::DestroyCommand;
use stack_lifecycle::diagnostics::{failed_resources, FailureReport};
use stack_lifecycle::display::Display;
use stack_lifecycle::interval::PollInterval;
use stack_lifecycle::model::{ChangeSetDescription, Stack, StackEvent, Timestamp};
use stack_lifecycle::protocol::{Action, Event, Failure, Outcome, Prompt};
use stack_lifecycle::status::{ResourceStatus, StackStatus};

const EVERY: PollInterval = PollInterval { seconds: 5 };

fn text(s: &str) -> String {
    s.to_string()
}

fn clock() -> Timestamp {
    Timestamp::new(2_000, 0).unwrap()
}

fn stack(id: Option<&str>, change_set: Option<&str>) -> Stack {
    Stack {
        stack_id: id.map(text),
        stack_name: Some(text("demo")),
        parent_id: None,
        description: None,
        creation_time: None,
        last_updated_time: None,
        stack_status: Some(StackStatus::CreateComplete),
        stack_status_reason: None,
        parameters: Vec::new(),
        change_set_id: change_set.map(text),
    }
}

fn event(seconds: i64, status: ResourceStatus, logical_id: &str, reason: &str) -> StackEvent {
    StackEvent {
        timestamp: Timestamp::new(seconds, 0),
        logical_resource_id: Some(text(logical_id)),
        resource_type: Some(text("AWS::IAM::Role")),
        resource_status: Some(status),
        resource_status_reason: Some(text(reason)),
        resource_properties: Some(text("{}")),
    }
}

fn destroyed(events: Vec<Event>) -> Vec<Action> {
    let (mut command, first) = DestroyCommand::new(text("demo"), EVERY);
    let mut actions = vec![first];
    for event in events {
        let (next, action) = command.step(event);
        command = next;
        actions.push(action);
    }
    actions
}

#[test]
fn destroy_deletes_the_stack_after_showing_it_and_asking() {
    let actions = destroyed(vec![
        Event::StackStatus(StackStatus::CreateComplete, text("")),
        Event::Clock(clock()),
        Event::Stack(stack(Some("arn:demo"), None)),
        Event::Shown,
        Event::Answer(true),
        Event::Accepted,
        Event::StackStatus(StackStatus::DeleteInProgress, text("")),
        Event::Slept,
        Event::StackStatus(StackStatus::DeleteComplete, text("")),
    ]);
    assert_eq!(
        actions,
        vec![
            Action::QueryStack(text("demo")),
            Action::ReadClock,
            Action::DescribeStack(text("demo")),
            Action::ShowStack(stack(Some("arn:demo"), None)),
            Action::Confirm(Prompt::Continue),
            Action::DeleteStack(text("arn:demo")),
            Action::QueryStack(text("demo")),
            Action::Sleep(EVERY),
            Action::QueryStack(text("demo")),
            Action::Finish(Outcome::Succeeded),
        ]
    );
}

#[test]
fn destroy_shows_the_change_set_that_waits_on_the_stack() {
    let description = ChangeSetDescription {
        change_set_id: Some(text("cs-9")),
        change_set_name: Some(text("pending")),
        status: None,
        status_reason: None,
        changes: Vec::new(),
    };
    let actions = destroyed(vec![
        Event::StackStatus(StackStatus::ReviewInProgress, text("")),
        Event::Clock(clock()),
        Event::Stack(stack(Some("arn:demo"), Some("cs-9"))),
        Event::Shown,
        Event::ChangeSet(description.clone()),
        Event::Shown,
        Event::Answer(true),
    ]);
    assert_eq!(
        actions[3..],
        [
            Action::ShowStack(stack(Some("arn:demo"), Some("cs-9"))),
            Action::DescribeChangeSet(text("cs-9")),
            Action::ShowChangeSet(description),
            Action::Confirm(Prompt::Continue),
            Action::DeleteStack(text("arn:demo")),
        ]
    );
}

#[test]
fn destroy_goes_on_whatever_the_first_wait_brings() {
    for first in [
        Event::Failed(Failure::NotFound),
        Event::Failed(Failure::Remote(text("timeout"))),
        Event::StackStatus(StackStatus::UpdateFailed, text("")),
    ] {
        assert_eq!(
            destroyed(vec![first, Event::Clock(clock())]),
            vec![
                Action::QueryStack(text("demo")),
                Action::ReadClock,
                Action::DescribeStack(text("demo")),
            ]
        );
    }
}

#[test]
fn destroy_deletes_nothing_without_the_operators_yes() {
    let actions = destroyed(vec![
        Event::StackStatus(StackStatus::CreateComplete, text("")),
        Event::Clock(clock()),
        Event::Stack(stack(Some("arn:demo"), None)),
        Event::Shown,
        Event::Answer(false),
    ]);
    assert_eq!(actions.last(), Some(&Action::Finish(Outcome::Declined)));
    assert!(actions.iter().all(|a| !a.is_mutation()));
}

#[test]
fn destroy_fails_when_the_stack_cannot_be_described() {
    let failure = Failure::Remote(text("no such stack"));
    let actions = destroyed(vec![
        Event::Failed(Failure::NotFound),
        Event::Clock(clock()),
        Event::Failed(failure.clone()),
    ]);
    assert_eq!(actions.last(), Some(&Action::Finish(Outcome::Failed(failure))));
}

#[test]
fn destroy_fails_on_a_stack_without_id() {
    let actions = destroyed(vec![
        Event::StackStatus(StackStatus::CreateComplete, text("")),
        Event::Clock(clock()),
        Event::Stack(stack(None, None)),
        Event::Shown,
        Event::Answer(true),
    ]);
    assert_eq!(
        actions.last(),
        Some(&Action::Finish(Outcome::Failed(Failure::MissingStackId)))
    );
    assert!(actions.iter().all(|a| !a.is_mutation()));
}

#[test]
fn destroy_that_ends_in_delete_failed_reports_the_failing_resources_and_ends_cleanly() {
    let history = vec![
        event(2_060, ResourceStatus::DeleteFailed, "Role", "role is in use"),
        event(2_050, ResourceStatus::UpdateFailed, "Policy", "policy is attached"),
        event(2_040, ResourceStatus::DeleteInProgress, "Policy", ""),
        event(1_000, ResourceStatus::CreateFailed, "Bucket", "an older failure"),
    ];
    let actions = destroyed(vec![
        Event::StackStatus(StackStatus::UpdateComplete, text("")),
        Event::Clock(clock()),
        Event::Stack(stack(Some("arn:demo"), None)),
        Event::Shown,
        Event::Answer(true),
        Event::Accepted,
        Event::StackStatus(StackStatus::DeleteInProgress, text("")),
        Event::Slept,
        Event::StackStatus(StackStatus::DeleteFailed, text("resources left")),
        Event::Events(history.clone()),
        Event::Shown,
    ]);
    assert_eq!(
        actions[actions.len() - 3..],
        [
            Action::ListEvents(text("demo")),
            Action::ShowFailures { events: history.clone(), since: clock() },
            Action::Finish(Outcome::Unsuccessful(StackStatus::DeleteFailed)),
        ]
    );
    assert!(Outcome::Unsuccessful(StackStatus::DeleteFailed).is_clean());

    let (shown, since) = match &actions[actions.len() - 2] {
        Action::ShowFailures { events, since } => (events, since),
        other => panic!("nothing was shown: {other:?}"),
    };
    assert_eq!(
        failed_resources(shown, since),
        vec![FailureReport {
            resource_type: text("AWS::IAM::Role"),
            logical_id: text("Policy"),
            reason: text("policy is attached"),
            properties: text("{}"),
        }]
    );
    let lines = Display::new().render_resources_errors(shown, since);
    let texts: Vec<&str> = lines.iter().map(|l| l.text.as_str()).collect();
    assert_eq!(
        texts,
        vec!["AWS::IAM::Role: Policy", "reason: policy is attached", "properties: {}"]
    );
}

#[test]
fn destroy_fails_when_the_last_wait_fails() {
    let actions = destroyed(vec![
        Event::StackStatus(StackStatus::CreateComplete, text("")),
        Event::Clock(clock()),
        Event::Stack(stack(Some("arn:demo"), None)),
        Event::Shown,
        Event::Answer(true),
        Event::Accepted,
        Event::Failed(Failure::NotFound),
    ]);
    assert_eq!(
        actions.last(),
        Some(&Action::Finish(Outcome::Failed(Failure::NotFound)))
    );
    assert_eq!(Failure::NotFound.message(), "Stack not found");
}

#[test]
fn destroy_goes_on_after_a_first_wait_that_timed_out() {
    let (command, _) = DestroyCommand::new(text("demo"), EVERY);
    let command = command.with_poll_limit(1);
    let (command, action) = command.step(Event::StackStatus(StackStatus::UpdateInProgress, text("")));
    assert_eq!(action, Action::ReadClock);
    let (_, action) = command.step(Event::Clock(clock()));
    assert_eq!(action, Action::DescribeStack(text("demo")));
}

#[test]
fn destroy_fails_when_the_deletion_does_not_settle_in_time() {
    let (command, first) = DestroyCommand::new(text("demo"), EVERY);
    let mut command = command.with_poll_limit(2);
    let mut actions = vec![first];
    for event in [
        Event::StackStatus(StackStatus::CreateComplete, text("")),
        Event::Clock(clock()),
        Event::Stack(stack(Some("arn:demo"), None)),
        Event::Shown,
        Event::Answer(true),
        Event::Accepted,
        Event::StackStatus(StackStatus::DeleteInProgress, text("")),
        Event::Slept,
        Event::StackStatus(StackStatus::DeleteInProgress, text("")),
    ] {
        let (next, action) = command.step(event);
        command = next;
        actions.push(action);
    }
    assert_eq!(
        actions.last(),
        Some(&Action::Finish(Outcome::Failed(Failure::Timeout)))
    );
}
