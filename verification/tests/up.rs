use stack_lifecycle::commands::up::{UpCommand, UpPhase};
use stack_lifecycle::interval::PollInterval;
use stack_lifecycle::model::{
    ChangeSetDescription, ChangeSetSummary, StackEvent, Timestamp,
};
use stack_lifecycle::naming::{ChangeSetName, UtcStamp};
use stack_lifecycle::protocol::{Action, Event, Failure, Outcome, Prompt};
use stack_lifecycle::status::{
    ChangeSetStatus, ChangeSetType, ExecutionStatus, ResourceStatus, StackStatus,
};

const STACK: &str = "demo";
const TEMPLATE: &str = "infra/stack.pkl";
const EVERY: PollInterval = PollInterval { seconds: 5 };

fn clock() -> Timestamp {
    Timestamp::new(1_700_000_000, 250).unwrap()
}

fn text(s: &str) -> String {
    s.to_string()
}

fn calendar() -> UtcStamp {
    UtcStamp::new(2023, 11, 14, 22, 13, 20, 123_456_789).unwrap()
}

fn submission(kind: ChangeSetType, template: &str) -> Action {
    Action::SubmitChangeSet {
        name: ChangeSetName { stack: text(STACK), at: calendar() },
        kind,
        template: text(template),
    }
}

fn description(id: &str) -> ChangeSetDescription {
    ChangeSetDescription {
        change_set_id: Some(text(id)),
        change_set_name: Some(text("demo-20231114-221320-000000")),
        status: Some(ChangeSetStatus::CreateComplete),
        status_reason: None,
        changes: Vec::new(),
    }
}

fn summary(id: Option<&str>, execution: Option<ExecutionStatus>) -> ChangeSetSummary {
    ChangeSetSummary { change_set_id: id.map(text), execution_status: execution }
}

fn failed_event() -> StackEvent {
    StackEvent {
        timestamp: Timestamp::new(1_700_000_100, 0),
        logical_resource_id: Some(text("Bucket")),
        resource_type: Some(text("AWS::S3::Bucket")),
        resource_status: Some(ResourceStatus::CreateFailed),
        resource_status_reason: Some(text("name taken")),
        resource_properties: Some(text("{}")),
    }
}

fn begin(resubmit: bool) -> (UpCommand, Action) {
    UpCommand::new(text(STACK), text(TEMPLATE), EVERY, resubmit)
}

/// Hands the events to the command one after the other and gives the
/// actions it asked for, the first one included.
fn actions_of(resubmit: bool, events: Vec<Event>) -> Vec<Action> {
    let (mut command, first) = begin(resubmit);
    let mut actions = vec![first];
    for event in events {
        let (next, action) = command.step(event);
        command = next;
        actions.push(action);
    }
    actions
}

fn settled(status: StackStatus) -> Event {
    Event::StackStatus(status, text("as it is"))
}

/// The events of a creation or update up to the question, for the change
/// set `id`.
fn up_to_the_question(id: &str) -> Vec<Event> {
    vec![
        Event::Template(text("{\"Resources\":{}}")),
        Event::Calendar(calendar()),
        Event::Submitted(Some(text(id))),
        Event::ChangeSetStatus(ChangeSetStatus::CreateInProgress, text("")),
        Event::Slept,
        Event::ChangeSetStatus(ChangeSetStatus::CreateComplete, text("")),
        Event::ChangeSet(description(id)),
        Event::Shown,
    ]
}

/// The actions that answer `up_to_the_question`.
fn asked_up_to_the_question(id: &str, kind: ChangeSetType) -> Vec<Action> {
    vec![
        Action::ReadCalendar,
        submission(kind, "{\"Resources\":{}}"),
        Action::QueryChangeSet(text(id)),
        Action::Sleep(EVERY),
        Action::QueryChangeSet(text(id)),
        Action::DescribeChangeSet(text(id)),
        Action::ShowChangeSet(description(id)),
        Action::Confirm(Prompt::Continue),
    ]
}

#[test]
fn up_begins_by_asking_for_the_status_of_the_stack() {
    let (command, first) = begin(false);
    assert_eq!(first, Action::QueryStack(text(STACK)));
    assert_eq!(command.stack, STACK);
    assert_eq!(command.template, TEMPLATE);
    assert_eq!(command.pool_interval, EVERY);
    assert!(!command.resubmit);
}

#[test]
fn up_on_a_stack_that_does_not_exist_creates_and_the_refusal_deletes_the_change_set() {
    let mut events = vec![Event::Failed(Failure::NotFound), Event::Clock(clock())];
    events.extend(up_to_the_question("cs-1"));
    events.extend(vec![
        Event::Answer(false),
        Event::Accepted,
        settled(StackStatus::ReviewInProgress),
        Event::Events(Vec::new()),
        Event::Shown,
    ]);
    let mut expected = vec![
        Action::QueryStack(text(STACK)),
        Action::ReadClock,
        Action::RenderTemplate(text(TEMPLATE)),
    ];
    expected.extend(asked_up_to_the_question("cs-1", ChangeSetType::Create));
    expected.extend(vec![
        Action::DeleteChangeSet(text("cs-1")),
        Action::QueryStack(text(STACK)),
        Action::ListEvents(text(STACK)),
        Action::ShowFailures { events: Vec::new(), since: clock() },
        Action::Finish(Outcome::Unsuccessful(StackStatus::ReviewInProgress)),
    ]);
    let actions = actions_of(false, events);
    assert_eq!(actions, expected);
    assert!(!actions.iter().any(|a| matches!(a, Action::ExecuteChangeSet(_))));
    match actions.last() {
        Some(Action::Finish(outcome)) => assert!(outcome.is_clean()),
        other => panic!("the command did not finish: {other:?}"),
    }
}

#[test]
fn up_on_a_deleted_stack_creates_it() {
    let mut events = vec![settled(StackStatus::DeleteComplete), Event::Clock(clock())];
    events.extend(up_to_the_question("cs-2"));
    events.extend(vec![
        Event::Answer(true),
        Event::Accepted,
        settled(StackStatus::CreateInProgress),
        Event::Slept,
        settled(StackStatus::CreateComplete),
    ]);
    let mut expected = vec![
        Action::QueryStack(text(STACK)),
        Action::ReadClock,
        Action::RenderTemplate(text(TEMPLATE)),
    ];
    expected.extend(asked_up_to_the_question("cs-2", ChangeSetType::Create));
    expected.extend(vec![
        Action::ExecuteChangeSet(text("cs-2")),
        Action::QueryStack(text(STACK)),
        Action::Sleep(EVERY),
        Action::QueryStack(text(STACK)),
        Action::Finish(Outcome::Succeeded),
    ]);
    assert_eq!(actions_of(false, events), expected);
}

#[test]
fn up_on_a_complete_stack_updates_it() {
    for status in [
        StackStatus::CreateComplete,
        StackStatus::ImportComplete,
        StackStatus::UpdateComplete,
        StackStatus::UpdateRollbackComplete,
    ] {
        let mut events = vec![settled(status), Event::Clock(clock())];
        events.extend(up_to_the_question("cs-3"));
        events.extend(vec![
            Event::Answer(true),
            Event::Accepted,
            settled(StackStatus::UpdateComplete),
        ]);
        let mut expected = vec![
            Action::QueryStack(text(STACK)),
            Action::ReadClock,
            Action::RenderTemplate(text(TEMPLATE)),
        ];
        expected.extend(asked_up_to_the_question("cs-3", ChangeSetType::Update));
        expected.extend(vec![
            Action::ExecuteChangeSet(text("cs-3")),
            Action::QueryStack(text(STACK)),
            Action::Finish(Outcome::Succeeded),
        ]);
        assert_eq!(actions_of(false, events), expected, "{status:?}");
    }
}

#[test]
fn up_waits_for_a_running_operation_before_it_reads_the_clock() {
    let actions = actions_of(
        false,
        vec![
            settled(StackStatus::UpdateInProgress),
            Event::Slept,
            settled(StackStatus::UpdateInProgress),
            Event::Slept,
            settled(StackStatus::UpdateComplete),
            Event::Clock(clock()),
        ],
    );
    assert_eq!(
        actions,
        vec![
            Action::QueryStack(text(STACK)),
            Action::Sleep(EVERY),
            Action::QueryStack(text(STACK)),
            Action::Sleep(EVERY),
            Action::QueryStack(text(STACK)),
            Action::ReadClock,
            Action::RenderTemplate(text(TEMPLATE)),
        ]
    );
}

#[test]
fn up_reports_the_failures_of_an_update_that_did_not_complete() {
    let mut events = vec![settled(StackStatus::UpdateComplete), Event::Clock(clock())];
    events.extend(up_to_the_question("cs-4"));
    events.extend(vec![
        Event::Answer(true),
        Event::Accepted,
        settled(StackStatus::UpdateRollbackInProgress),
        Event::Slept,
        settled(StackStatus::UpdateRollbackComplete),
        Event::Events(vec![failed_event()]),
        Event::Shown,
    ]);
    let actions = actions_of(false, events);
    assert_eq!(
        actions[actions.len() - 3..],
        [
            Action::ListEvents(text(STACK)),
            Action::ShowFailures { events: vec![failed_event()], since: clock() },
            Action::Finish(Outcome::Unsuccessful(StackStatus::UpdateRollbackComplete)),
        ]
    );
    assert!(Outcome::Unsuccessful(StackStatus::UpdateRollbackComplete).is_clean());
}

#[test]
fn up_recreates_a_stack_whose_creation_failed() {
    for status in [StackStatus::CreateFailed, StackStatus::RollbackComplete] {
        let actions = actions_of(
            false,
            vec![
                settled(status),
                Event::Clock(clock()),
                Event::Answer(true),
                Event::Accepted,
                settled(StackStatus::DeleteInProgress),
                Event::Slept,
                Event::Failed(Failure::NotFound),
                Event::Template(text("{}")),
                Event::Calendar(calendar()),
            ],
        );
        assert_eq!(
            actions,
            vec![
                Action::QueryStack(text(STACK)),
                Action::ReadClock,
                Action::Confirm(Prompt::Recreate),
                Action::DeleteStack(text(STACK)),
                Action::QueryStack(text(STACK)),
                Action::Sleep(EVERY),
                Action::QueryStack(text(STACK)),
                Action::RenderTemplate(text(TEMPLATE)),
                Action::ReadCalendar,
                submission(ChangeSetType::Create, "{}"),
            ],
            "{status:?}"
        );
    }
}

#[test]
fn up_tolerates_any_failure_while_it_waits_for_the_deletion() {
    let actions = actions_of(
        false,
        vec![
            settled(StackStatus::CreateFailed),
            Event::Clock(clock()),
            Event::Answer(true),
            Event::Accepted,
            Event::Failed(Failure::Remote(text("connection reset"))),
        ],
    );
    assert_eq!(actions.last(), Some(&Action::RenderTemplate(text(TEMPLATE))));
}

#[test]
fn up_does_not_recreate_without_the_operators_yes() {
    let actions = actions_of(
        false,
        vec![settled(StackStatus::RollbackComplete), Event::Clock(clock()), Event::Answer(false)],
    );
    assert_eq!(
        actions,
        vec![
            Action::QueryStack(text(STACK)),
            Action::ReadClock,
            Action::Confirm(Prompt::Recreate),
            Action::Finish(Outcome::Declined),
        ]
    );
    assert!(Outcome::Declined.is_clean());
}

#[test]
fn up_on_a_stack_in_review_lists_the_change_sets_first_and_applies_the_pending_one() {
    let actions = actions_of(
        false,
        vec![
            settled(StackStatus::ReviewInProgress),
            Event::Clock(clock()),
            Event::ChangeSets(vec![
                summary(Some("cs-old"), Some(ExecutionStatus::Obsolete)),
                summary(Some("cs-wait"), Some(ExecutionStatus::Available)),
                summary(Some("cs-late"), Some(ExecutionStatus::Available)),
            ]),
            Event::ChangeSet(description("cs-wait")),
            Event::Shown,
            Event::Answer(true),
            Event::Accepted,
            Event::ChangeSetStatus(ChangeSetStatus::CreateComplete, text("")),
            settled(StackStatus::CreateComplete),
        ],
    );
    assert_eq!(
        actions,
        vec![
            Action::QueryStack(text(STACK)),
            Action::ReadClock,
            Action::ListChangeSets(text(STACK)),
            Action::DescribeChangeSet(text("cs-wait")),
            Action::ShowChangeSet(description("cs-wait")),
            Action::Confirm(Prompt::ApplyPending),
            Action::ExecuteChangeSet(text("cs-wait")),
            Action::QueryChangeSet(text("cs-wait")),
            Action::QueryStack(text(STACK)),
            Action::Finish(Outcome::Succeeded),
        ]
    );
}

#[test]
fn up_fails_when_no_change_set_waits_on_a_stack_in_review() {
    let actions = actions_of(
        false,
        vec![
            settled(StackStatus::ReviewInProgress),
            Event::Clock(clock()),
            Event::ChangeSets(vec![
                summary(Some("cs-old"), Some(ExecutionStatus::Obsolete)),
                summary(Some("cs-none"), None),
            ]),
        ],
    );
    assert_eq!(
        actions.last(),
        Some(&Action::Finish(Outcome::Failed(Failure::PendingChangeSetNotFound)))
    );
    assert!(!Outcome::Failed(Failure::PendingChangeSetNotFound).is_clean());
}

#[test]
fn up_fails_when_the_pending_change_set_has_no_id() {
    let actions = actions_of(
        false,
        vec![
            settled(StackStatus::ReviewInProgress),
            Event::Clock(clock()),
            Event::ChangeSets(vec![summary(None, Some(ExecutionStatus::Available))]),
        ],
    );
    assert_eq!(
        actions.last(),
        Some(&Action::Finish(Outcome::Failed(Failure::EmptyChangeSetId)))
    );
}

fn review_declined(resubmit: bool, rest: Vec<Event>) -> Vec<Action> {
    let mut events = vec![
        settled(StackStatus::ReviewInProgress),
        Event::Clock(clock()),
        Event::ChangeSets(vec![summary(Some("cs-wait"), Some(ExecutionStatus::Available))]),
        Event::ChangeSet(description("cs-wait")),
        Event::Shown,
        Event::Answer(false),
    ];
    events.extend(rest);
    actions_of(resubmit, events)[6..].to_vec()
}

#[test]
fn up_asks_whether_to_delete_a_pending_change_set_that_is_not_applied() {
    assert_eq!(review_declined(false, vec![]), vec![Action::Confirm(Prompt::DeletePending)]);
}

#[test]
fn up_leaves_a_pending_change_set_alone_if_told_so() {
    assert_eq!(
        review_declined(false, vec![Event::Answer(false)]),
        vec![Action::Confirm(Prompt::DeletePending), Action::QueryStack(text(STACK))]
    );
}

#[test]
fn up_stops_after_deleting_the_pending_change_set_unless_set_to_resubmit() {
    assert_eq!(
        review_declined(false, vec![Event::Answer(true), Event::Accepted]),
        vec![
            Action::Confirm(Prompt::DeletePending),
            Action::DeleteChangeSet(text("cs-wait")),
            Action::QueryStack(text(STACK)),
        ]
    );
}

#[test]
fn up_submits_a_fresh_change_set_after_deleting_the_pending_one_if_set_to() {
    assert_eq!(
        review_declined(
            true,
            vec![
                Event::Answer(true),
                Event::Accepted,
                Event::ChangeSetStatus(ChangeSetStatus::DeleteInProgress, text("")),
                Event::Slept,
                Event::ChangeSetStatus(ChangeSetStatus::DeleteComplete, text("")),
                Event::Template(text("{}")),
                Event::Calendar(calendar()),
            ]
        ),
        vec![
            Action::Confirm(Prompt::DeletePending),
            Action::DeleteChangeSet(text("cs-wait")),
            Action::QueryChangeSet(text("cs-wait")),
            Action::Sleep(EVERY),
            Action::QueryChangeSet(text("cs-wait")),
            Action::RenderTemplate(text(TEMPLATE)),
            Action::ReadCalendar,
            submission(ChangeSetType::Update, "{}"),
        ]
    );
}

#[test]
fn up_fails_when_the_pending_change_set_cannot_be_deleted() {
    let actions = review_declined(
        true,
        vec![
            Event::Answer(true),
            Event::Accepted,
            Event::ChangeSetStatus(ChangeSetStatus::DeleteFailed, text("in use")),
        ],
    );
    let failure = Failure::ChangeSetNotDeleted { id: text("cs-wait"), reason: text("in use") };
    assert_eq!(failure.message(), "Unable to delete the change set cs-wait: in use");
    assert_eq!(actions.last(), Some(&Action::Finish(Outcome::Failed(failure))));
}

#[test]
fn up_changes_nothing_from_a_status_that_allows_nothing() {
    for status in [
        StackStatus::DeleteFailed,
        StackStatus::ImportRollbackComplete,
        StackStatus::ImportRollbackFailed,
        StackStatus::RollbackFailed,
        StackStatus::UpdateFailed,
        StackStatus::UpdateRollbackFailed,
        StackStatus::Unknown,
    ] {
        let actions = actions_of(
            false,
            vec![Event::StackStatus(status, text("why")), Event::Clock(clock())],
        );
        assert_eq!(
            actions,
            vec![
                Action::QueryStack(text(STACK)),
                Action::ReadClock,
                Action::Finish(Outcome::Aborted { status, reason: text("why") }),
            ],
            "{status:?}"
        );
        assert!(actions.iter().all(|a| !a.is_mutation()));
        assert!(Outcome::Aborted { status, reason: text("why") }.is_clean());
    }
}

#[test]
fn up_fails_when_the_first_query_fails_otherwise_than_by_absence() {
    let failure = Failure::Remote(text("access denied"));
    assert_eq!(
        actions_of(false, vec![Event::Failed(failure.clone())]),
        vec![Action::QueryStack(text(STACK)), Action::Finish(Outcome::Failed(failure))]
    );
}

#[test]
fn up_fails_when_a_call_fails() {
    let failure = Failure::Remote(text("boom"));
    let before = vec![settled(StackStatus::CreateComplete), Event::Clock(clock())];
    let steps = up_to_the_question("cs-5");
    for fail_at in 0..steps.len() {
        if matches!(steps[fail_at], Event::Slept | Event::Shown) {
            continue;
        }
        let mut events = before.clone();
        events.extend(steps[..fail_at].iter().cloned());
        events.push(Event::Failed(failure.clone()));
        let actions = actions_of(false, events);
        assert_eq!(
            actions.last(),
            Some(&Action::Finish(Outcome::Failed(failure.clone()))),
            "failing at step {fail_at}"
        );
    }
}

#[test]
fn up_fails_when_the_template_does_not_render() {
    let failure = Failure::Template(text("pkl: cannot find module"));
    let actions = actions_of(
        false,
        vec![
            Event::Failed(Failure::NotFound),
            Event::Clock(clock()),
            Event::Failed(failure.clone()),
        ],
    );
    assert_eq!(actions.last(), Some(&Action::Finish(Outcome::Failed(failure.clone()))));
    assert_eq!(failure.message(), "pkl: cannot find module");
    assert!(actions.iter().all(|a| !a.is_mutation()));
}

#[test]
fn up_fails_when_the_submitted_change_set_has_no_id() {
    let actions = actions_of(
        false,
        vec![
            Event::Failed(Failure::NotFound),
            Event::Clock(clock()),
            Event::Template(text("{}")),
            Event::Calendar(calendar()),
            Event::Submitted(None),
        ],
    );
    assert_eq!(
        actions.last(),
        Some(&Action::Finish(Outcome::Failed(Failure::EmptyChangeSetId)))
    );
    assert_eq!(Failure::EmptyChangeSetId.message(), "Empty change set id");
}

#[test]
fn up_fails_when_the_stack_is_gone_after_the_operation() {
    let mut events = vec![settled(StackStatus::CreateComplete), Event::Clock(clock())];
    events.extend(up_to_the_question("cs-6"));
    events.extend(vec![Event::Answer(true), Event::Accepted, Event::Failed(Failure::NotFound)]);
    assert_eq!(
        actions_of(false, events).last(),
        Some(&Action::Finish(Outcome::Failed(Failure::NotFound)))
    );
}

#[test]
fn up_ends_on_an_event_it_did_not_ask_for() {
    let out_of_place = Action::Finish(Outcome::Failed(Failure::UnexpectedEvent));
    assert_eq!(
        actions_of(false, vec![Event::Answer(true)]).last(),
        Some(&out_of_place)
    );
    assert_eq!(
        actions_of(false, vec![settled(StackStatus::CreateComplete), Event::Shown]).last(),
        Some(&out_of_place)
    );
    let (command, _) = begin(false);
    let (ended, _) = command.step(Event::Answer(true));
    assert_eq!(ended.phase, UpPhase::Finished);
    let (still_ended, action) = ended.step(settled(StackStatus::CreateComplete));
    assert_eq!(still_ended.phase, UpPhase::Finished);
    assert_eq!(action, out_of_place);
}

#[test]
fn up_reads_the_clock_before_it_changes_anything() {
    let mut events = vec![settled(StackStatus::CreateFailed), Event::Clock(clock())];
    events.extend(vec![Event::Answer(true), Event::Accepted, settled(StackStatus::DeleteComplete)]);
    events.extend(up_to_the_question("cs-7"));
    events.push(Event::Answer(true));
    let actions = actions_of(false, events);
    let first_change = actions.iter().position(|a| a.is_mutation()).unwrap();
    let clock_read = actions.iter().position(|a| *a == Action::ReadClock).unwrap();
    assert!(clock_read < first_change);
    assert_eq!(actions.iter().filter(|a| a.is_mutation()).count(), 3);
}

#[test]
fn up_gives_up_a_wait_that_takes_too_long() {
    let (command, first) = begin(false);
    let mut command = command.with_poll_limit(2);
    assert_eq!(command.poll_limit, Some(2));
    let mut actions = vec![first];
    for event in [
        settled(StackStatus::UpdateInProgress),
        Event::Slept,
        settled(StackStatus::UpdateInProgress),
    ] {
        let (next, action) = command.step(event);
        command = next;
        actions.push(action);
    }
    assert_eq!(
        actions,
        vec![
            Action::QueryStack(text(STACK)),
            Action::Sleep(EVERY),
            Action::QueryStack(text(STACK)),
            Action::Finish(Outcome::Failed(Failure::Timeout)),
        ]
    );
}

#[test]
fn up_counts_every_wait_anew() {
    let (command, first) = begin(false);
    let mut command = command.with_poll_limit(2);
    let mut events = vec![
        settled(StackStatus::UpdateInProgress),
        Event::Slept,
        settled(StackStatus::UpdateComplete),
        Event::Clock(clock()),
        Event::Template(text("{}")),
        Event::Calendar(calendar()),
        Event::Submitted(Some(text("cs"))),
        Event::ChangeSetStatus(ChangeSetStatus::CreateInProgress, text("")),
        Event::Slept,
        Event::ChangeSetStatus(ChangeSetStatus::CreateComplete, text("")),
    ];
    let mut actions = vec![first];
    for event in events.drain(..) {
        let (next, action) = command.step(event);
        command = next;
        actions.push(action);
    }
    assert_eq!(actions.last(), Some(&Action::DescribeChangeSet(text("cs"))));
}

#[test]
fn up_tolerates_a_timeout_while_it_waits_for_the_deletion() {
    let (command, first) = begin(false);
    let mut command = command.with_poll_limit(1);
    let mut actions = vec![first];
    for event in [
        settled(StackStatus::CreateFailed),
        Event::Clock(clock()),
        Event::Answer(true),
        Event::Accepted,
        settled(StackStatus::DeleteInProgress),
    ] {
        let (next, action) = command.step(event);
        command = next;
        actions.push(action);
    }
    assert_eq!(actions.last(), Some(&Action::RenderTemplate(text(TEMPLATE))));
}

#[test]
fn up_submits_under_the_name_of_the_moment_just_read() {
    let actions = actions_of(
        false,
        vec![
            Event::Failed(Failure::NotFound),
            Event::Clock(clock()),
            Event::Template(text("{}")),
            Event::Calendar(calendar()),
        ],
    );
    match actions.last() {
        Some(Action::SubmitChangeSet { name, kind, template }) => {
            assert_eq!(name.stack, STACK);
            assert_eq!(name.at, calendar());
            assert_eq!(name.text(), "demo-20231114-221320-123456");
            assert_eq!(*kind, ChangeSetType::Create);
            assert_eq!(template, "{}");
        }
        other => panic!("nothing was submitted: {other:?}"),
    }
}

#[test]
fn up_fails_when_the_calendar_cannot_be_read() {
    let failure = Failure::Remote(text("no clock"));
    let actions = actions_of(
        false,
        vec![
            Event::Failed(Failure::NotFound),
            Event::Clock(clock()),
            Event::Template(text("{}")),
            Event::Failed(failure.clone()),
        ],
    );
    assert_eq!(actions.last(), Some(&Action::Finish(Outcome::Failed(failure))));
    assert!(actions.iter().all(|a| !a.is_mutation()));
}
