use stack_lifecycle::poller::{poll_begin, poll_step, PollEvent, PollState, PollStep};
use stack_lifecycle::protocol::Failure;
use stack_lifecycle::status::{ChangeSetStatus, Progress, StackStatus};

/// Runs a wait against a service that answers with `answers` in turn.
/// Gives the number of queries, the number of sleeps and how the wait ended.
fn limited_wait_on_stack(
    answers: Vec<Result<(StackStatus, &str), Failure>>,
    limit: Option<u64>,
) -> (usize, usize, PollStep<StackStatus>) {
    let (mut state, mut step) = poll_begin::<StackStatus>();
    let mut answers = answers.into_iter();
    let mut queries = 0;
    let mut sleeps = 0;
    loop {
        let event = match step {
            PollStep::Query => {
                queries += 1;
                match answers.next().expect("the wait asked more often than scripted") {
                    Ok((status, reason)) => PollEvent::Observed(status, reason.to_string()),
                    Err(failure) => PollEvent::Unavailable(failure),
                }
            }
            PollStep::Sleep => {
                sleeps += 1;
                PollEvent::Slept
            }
            ended => return (queries, sleeps, ended),
        };
        let next = poll_step(state, event, limit);
        state = next.0;
        step = next.1;
    }
}

fn wait_on_stack(
    answers: Vec<Result<(StackStatus, &str), Failure>>,
) -> (usize, usize, PollStep<StackStatus>) {
    limited_wait_on_stack(answers, None)
}

#[test]
fn a_wait_begins_with_a_query() {
    assert_eq!(
        poll_begin::<StackStatus>(),
        (PollState::AwaitingStatus { asked: 0 }, PollStep::Query)
    );
    assert_eq!(
        poll_begin::<ChangeSetStatus>(),
        (PollState::AwaitingStatus { asked: 0 }, PollStep::Query)
    );
}

#[test]
fn settled_at_first_sight_means_no_sleep() {
    let (queries, sleeps, end) = wait_on_stack(vec![Ok((StackStatus::CreateComplete, "done"))]);
    assert_eq!(queries, 1);
    assert_eq!(sleeps, 0);
    assert_eq!(
        end,
        PollStep::Settled(StackStatus::CreateComplete, "done".to_string())
    );
}

#[test]
fn the_wait_asks_again_after_every_sleep_and_stops_when_settled() {
    let (queries, sleeps, end) = wait_on_stack(vec![
        Ok((StackStatus::UpdateInProgress, "")),
        Ok((StackStatus::UpdateInProgress, "")),
        Ok((StackStatus::UpdateCompleteCleanupInProgress, "")),
        Ok((StackStatus::UpdateComplete, "ok")),
        Ok((StackStatus::DeleteInProgress, "never asked for")),
    ]);
    assert_eq!(queries, 4);
    assert_eq!(sleeps, 3);
    assert_eq!(
        end,
        PollStep::Settled(StackStatus::UpdateComplete, "ok".to_string())
    );
}

#[test]
fn a_failed_query_ends_the_wait_and_is_not_tried_again() {
    let (queries, sleeps, end) = wait_on_stack(vec![
        Ok((StackStatus::CreateInProgress, "")),
        Err(Failure::Remote("throttled".to_string())),
        Ok((StackStatus::CreateComplete, "never asked for")),
    ]);
    assert_eq!(queries, 2);
    assert_eq!(sleeps, 1);
    assert_eq!(
        end,
        PollStep::Failed(Failure::Remote("throttled".to_string()))
    );
}

#[test]
fn review_in_progress_counts_as_settled() {
    let (queries, sleeps, end) =
        wait_on_stack(vec![Ok((StackStatus::ReviewInProgress, "awaiting review"))]);
    assert_eq!((queries, sleeps), (1, 0));
    assert_eq!(
        end,
        PollStep::Settled(StackStatus::ReviewInProgress, "awaiting review".to_string())
    );
}

#[test]
fn single_rounds_of_a_wait() {
    assert_eq!(
        poll_step(
            PollState::AwaitingStatus { asked: 0 },
            PollEvent::Observed(ChangeSetStatus::CreatePending, "r".to_string()),
            None
        ),
        (PollState::Sleeping { asked: 1 }, PollStep::Sleep)
    );
    assert_eq!(
        poll_step::<ChangeSetStatus>(PollState::Sleeping { asked: 1 }, PollEvent::Slept, None),
        (PollState::AwaitingStatus { asked: 1 }, PollStep::Query)
    );
    assert_eq!(
        poll_step(
            PollState::AwaitingStatus { asked: 1 },
            PollEvent::Observed(ChangeSetStatus::Failed, "no changes".to_string()),
            None
        ),
        (
            PollState::Finished,
            PollStep::Settled(ChangeSetStatus::Failed, "no changes".to_string())
        )
    );
}

#[test]
fn an_event_out_of_place_ends_the_wait() {
    let out_of_place = (PollState::Finished, PollStep::Failed(Failure::UnexpectedEvent));
    assert_eq!(
        poll_step::<StackStatus>(PollState::AwaitingStatus { asked: 0 }, PollEvent::Slept, None),
        out_of_place
    );
    assert_eq!(
        poll_step(
            PollState::Sleeping { asked: 1 },
            PollEvent::Observed(StackStatus::CreateComplete, String::new()),
            None
        ),
        out_of_place
    );
    assert_eq!(
        poll_step(
            PollState::Sleeping { asked: 1 },
            PollEvent::<StackStatus>::Unavailable(Failure::NotFound),
            None
        ),
        out_of_place
    );
    assert_eq!(
        poll_step::<StackStatus>(PollState::Finished, PollEvent::Slept, None),
        out_of_place
    );
}

#[test]
fn a_limited_wait_gives_up_after_its_last_query() {
    let busy = || Ok((StackStatus::UpdateInProgress, ""));
    let (queries, sleeps, end) =
        limited_wait_on_stack(vec![busy(), busy(), busy(), busy()], Some(3));
    assert_eq!((queries, sleeps), (3, 2));
    assert_eq!(end, PollStep::Failed(Failure::Timeout));
    assert_eq!(
        Failure::Timeout.message(),
        "Timed out waiting for the operation to settle"
    );
}

#[test]
fn a_limited_wait_that_settles_in_time_ends_as_any_other() {
    let (queries, sleeps, end) = limited_wait_on_stack(
        vec![
            Ok((StackStatus::UpdateInProgress, "")),
            Ok((StackStatus::UpdateInProgress, "")),
            Ok((StackStatus::UpdateComplete, "ok")),
        ],
        Some(3),
    );
    assert_eq!((queries, sleeps), (3, 2));
    assert_eq!(
        end,
        PollStep::Settled(StackStatus::UpdateComplete, "ok".to_string())
    );
}

#[test]
fn a_wait_limited_to_nothing_still_asks_once() {
    for limit in [Some(0), Some(1)] {
        let (queries, sleeps, end) =
            limited_wait_on_stack(vec![Ok((StackStatus::DeleteInProgress, ""))], limit);
        assert_eq!((queries, sleeps), (1, 0));
        assert_eq!(end, PollStep::Failed(Failure::Timeout));
        let (queries, sleeps, end) =
            limited_wait_on_stack(vec![Ok((StackStatus::DeleteComplete, "gone"))], limit);
        assert_eq!((queries, sleeps), (1, 0));
        assert_eq!(
            end,
            PollStep::Settled(StackStatus::DeleteComplete, "gone".to_string())
        );
    }
}

#[test]
fn the_count_of_a_wait_stops_at_the_largest_number() {
    assert_eq!(
        poll_step(
            PollState::AwaitingStatus { asked: u64::MAX },
            PollEvent::Observed(StackStatus::CreateInProgress, String::new()),
            None
        ),
        (PollState::Sleeping { asked: u64::MAX }, PollStep::Sleep)
    );
    assert_eq!(
        poll_step(
            PollState::AwaitingStatus { asked: u64::MAX - 1 },
            PollEvent::Observed(StackStatus::CreateInProgress, String::new()),
            Some(u64::MAX)
        ),
        (PollState::Finished, PollStep::Failed(Failure::Timeout))
    );
}

#[test]
fn stack_statuses_in_progress() {
    let busy = [
        StackStatus::CreateInProgress,
        StackStatus::DeleteInProgress,
        StackStatus::ImportInProgress,
        StackStatus::ImportRollbackInProgress,
        StackStatus::RollbackInProgress,
        StackStatus::UpdateCompleteCleanupInProgress,
        StackStatus::UpdateInProgress,
        StackStatus::UpdateRollbackCompleteCleanupInProgress,
        StackStatus::UpdateRollbackInProgress,
    ];
    let settled = [
        StackStatus::CreateComplete,
        StackStatus::CreateFailed,
        StackStatus::DeleteComplete,
        StackStatus::DeleteFailed,
        StackStatus::ImportComplete,
        StackStatus::ImportRollbackComplete,
        StackStatus::ImportRollbackFailed,
        StackStatus::ReviewInProgress,
        StackStatus::RollbackComplete,
        StackStatus::RollbackFailed,
        StackStatus::UpdateComplete,
        StackStatus::UpdateFailed,
        StackStatus::UpdateRollbackComplete,
        StackStatus::UpdateRollbackFailed,
        StackStatus::Unknown,
    ];
    for status in busy {
        assert!(status.is_in_progress(), "{status:?}");
    }
    for status in settled {
        assert!(!status.is_in_progress(), "{status:?}");
    }
}

#[test]
fn change_set_statuses_in_progress() {
    let busy = [
        ChangeSetStatus::CreateInProgress,
        ChangeSetStatus::CreatePending,
        ChangeSetStatus::DeleteInProgress,
        ChangeSetStatus::DeletePending,
    ];
    let settled = [
        ChangeSetStatus::CreateComplete,
        ChangeSetStatus::DeleteComplete,
        ChangeSetStatus::DeleteFailed,
        ChangeSetStatus::Failed,
        ChangeSetStatus::Unknown,
    ];
    for status in busy {
        assert!(status.is_in_progress(), "{status:?}");
    }
    for status in settled {
        assert!(!status.is_in_progress(), "{status:?}");
    }
}
