//! The status poller: wait until an entity is no longer mid-operation.
//!
//! The poller asks for the status once. A settled status ends the wait at
//! once; a status in progress makes it sleep one interval and ask again.
//! A query that fails ends the wait with that failure. By itself a wait
//! has no bound on the number of rounds; where a limit is set, the wait
//! gives up once that many queries have found the entity in progress.

use crate::protocol::Failure;
use crate::status::Progress;
use vstd::prelude::*;

verus! {

/// Where a wait stands. `asked` is the number of queries that have been
/// answered so far; it stops counting at the largest number it can hold.
#[derive(Clone, Copy, Debug, PartialEq, Eq, Structural)]
pub enum PollState {
    /// A query is under way.
    AwaitingStatus { asked: u64 },
    /// A sleep is under way.
    Sleeping { asked: u64 },
    /// The wait has ended.
    Finished,
}

/// A wait that is about to make its first query.
pub open spec fn fresh_wait() -> PollState {
    PollState::AwaitingStatus { asked: 0 }
}

/// A wait that is about to make its first query.
#[verifier::when_used_as_spec(fresh_wait)]
pub fn fresh() -> (state: PollState)
    ensures
        state == fresh_wait(),
{
    PollState::AwaitingStatus { asked: 0 }
}

/// The count after one more answer.
pub open spec fn counted(asked: u64) -> u64 {
    if asked < u64::MAX {
        (asked + 1) as u64
    } else {
        asked
    }
}

/// Whether a wait that is limited to `limit` queries gives up when one
/// more query, after `asked` others, finds the entity in progress.
pub open spec fn exhausted(limit: Option<u64>, asked: u64) -> bool {
    limit matches Some(most) && asked + 1 >= most
}

/// What the poller is told.
#[derive(Clone, Debug, PartialEq, Eq)]
pub enum PollEvent<S> {
    /// The query gave this status and this reason.
    Observed(S, String),
    /// The query failed.
    Unavailable(Failure),
    /// The sleep is over.
    Slept,
}

/// What the poller wants next, or how the wait ended.
#[derive(Clone, Debug, PartialEq, Eq)]
pub enum PollStep<S> {
    /// Ask for the status.
    Query,
    /// Sleep for one interval.
    Sleep,
    /// The entity has settled in this status, for this reason.
    Settled(S, String),
    /// The wait ended without a settled status.
    Failed(Failure),
}

/// One round of the wait: a settled status ends the wait; a status in
/// progress leads to a sleep, or to giving up where the wait is limited
/// to `limit` queries and this was the last of them; after a sleep the
/// status is asked again.
pub open spec fn poll_next<S: Progress>(
    state: PollState,
    event: PollEvent<S>,
    limit: Option<u64>,
) -> (PollState, PollStep<S>) {
    match (state, event) {
        (PollState::AwaitingStatus { asked }, PollEvent::Observed(status, reason)) => {
            if !status.in_progress() {
                (PollState::Finished, PollStep::Settled(status, reason))
            } else if exhausted(limit, asked) {
                (PollState::Finished, PollStep::Failed(Failure::Timeout))
            } else {
                (PollState::Sleeping { asked: counted(asked) }, PollStep::Sleep)
            }
        },
        (PollState::AwaitingStatus { .. }, PollEvent::Unavailable(failure)) => (
            PollState::Finished,
            PollStep::Failed(failure),
        ),
        (PollState::Sleeping { asked }, PollEvent::Slept) => (
            PollState::AwaitingStatus { asked },
            PollStep::Query,
        ),
        _ => (PollState::Finished, PollStep::Failed(Failure::UnexpectedEvent)),
    }
}

/// How a wait begins: with a query.
pub fn poll_begin<S: Progress>() -> (r: (PollState, PollStep<S>))
    ensures
        r == (fresh(), PollStep::<S>::Query),
{
    (fresh(), PollStep::Query)
}

/// Takes the wait one round further. `limit` is the largest number of
/// queries the wait may make, none for a wait without bound.
pub fn poll_step<S: Progress>(state: PollState, event: PollEvent<S>, limit: Option<u64>) -> (r: (
    PollState,
    PollStep<S>,
))
    ensures
        r == poll_next(state, event, limit),
{
    match state {
        PollState::AwaitingStatus { asked } => match event {
            PollEvent::Observed(status, reason) => {
                if !status.is_in_progress() {
                    return (PollState::Finished, PollStep::Settled(status, reason));
                }
                let gives_up = match limit {
                    Some(most) => most == 0 || asked >= most - 1,
                    None => false,
                };
                if gives_up {
                    (PollState::Finished, PollStep::Failed(Failure::Timeout))
                } else {
                    let asked = if asked < u64::MAX {
                        asked + 1
                    } else {
                        asked
                    };
                    (PollState::Sleeping { asked }, PollStep::Sleep)
                }
            },
            PollEvent::Unavailable(failure) => (PollState::Finished, PollStep::Failed(failure)),
            PollEvent::Slept => (PollState::Finished, PollStep::Failed(Failure::UnexpectedEvent)),
        },
        PollState::Sleeping { asked } => match event {
            PollEvent::Slept => (PollState::AwaitingStatus { asked }, PollStep::Query),
            _ => (PollState::Finished, PollStep::Failed(Failure::UnexpectedEvent)),
        },
        PollState::Finished => (PollState::Finished, PollStep::Failed(Failure::UnexpectedEvent)),
    }
}

/// What a query may answer: a status with its reason, or a failure.
pub type Answer<S> = Result<(S, String), Failure>;

/// The event that tells the poller of an answer.
pub open spec fn told<S>(answer: Answer<S>) -> PollEvent<S> {
    match answer {
        Ok((status, reason)) => PollEvent::Observed(status, reason),
        Err(failure) => PollEvent::Unavailable(failure),
    }
}

/// The record of a wait: how often the status was asked, how often the
/// poller slept, and how the wait ended, if it has.
pub struct Waited<S> {
    pub queries: nat,
    pub sleeps: nat,
    pub end: Option<Answer<S>>,
}

/// The wait against a service that answers the queries with `answers`,
/// one after the other, from the moment that the poller, in `state`, has
/// asked for `step` and `used` answers are used up. The wait is cut off
/// where the answers run out.
pub open spec fn waited<S: Progress>(
    state: PollState,
    step: PollStep<S>,
    answers: Seq<Answer<S>>,
    used: nat,
    limit: Option<u64>,
) -> Waited<S>
    decreases answers.len() - used, (if step is Sleep { 1nat } else { 0nat }),
{
    match step {
        PollStep::Settled(status, reason) => Waited {
            queries: 0,
            sleeps: 0,
            end: Some(Ok((status, reason))),
        },
        PollStep::Failed(failure) => Waited { queries: 0, sleeps: 0, end: Some(Err(failure)) },
        PollStep::Sleep => {
            let (next, then) = poll_next::<S>(state, PollEvent::Slept, limit);
            let rest = waited(next, then, answers, used, limit);
            Waited { queries: rest.queries, sleeps: rest.sleeps + 1, end: rest.end }
        },
        PollStep::Query => {
            if used >= answers.len() {
                Waited { queries: 0, sleeps: 0, end: None }
            } else {
                let (next, then) = poll_next(state, told(answers[used as int]), limit);
                let rest = waited(next, then, answers, used + 1, limit);
                Waited { queries: rest.queries + 1, sleeps: rest.sleeps, end: rest.end }
            }
        },
    }
}

/// The whole wait against a service that answers with `answers`, limited
/// to `limit` queries or without bound.
pub open spec fn wait_until_settled<S: Progress>(
    answers: Seq<Answer<S>>,
    limit: Option<u64>,
) -> Waited<S> {
    waited(fresh(), PollStep::Query, answers, 0, limit)
}

/// Whether the answer keeps the poller waiting: a status in progress.
pub open spec fn keeps_waiting<S: Progress>(answer: Answer<S>) -> bool {
    answer matches Ok((status, _)) && status.in_progress()
}

/// A wait whose first answer is a settled status ends with that status
/// after one query and without a single sleep, whatever its limit.
pub proof fn lemma_settled_at_once<S: Progress>(answers: Seq<Answer<S>>, limit: Option<u64>)
    requires
        answers.len() > 0,
        answers[0] is Ok,
        !keeps_waiting(answers[0]),
    ensures
        wait_until_settled(answers, limit) == (Waited {
            queries: 1,
            sleeps: 0,
            end: Some(answers[0]),
        }),
{
    let (next, then) = poll_next(PollState::AwaitingStatus { asked: 0 }, told(answers[0]), limit);
    assert(waited(next, then, answers, 1, limit).end == Some(answers[0]));
}

/// A wait ends with the first answer that is not a status in progress, be
/// it a settled status or a failure: the poller has then asked once for
/// every answer up to that one and slept once between two queries, so it
/// asks again in every round and never after the status has settled. This
/// holds of a wait without bound, and of a limited wait that gets that
/// far.
pub proof fn lemma_wait_ends_with_first_settled<S: Progress>(
    answers: Seq<Answer<S>>,
    at: nat,
    limit: Option<u64>,
)
    requires
        at < answers.len(),
        forall|i: int| 0 <= i < at ==> keeps_waiting(#[trigger] answers[i]),
        !keeps_waiting(answers[at as int]),
        limit matches Some(most) ==> at < most,
    ensures
        wait_until_settled(answers, limit) == (Waited {
            queries: at + 1,
            sleeps: at,
            end: Some(answers[at as int]),
        }),
{
    lemma_wait_ends_at(answers, 0, at, limit, 0);
}

/// While every answer is a status in progress a wait without bound goes
/// on: it has not ended when the answers run out.
pub proof fn lemma_wait_goes_on_while_in_progress<S: Progress>(answers: Seq<Answer<S>>)
    requires
        forall|i: int| 0 <= i < answers.len() ==> keeps_waiting(#[trigger] answers[i]),
    ensures
        wait_until_settled(answers, None) == (Waited::<S> {
            queries: answers.len(),
            sleeps: answers.len(),
            end: None,
        }),
{
    lemma_wait_runs_out(answers, 0, 0);
}

/// A wait limited to `most` queries gives up with a timeout when each of
/// them finds the entity in progress: it has then asked `most` times and
/// slept between the queries, and it asks no more.
pub proof fn lemma_limited_wait_times_out<S: Progress>(answers: Seq<Answer<S>>, most: u64)
    requires
        1 <= most <= answers.len(),
        forall|i: int| 0 <= i < most ==> keeps_waiting(#[trigger] answers[i]),
    ensures
        wait_until_settled(answers, Some(most)) == (Waited::<S> {
            queries: most as nat,
            sleeps: (most - 1) as nat,
            end: Some(Err(Failure::Timeout)),
        }),
{
    lemma_wait_times_out(answers, 0, most);
}

proof fn lemma_wait_ends_at<S: Progress>(
    answers: Seq<Answer<S>>,
    from: nat,
    at: nat,
    limit: Option<u64>,
    asked: u64,
)
    requires
        from <= at < answers.len(),
        forall|i: int| from <= i < at ==> keeps_waiting(#[trigger] answers[i]),
        !keeps_waiting(answers[at as int]),
        limit matches Some(most) ==> at < most,
        limit is Some ==> asked == from,
    ensures
        waited(PollState::AwaitingStatus { asked }, PollStep::Query, answers, from, limit) == (
        Waited { queries: (at - from + 1) as nat, sleeps: (at - from) as nat, end: Some(
            answers[at as int],
        ) }),
    decreases at - from,
{
    let answer = answers[from as int];
    let (next, then) = poll_next(PollState::AwaitingStatus { asked }, told(answer), limit);
    if from < at {
        lemma_wait_ends_at(answers, from + 1, at, limit, counted(asked));
        assert(poll_next::<S>(next, PollEvent::Slept, limit) == (
            PollState::AwaitingStatus { asked: counted(asked) },
            PollStep::<S>::Query,
        ));
        assert(waited(next, then, answers, from + 1, limit).sleeps == at - from);
    }
}

proof fn lemma_wait_runs_out<S: Progress>(answers: Seq<Answer<S>>, from: nat, asked: u64)
    requires
        from <= answers.len(),
        forall|i: int| from <= i < answers.len() ==> keeps_waiting(#[trigger] answers[i]),
    ensures
        waited(PollState::AwaitingStatus { asked }, PollStep::Query, answers, from, None) == (
        Waited::<S> {
            queries: (answers.len() - from) as nat,
            sleeps: (answers.len() - from) as nat,
            end: None,
        }),
    decreases answers.len() - from,
{
    if from < answers.len() {
        let answer = answers[from as int];
        let (next, then) = poll_next(PollState::AwaitingStatus { asked }, told(answer), None);
        lemma_wait_runs_out(answers, from + 1, counted(asked));
        assert(poll_next::<S>(next, PollEvent::Slept, None) == (
            PollState::AwaitingStatus { asked: counted(asked) },
            PollStep::<S>::Query,
        ));
        assert(waited(next, then, answers, from + 1, None).sleeps == answers.len() - from);
    }
}

proof fn lemma_wait_times_out<S: Progress>(answers: Seq<Answer<S>>, from: nat, most: u64)
    requires
        from < most <= answers.len(),
        forall|i: int| from <= i < most ==> keeps_waiting(#[trigger] answers[i]),
    ensures
        waited(
            PollState::AwaitingStatus { asked: from as u64 },
            PollStep::Query,
            answers,
            from,
            Some(most),
        ) == (Waited::<S> {
            queries: (most - from) as nat,
            sleeps: (most - from - 1) as nat,
            end: Some(Err(Failure::Timeout)),
        }),
    decreases most - from,
{
    let asked = from as u64;
    let answer = answers[from as int];
    let (next, then) = poll_next(PollState::AwaitingStatus { asked }, told(answer), Some(most));
    if from + 1 == most {
        assert(waited(next, then, answers, from + 1, Some(most)).end == Some(
            Err::<(S, String), Failure>(Failure::Timeout),
        ));
    } else {
        lemma_wait_times_out(answers, from + 1, most);
        assert(poll_next::<S>(next, PollEvent::Slept, Some(most)) == (
            PollState::AwaitingStatus { asked: counted(asked) },
            PollStep::<S>::Query,
        ));
    }
}

} // verus!
