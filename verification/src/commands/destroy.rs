//! `destroy`: delete the stack, after showing it and asking the operator.

use crate::commands::{copy_text, into_refusal, into_stack_poll_event, refusal, stack_poll_event};
use crate::interval::PollInterval;
use crate::diagnostics::failures_after;
use crate::model::{StackEvent, Timestamp};
use crate::poller::{fresh, poll_next, poll_step, PollState, PollStep};
use crate::protocol::{Action, Event, Failure, Outcome, Prompt};
use crate::status::{Progress, StackStatus};
use vstd::prelude::*;

verus! {

/// Where a `destroy` stands. `since` is the moment read off the clock
/// before anything was changed: failures are looked for after it.
#[derive(Clone, Debug, PartialEq, Eq)]
pub enum DestroyPhase {
    /// Waiting for whatever runs on the stack to settle.
    Settling(PollState),
    /// The clock is being read.
    Marking,
    /// The stack is being described.
    Describing { since: Timestamp },
    /// The stack is being shown.
    PresentingStack { since: Timestamp, stack_id: Option<String>, change_set_id: Option<String> },
    /// The change set that waits on the stack is being described.
    DescribingChangeSet { since: Timestamp, stack_id: Option<String> },
    /// The change set is being shown.
    PresentingChangeSet { since: Timestamp, stack_id: Option<String> },
    /// The operator is asked whether to go on.
    Confirming { since: Timestamp, stack_id: Option<String> },
    /// The stack is being deleted.
    Removing { since: Timestamp },
    /// Waiting for the deletion to settle.
    Concluding { since: Timestamp, poll: PollState },
    /// The events of the stack are being fetched.
    Collecting { since: Timestamp, status: StackStatus },
    /// The failures are being shown.
    Reporting { status: StackStatus },
    /// The command has ended.
    Finished,
}

/// A `destroy` under way.
#[derive(Clone, Debug, PartialEq, Eq)]
pub struct DestroyCommand {
    pub stack: String,
    pub pool_interval: PollInterval,
    /// The largest number of queries a wait may make; none for waits
    /// without bound.
    pub poll_limit: Option<u64>,
    pub phase: DestroyPhase,
}

impl DestroyCommand {
    /// The command in another phase.
    pub open spec fn at(self, phase: DestroyPhase) -> DestroyCommand {
        DestroyCommand { phase, ..self }
    }

    /// The command ended with `outcome`.
    pub open spec fn ended(self, outcome: Outcome) -> (DestroyCommand, Action) {
        (self.at(DestroyPhase::Finished), Action::Finish(outcome))
    }

    /// The command ended with `failure`.
    pub open spec fn failed(self, failure: Failure) -> (DestroyCommand, Action) {
        self.ended(Outcome::Failed(failure))
    }

    /// The first wait on the stack goes on with `step`. However the wait
    /// ends, be it with a failure, the clock is then read.
    pub open spec fn settling(self, poll: PollState, step: PollStep<StackStatus>) -> (
        DestroyCommand,
        Action,
    ) {
        match step {
            PollStep::Query => (
                self.at(DestroyPhase::Settling(poll)),
                Action::QueryStack(self.stack),
            ),
            PollStep::Sleep => (
                self.at(DestroyPhase::Settling(poll)),
                Action::Sleep(self.pool_interval),
            ),
            _ => (self.at(DestroyPhase::Marking), Action::ReadClock),
        }
    }

    /// The wait for the deletion goes on with `step`. A stack that settles
    /// as deleted is a success; for any other status the events of the
    /// stack are fetched.
    pub open spec fn awaiting_conclusion(
        self,
        since: Timestamp,
        poll: PollState,
        step: PollStep<StackStatus>,
    ) -> (DestroyCommand, Action) {
        match step {
            PollStep::Query => (
                self.at(DestroyPhase::Concluding { since, poll }),
                Action::QueryStack(self.stack),
            ),
            PollStep::Sleep => (
                self.at(DestroyPhase::Concluding { since, poll }),
                Action::Sleep(self.pool_interval),
            ),
            PollStep::Settled(status, _) => if status == StackStatus::DeleteComplete {
                self.ended(Outcome::Succeeded)
            } else {
                (
                    self.at(DestroyPhase::Collecting { since, status }),
                    Action::ListEvents(self.stack),
                )
            },
            PollStep::Failed(failure) => self.failed(failure),
        }
    }

    /// What the command does on `event`: the phase it goes to and the
    /// action it asks for.
    pub open spec fn next(self, event: Event) -> (DestroyCommand, Action) {
        match self.phase {
            DestroyPhase::Settling(poll) => match stack_poll_event(event) {
                Some(told) => {
                    let (poll, step) = poll_next(poll, told, self.poll_limit);
                    self.settling(poll, step)
                },
                None => self.failed(Failure::UnexpectedEvent),
            },
            DestroyPhase::Marking => match event {
                Event::Clock(since) => (
                    self.at(DestroyPhase::Describing { since }),
                    Action::DescribeStack(self.stack),
                ),
                _ => self.failed(refusal(event)),
            },
            DestroyPhase::Describing { since } => match event {
                Event::Stack(stack) => (
                    self.at(
                        DestroyPhase::PresentingStack {
                            since,
                            stack_id: stack.stack_id,
                            change_set_id: stack.change_set_id,
                        },
                    ),
                    Action::ShowStack(stack),
                ),
                _ => self.failed(refusal(event)),
            },
            DestroyPhase::PresentingStack { since, stack_id, change_set_id } => match event {
                Event::Shown => match change_set_id {
                    Some(id) => (
                        self.at(DestroyPhase::DescribingChangeSet { since, stack_id }),
                        Action::DescribeChangeSet(id),
                    ),
                    None => (
                        self.at(DestroyPhase::Confirming { since, stack_id }),
                        Action::Confirm(Prompt::Continue),
                    ),
                },
                _ => self.failed(refusal(event)),
            },
            DestroyPhase::DescribingChangeSet { since, stack_id } => match event {
                Event::ChangeSet(description) => (
                    self.at(DestroyPhase::PresentingChangeSet { since, stack_id }),
                    Action::ShowChangeSet(description),
                ),
                _ => self.failed(refusal(event)),
            },
            DestroyPhase::PresentingChangeSet { since, stack_id } => match event {
                Event::Shown => (
                    self.at(DestroyPhase::Confirming { since, stack_id }),
                    Action::Confirm(Prompt::Continue),
                ),
                _ => self.failed(refusal(event)),
            },
            DestroyPhase::Confirming { since, stack_id } => match event {
                Event::Answer(true) => match stack_id {
                    Some(id) => (
                        self.at(DestroyPhase::Removing { since }),
                        Action::DeleteStack(id),
                    ),
                    None => self.failed(Failure::MissingStackId),
                },
                Event::Answer(false) => self.ended(Outcome::Declined),
                _ => self.failed(refusal(event)),
            },
            DestroyPhase::Removing { since } => match event {
                Event::Accepted => (
                    self.at(DestroyPhase::Concluding { since, poll: fresh() }),
                    Action::QueryStack(self.stack),
                ),
                _ => self.failed(refusal(event)),
            },
            DestroyPhase::Concluding { since, poll } => match stack_poll_event(event) {
                Some(told) => {
                    let (poll, step) = poll_next(poll, told, self.poll_limit);
                    self.awaiting_conclusion(since, poll, step)
                },
                None => self.failed(Failure::UnexpectedEvent),
            },
            DestroyPhase::Collecting { since, status } => match event {
                Event::Events(events) => (
                    self.at(DestroyPhase::Reporting { status }),
                    Action::ShowFailures { events, since },
                ),
                _ => self.failed(refusal(event)),
            },
            DestroyPhase::Reporting { status } => match event {
                Event::Shown => self.ended(Outcome::Unsuccessful(status)),
                _ => self.failed(refusal(event)),
            },
            DestroyPhase::Finished => self.failed(Failure::UnexpectedEvent),
        }
    }

    /// How the command begins: it asks for the status of the stack.
    pub open spec fn begun(stack: String, pool_interval: PollInterval) -> (DestroyCommand, Action) {
        (
            DestroyCommand {
                stack,
                pool_interval,
                poll_limit: None,
                phase: DestroyPhase::Settling(fresh()),
            },
            Action::QueryStack(stack),
        )
    }

    /// A `destroy` of the stack `stack`, with its first action.
    pub fn new(stack: String, pool_interval: PollInterval) -> (r: (DestroyCommand, Action))
        ensures
            r == Self::begun(stack, pool_interval),
    {
        let first = Action::QueryStack(stack.clone());
        (
            DestroyCommand {
                stack,
                pool_interval,
                poll_limit: None,
                phase: DestroyPhase::Settling(fresh()),
            },
            first,
        )
    }

    /// The command with its waits limited to `most` queries each: a wait
    /// that finds its entity in progress that often gives up with a
    /// timeout.
    pub fn with_poll_limit(self, most: u64) -> (r: DestroyCommand)
        ensures
            r == (DestroyCommand { poll_limit: Some(most), ..self }),
    {
        let mut limited = self;
        limited.poll_limit = Some(most);
        limited
    }

    fn go(self, phase: DestroyPhase, action: Action) -> (r: (DestroyCommand, Action))
        ensures
            r == (self.at(phase), action),
    {
        (
            DestroyCommand {
                stack: self.stack,
                pool_interval: self.pool_interval,
                poll_limit: self.poll_limit,
                phase,
            },
            action,
        )
    }

    fn end(self, outcome: Outcome) -> (r: (DestroyCommand, Action))
        ensures
            r == self.ended(outcome),
    {
        self.go(DestroyPhase::Finished, Action::Finish(outcome))
    }

    fn fail(self, failure: Failure) -> (r: (DestroyCommand, Action))
        ensures
            r == self.failed(failure),
    {
        self.end(Outcome::Failed(failure))
    }

    fn query_stack(self, phase: DestroyPhase) -> (r: (DestroyCommand, Action))
        ensures
            r == (self.at(phase), Action::QueryStack(self.stack)),
    {
        let action = Action::QueryStack(self.stack.clone());
        self.go(phase, action)
    }

    fn sleep(self, phase: DestroyPhase) -> (r: (DestroyCommand, Action))
        ensures
            r == (self.at(phase), Action::Sleep(self.pool_interval)),
    {
        let action = Action::Sleep(self.pool_interval);
        self.go(phase, action)
    }

    fn settle(self, poll: PollState, step: PollStep<StackStatus>) -> (r: (DestroyCommand, Action))
        ensures
            r == self.settling(poll, step),
    {
        match step {
            PollStep::Query => self.query_stack(DestroyPhase::Settling(poll)),
            PollStep::Sleep => self.sleep(DestroyPhase::Settling(poll)),
            _ => self.go(DestroyPhase::Marking, Action::ReadClock),
        }
    }

    fn await_conclusion(self, since: Timestamp, poll: PollState, step: PollStep<StackStatus>) -> (r:
        (DestroyCommand, Action))
        ensures
            r == self.awaiting_conclusion(since, poll, step),
    {
        match step {
            PollStep::Query => self.query_stack(DestroyPhase::Concluding { since, poll }),
            PollStep::Sleep => self.sleep(DestroyPhase::Concluding { since, poll }),
            PollStep::Settled(status, _) => {
                if status == StackStatus::DeleteComplete {
                    self.end(Outcome::Succeeded)
                } else {
                    let action = Action::ListEvents(self.stack.clone());
                    self.go(DestroyPhase::Collecting { since, status }, action)
                }
            },
            PollStep::Failed(failure) => self.fail(failure),
        }
    }

    /// Takes the command one step further: given the event that answers
    /// the action last asked for, the command in its next phase and the
    /// action it asks for now.
    pub fn step(self, event: Event) -> (r: (DestroyCommand, Action))
        ensures
            r == self.next(event),
    {
        let DestroyCommand { stack, pool_interval, poll_limit, phase } = self;
        let cmd = DestroyCommand {
            stack,
            pool_interval,
            poll_limit,
            phase: DestroyPhase::Finished,
        };
        match phase {
            DestroyPhase::Settling(poll) => match into_stack_poll_event(event) {
                Some(told) => {
                    let (poll, step) = poll_step(poll, told, cmd.poll_limit);
                    cmd.settle(poll, step)
                },
                None => cmd.fail(Failure::UnexpectedEvent),
            },
            DestroyPhase::Marking => match event {
                Event::Clock(since) => {
                    let action = Action::DescribeStack(cmd.stack.clone());
                    cmd.go(DestroyPhase::Describing { since }, action)
                },
                event => cmd.fail(into_refusal(event)),
            },
            DestroyPhase::Describing { since } => match event {
                Event::Stack(stack) => {
                    let stack_id = copy_text(&stack.stack_id);
                    let change_set_id = copy_text(&stack.change_set_id);
                    cmd.go(
                        DestroyPhase::PresentingStack { since, stack_id, change_set_id },
                        Action::ShowStack(stack),
                    )
                },
                event => cmd.fail(into_refusal(event)),
            },
            DestroyPhase::PresentingStack { since, stack_id, change_set_id } => match event {
                Event::Shown => match change_set_id {
                    Some(id) => cmd.go(
                        DestroyPhase::DescribingChangeSet { since, stack_id },
                        Action::DescribeChangeSet(id),
                    ),
                    None => cmd.go(
                        DestroyPhase::Confirming { since, stack_id },
                        Action::Confirm(Prompt::Continue),
                    ),
                },
                event => cmd.fail(into_refusal(event)),
            },
            DestroyPhase::DescribingChangeSet { since, stack_id } => match event {
                Event::ChangeSet(description) => cmd.go(
                    DestroyPhase::PresentingChangeSet { since, stack_id },
                    Action::ShowChangeSet(description),
                ),
                event => cmd.fail(into_refusal(event)),
            },
            DestroyPhase::PresentingChangeSet { since, stack_id } => match event {
                Event::Shown => cmd.go(
                    DestroyPhase::Confirming { since, stack_id },
                    Action::Confirm(Prompt::Continue),
                ),
                event => cmd.fail(into_refusal(event)),
            },
            DestroyPhase::Confirming { since, stack_id } => match event {
                Event::Answer(true) => match stack_id {
                    Some(id) => cmd.go(DestroyPhase::Removing { since }, Action::DeleteStack(id)),
                    None => cmd.fail(Failure::MissingStackId),
                },
                Event::Answer(false) => cmd.end(Outcome::Declined),
                event => cmd.fail(into_refusal(event)),
            },
            DestroyPhase::Removing { since } => match event {
                Event::Accepted => cmd.query_stack(
                    DestroyPhase::Concluding { since, poll: fresh() },
                ),
                event => cmd.fail(into_refusal(event)),
            },
            DestroyPhase::Concluding { since, poll } => match into_stack_poll_event(event) {
                Some(told) => {
                    let (poll, step) = poll_step(poll, told, cmd.poll_limit);
                    cmd.await_conclusion(since, poll, step)
                },
                None => cmd.fail(Failure::UnexpectedEvent),
            },
            DestroyPhase::Collecting { since, status } => match event {
                Event::Events(events) => cmd.go(
                    DestroyPhase::Reporting { status },
                    Action::ShowFailures { events, since },
                ),
                event => cmd.fail(into_refusal(event)),
            },
            DestroyPhase::Reporting { status } => match event {
                Event::Shown => cmd.end(Outcome::Unsuccessful(status)),
                event => cmd.fail(into_refusal(event)),
            },
            DestroyPhase::Finished => cmd.fail(Failure::UnexpectedEvent),
        }
    }

    /// The moment after which failures are looked for, once the clock has
    /// been read.
    pub open spec fn boundary(self) -> Option<Timestamp> {
        match self.phase {
            DestroyPhase::Settling(_)
            | DestroyPhase::Marking
            | DestroyPhase::Reporting { .. }
            | DestroyPhase::Finished => None,
            DestroyPhase::Describing { since }
            | DestroyPhase::PresentingStack { since, .. }
            | DestroyPhase::DescribingChangeSet { since, .. }
            | DestroyPhase::PresentingChangeSet { since, .. }
            | DestroyPhase::Confirming { since, .. }
            | DestroyPhase::Removing { since }
            | DestroyPhase::Concluding { since, .. }
            | DestroyPhase::Collecting { since, .. } => Some(since),
        }
    }

    /// The stack is deleted only with the boundary in hand and only on
    /// the operator's yes; the boundary, once read off the clock, stays
    /// what it is, and it is the one after which failures are shown.
    pub proof fn lemma_boundary_precedes_deletion(self, event: Event)
        ensures
            self.next(event).1.mutates() ==> self.boundary() is Some && self.phase is Confirming
                && event == Event::Answer(true),
            self.next(event).1 matches Action::ShowFailures { since, .. } ==> self.boundary()
                == Some(since),
            self.next(event).0.boundary() matches Some(at) ==> self.boundary() == Some(at) || (
            self.phase is Marking && event == Event::Clock(at)),
    {
    }

    /// The actions the command asks for in answer to `events`, one event
    /// after the other.
    pub open spec fn run(self, events: Seq<Event>) -> Seq<Action>
        decreases events.len(),
    {
        if events.len() == 0 {
            Seq::empty()
        } else {
            let (next, action) = self.next(events[0]);
            seq![action] + next.run(events.drop_first())
        }
    }

    /// The command after it has answered `events`.
    pub open spec fn after(self, events: Seq<Event>) -> DestroyCommand
        decreases events.len(),
    {
        if events.len() == 0 {
            self
        } else {
            self.next(events[0]).0.after(events.drop_first())
        }
    }

    /// A run goes on where it stands: what the command asks for in answer
    /// to `first` and then `then` is what it asks for in answer to `first`,
    /// followed by what the command it has become asks for in answer to
    /// `then`. Whatever the events, the command stays that of its stack.
    pub proof fn lemma_run_continues(self, first: Seq<Event>, then: Seq<Event>)
        ensures
            self.run(first + then) == self.run(first) + self.after(first).run(then),
            self.after(first + then) == self.after(first).after(then),
            self.run(first).len() == first.len(),
            self.after(first).stack == self.stack,
            self.after(first).pool_interval == self.pool_interval,
            self.after(first).poll_limit == self.poll_limit,
        decreases first.len(),
    {
        if first.len() == 0 {
            assert(first + then =~= then);
        } else {
            let next = self.next(first[0]).0;
            assert((first + then).drop_first() =~= first.drop_first() + then);
            next.lemma_run_continues(first.drop_first(), then);
        }
    }

    /// A deletion that settles in any status but deleted is no failure of
    /// the command: however often the status was asked before, the events
    /// of the stack are fetched, the failures among them that happened
    /// after the boundary are shown, and the command then ends cleanly
    /// with that status.
    pub proof fn lemma_failed_deletion_is_reported(
        self,
        since: Timestamp,
        asked: u64,
        status: StackStatus,
        reason: String,
        events: Vec<StackEvent>,
    )
        requires
            self.phase == (DestroyPhase::Concluding {
                since,
                poll: PollState::AwaitingStatus { asked },
            }),
            !status.in_progress(),
            status != StackStatus::DeleteComplete,
        ensures
            ({
                let (collecting, first) = self.next(Event::StackStatus(status, reason));
                let (reporting, second) = collecting.next(Event::Events(events));
                let (finished, third) = reporting.next(Event::Shown);
                &&& first == Action::ListEvents(self.stack)
                &&& second == Action::ShowFailures { events, since }
                &&& second.shown_failures() == failures_after(events@, since@)
                &&& third == Action::Finish(Outcome::Unsuccessful(status))
                &&& Outcome::Unsuccessful(status).clean()
                &&& finished.phase == DestroyPhase::Finished
            }),
    {
    }

    /// The same of whole runs: in a run that has come to wait for the
    /// deletion to settle, a status other than deleted is answered by
    /// fetching the events; the events that come are shown, filtered by
    /// the boundary of the run; and the run ends cleanly with that status.
    pub proof fn lemma_run_reports_a_failed_deletion(
        self,
        before: Seq<Event>,
        since: Timestamp,
        asked: u64,
        status: StackStatus,
        reason: String,
        events: Vec<StackEvent>,
    )
        requires
            self.after(before).phase == (DestroyPhase::Concluding {
                since,
                poll: PollState::AwaitingStatus { asked },
            }),
            !status.in_progress(),
            status != StackStatus::DeleteComplete,
        ensures
            ({
                let rest = seq![
                    Event::StackStatus(status, reason),
                    Event::Events(events),
                    Event::Shown,
                ];
                let shows = Action::ShowFailures { events, since };
                &&& self.run(before + rest) == self.run(before) + seq![
                    Action::ListEvents(self.stack),
                    shows,
                    Action::Finish(Outcome::Unsuccessful(status)),
                ]
                &&& shows.shown_failures() == failures_after(events@, since@)
                &&& Outcome::Unsuccessful(status).clean()
                &&& self.after(before + rest).phase == DestroyPhase::Finished
            }),
    {
        let rest = seq![Event::StackStatus(status, reason), Event::Events(events), Event::Shown];
        let waiting = self.after(before);
        self.lemma_run_continues(before, rest);
        waiting.lemma_failed_deletion_is_reported(since, asked, status, reason, events);
        waiting.lemma_three_steps(rest);
    }

    /// In a run that has come to wait for the deletion to settle, the
    /// status deleted ends the run as a success.
    pub proof fn lemma_run_ends_with_a_settled_deletion(
        self,
        before: Seq<Event>,
        since: Timestamp,
        asked: u64,
        reason: String,
    )
        requires
            self.after(before).phase == (DestroyPhase::Concluding {
                since,
                poll: PollState::AwaitingStatus { asked },
            }),
        ensures
            self.run(before + seq![Event::StackStatus(StackStatus::DeleteComplete, reason)])
                == self.run(before) + seq![Action::Finish(Outcome::Succeeded)],
    {
        let rest = seq![Event::StackStatus(StackStatus::DeleteComplete, reason)];
        self.lemma_run_continues(before, rest);
        self.after(before).lemma_one_step(rest);
    }

    /// In a run that has come to the question, a no ends the run with
    /// nothing deleted, and a yes deletes the stack by its id.
    pub proof fn lemma_run_deletes_on_a_yes_only(
        self,
        before: Seq<Event>,
        since: Timestamp,
        stack_id: String,
    )
        requires
            self.after(before).phase == (DestroyPhase::Confirming {
                since,
                stack_id: Some(stack_id),
            }),
        ensures
            self.run(before + seq![Event::Answer(false)]) == self.run(before) + seq![
                Action::Finish(Outcome::Declined),
            ],
            self.run(before + seq![Event::Answer(true)]) == self.run(before) + seq![
                Action::DeleteStack(stack_id),
            ],
    {
        let no = seq![Event::Answer(false)];
        let yes = seq![Event::Answer(true)];
        self.lemma_run_continues(before, no);
        self.lemma_run_continues(before, yes);
        self.after(before).lemma_one_step(no);
        self.after(before).lemma_one_step(yes);
    }

    /// The boundary of a run is a reading of the clock: where a command
    /// that had none has one after `events`, one of the events brought it
    /// from the clock.
    pub proof fn lemma_boundary_is_a_reading(self, events: Seq<Event>, at: Timestamp) -> (i: int)
        requires
            self.boundary() is None,
            self.after(events).boundary() == Some(at),
        ensures
            0 <= i < events.len(),
            events[i] == Event::Clock(at),
        decreases events.len(),
    {
        let next = self.next(events[0]).0;
        self.lemma_boundary_precedes_deletion(events[0]);
        if next.boundary() is Some {
            next.lemma_boundary_stays(events.drop_first());
            0
        } else {
            next.lemma_boundary_is_a_reading(events.drop_first(), at) + 1
        }
    }

    /// A boundary, once it is there, stays what it is for as long as the
    /// run has one.
    pub proof fn lemma_boundary_stays(self, events: Seq<Event>)
        requires
            self.boundary() is Some,
        ensures
            self.after(events).boundary() is Some ==> self.after(events).boundary()
                == self.boundary(),
        decreases events.len(),
    {
        if events.len() > 0 {
            let next = self.next(events[0]).0;
            self.lemma_boundary_precedes_deletion(events[0]);
            if next.boundary() is Some {
                next.lemma_boundary_stays(events.drop_first());
            } else {
                next.lemma_no_boundary_again(events.drop_first());
            }
        }
    }

    /// In a run from its start, the stack is deleted only on a yes, and
    /// only after the clock has been read for the boundary under which
    /// the run then goes on.
    pub proof fn lemma_clock_is_read_before_the_deletion(
        stack: String,
        pool_interval: PollInterval,
        events: Seq<Event>,
        j: int,
    ) -> (i: int)
        requires
            0 <= j < events.len(),
            Self::begun(stack, pool_interval).0.run(events)[j].mutates(),
        ensures
            0 <= i < j,
            events[j] == Event::Answer(true),
            Self::begun(stack, pool_interval).0.run(events)[j] is DeleteStack,
            Self::begun(stack, pool_interval).0.after(events.take(j + 1)).boundary() matches Some(
                at,
            ) && events[i] == Event::Clock(at),
    {
        let start = Self::begun(stack, pool_interval).0;
        let before = start.after(events.take(j));
        start.lemma_run_step(events, j);
        before.lemma_boundary_precedes_deletion(events[j]);
        let at = before.boundary()->0;
        let i = start.lemma_boundary_is_a_reading(events.take(j), at);
        assert(events.take(j + 1) =~= events.take(j) + seq![events[j]]);
        start.lemma_run_continues(events.take(j), seq![events[j]]);
        before.lemma_one_step(seq![events[j]]);
        i
    }

    /// The action with which a run answers its `j`-th event is the one
    /// the command asks for after the events before it.
    pub proof fn lemma_run_step(self, events: Seq<Event>, j: int)
        requires
            0 <= j < events.len(),
        ensures
            self.run(events).len() == events.len(),
            self.run(events)[j] == self.after(events.take(j)).next(events[j]).1,
    {
        let first = events.take(j);
        let then = events.subrange(j, events.len() as int);
        assert(first + then =~= events);
        self.lemma_run_continues(first, then);
        self.lemma_run_continues(events, Seq::empty());
    }

    proof fn lemma_one_step(self, events: Seq<Event>)
        requires
            events.len() == 1,
        ensures
            self.run(events) == seq![self.next(events[0]).1],
            self.after(events) == self.next(events[0]).0,
    {
        let next = self.next(events[0]).0;
        assert(next.run(events.drop_first()) =~= Seq::<Action>::empty());
        assert(next.after(events.drop_first()) == next);
        assert(self.run(events) =~= seq![self.next(events[0]).1]);
    }

    proof fn lemma_three_steps(self, events: Seq<Event>)
        requires
            events.len() == 3,
        ensures
            ({
                let (second, a) = self.next(events[0]);
                let (third, b) = second.next(events[1]);
                let (last, c) = third.next(events[2]);
                self.run(events) == seq![a, b, c] && self.after(events) == last
            }),
    {
        let (second, a) = self.next(events[0]);
        let (third, b) = second.next(events[1]);
        let one = events.drop_first();
        let two = one.drop_first();
        assert(two.drop_first() =~= Seq::<Event>::empty());
        third.lemma_one_step(two);
        assert(second.run(one) =~= seq![b] + third.run(two));
        assert(second.after(one) == third.after(two));
        assert(self.run(events) =~= seq![a] + second.run(one));
        assert(self.after(events) == second.after(one));
    }

    proof fn lemma_no_boundary_again(self, events: Seq<Event>)
        requires
            self.phase is Reporting || self.phase is Finished,
        ensures
            self.after(events).boundary() is None,
        decreases events.len(),
    {
        if events.len() > 0 {
            self.next(events[0]).0.lemma_no_boundary_again(events.drop_first());
        }
    }
}

} // verus!
