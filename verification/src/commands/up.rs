//! `up`: bring the stack to what the template describes. From the status
//! in which it finds the stack the command creates it, updates it,
//! recreates it after a failed creation, or takes up the change set that
//! waits on it; in any other status it changes nothing.

use crate::branch::{select_up_branch, up_branch, Branch};
use crate::client::{pending, pending_change_set};
use crate::commands::{
    change_set_poll_event, into_change_set_poll_event, into_refusal, into_stack_poll_event,
    refusal, stack_poll_event,
};
use crate::interval::PollInterval;
use crate::model::Timestamp;
use crate::naming::ChangeSetName;
use crate::poller::{exhausted, fresh, poll_next, poll_step, PollState, PollStep};
use crate::protocol::{Action, Event, Failure, Outcome, Prompt};
use crate::status::{ChangeSetStatus, ChangeSetType, Progress, StackStatus};
use vstd::prelude::*;

verus! {

/// Where an `up` stands. `since` is the moment read off the clock before
/// anything was changed: failures are looked for after it.
#[derive(Clone, Debug, PartialEq, Eq)]
pub enum UpPhase {
    /// Waiting for whatever runs on the stack to settle.
    Settling(PollState),
    /// The stack has settled in this status, or does not exist; the clock
    /// is being read.
    Marking(Option<(StackStatus, String)>),
    /// The operator is asked whether to recreate the stack.
    ConfirmingRecreate { since: Timestamp },
    /// The stack is being deleted to be created anew.
    RemovingStack { since: Timestamp },
    /// Waiting for the deletion to settle.
    AwaitingRemoval { since: Timestamp, poll: PollState },
    /// The template is being rendered.
    Rendering { since: Timestamp, kind: ChangeSetType },
    /// The calendar is being read for the name of the change set.
    Naming { since: Timestamp, kind: ChangeSetType, template: String },
    /// The change set is being submitted.
    Submitting { since: Timestamp },
    /// Waiting for the submitted change set to settle.
    AwaitingChangeSet { since: Timestamp, id: String, poll: PollState },
    /// The change set is being described.
    Describing { since: Timestamp, id: String },
    /// The change set is being shown.
    Presenting { since: Timestamp, id: String },
    /// The operator is asked whether to execute the change set.
    ConfirmingExecution { since: Timestamp, id: String },
    /// The change set is being executed, or deleted after a refusal.
    Applying { since: Timestamp },
    /// The change sets of the stack are being listed.
    Listing { since: Timestamp },
    /// The waiting change set is being described.
    DescribingPending { since: Timestamp, id: String },
    /// The waiting change set is being shown.
    PresentingPending { since: Timestamp, id: String },
    /// The operator is asked whether to apply the waiting change set.
    ConfirmingPending { since: Timestamp, id: String },
    /// The waiting change set is being executed.
    ExecutingPending { since: Timestamp, id: String },
    /// Waiting for the executed change set to settle.
    AwaitingExecuted { since: Timestamp, id: String, poll: PollState },
    /// The operator is asked whether to delete the waiting change set.
    ConfirmingDiscard { since: Timestamp, id: String },
    /// The waiting change set is being deleted.
    Discarding { since: Timestamp, id: String },
    /// Waiting for the deleted change set to settle.
    AwaitingDiscard { since: Timestamp, id: String, poll: PollState },
    /// Waiting for the stack to settle after the operation.
    Concluding { since: Timestamp, poll: PollState },
    /// The events of the stack are being fetched.
    Collecting { since: Timestamp, status: StackStatus },
    /// The failures are being shown.
    Reporting { status: StackStatus },
    /// The command has ended.
    Finished,
}

/// An `up` under way.
#[derive(Clone, Debug, PartialEq, Eq)]
pub struct UpCommand {
    pub stack: String,
    pub template: String,
    pub pool_interval: PollInterval,
    /// The largest number of queries a wait may make; none for waits
    /// without bound.
    pub poll_limit: Option<u64>,
    /// Whether a fresh change set is submitted once the waiting one has
    /// been deleted at the operator's wish.
    pub resubmit: bool,
    pub phase: UpPhase,
}

/// Whether `up` has reached what it was run for.
pub open spec fn up_succeeded(status: StackStatus) -> bool {
    status == StackStatus::CreateComplete || status == StackStatus::UpdateComplete
}

impl UpCommand {
    /// The command in another phase.
    pub open spec fn at(self, phase: UpPhase) -> UpCommand {
        UpCommand { phase, ..self }
    }

    /// The command ended with `outcome`.
    pub open spec fn ended(self, outcome: Outcome) -> (UpCommand, Action) {
        (self.at(UpPhase::Finished), Action::Finish(outcome))
    }

    /// The command ended with `failure`.
    pub open spec fn failed(self, failure: Failure) -> (UpCommand, Action) {
        self.ended(Outcome::Failed(failure))
    }

    /// The first wait on the stack goes on with `step`.
    pub open spec fn settling(self, poll: PollState, step: PollStep<StackStatus>) -> (
        UpCommand,
        Action,
    ) {
        match step {
            PollStep::Query => (self.at(UpPhase::Settling(poll)), Action::QueryStack(self.stack)),
            PollStep::Sleep => (
                self.at(UpPhase::Settling(poll)),
                Action::Sleep(self.pool_interval),
            ),
            PollStep::Settled(status, reason) => (
                self.at(UpPhase::Marking(Some((status, reason)))),
                Action::ReadClock,
            ),
            PollStep::Failed(Failure::NotFound) => (
                self.at(UpPhase::Marking(None)),
                Action::ReadClock,
            ),
            PollStep::Failed(failure) => self.failed(failure),
        }
    }

    /// Creation or update begins: the template is rendered.
    pub open spec fn rendering(self, since: Timestamp, kind: ChangeSetType) -> (
        UpCommand,
        Action,
    ) {
        (self.at(UpPhase::Rendering { since, kind }), Action::RenderTemplate(self.template))
    }

    /// The last wait on the stack begins.
    pub open spec fn concluding(self, since: Timestamp) -> (UpCommand, Action) {
        (
            self.at(UpPhase::Concluding { since, poll: fresh() }),
            Action::QueryStack(self.stack),
        )
    }

    /// The branch for the status in which the stack was found is taken.
    pub open spec fn branching(self, observed: Option<(StackStatus, String)>, since: Timestamp) -> (
        UpCommand,
        Action,
    ) {
        match observed {
            None => self.rendering(since, ChangeSetType::Create),
            Some((status, reason)) => match up_branch(Some(status)) {
                Branch::Create => self.rendering(since, ChangeSetType::Create),
                Branch::Update => self.rendering(since, ChangeSetType::Update),
                Branch::Recreate => (
                    self.at(UpPhase::ConfirmingRecreate { since }),
                    Action::Confirm(Prompt::Recreate),
                ),
                Branch::Resume => (
                    self.at(UpPhase::Listing { since }),
                    Action::ListChangeSets(self.stack),
                ),
                Branch::Wait => (
                    self.at(UpPhase::Settling(fresh())),
                    Action::QueryStack(self.stack),
                ),
                Branch::Abort => self.ended(Outcome::Aborted { status, reason }),
            },
        }
    }

    /// The wait for the deletion of the stack goes on with `step`; however
    /// it ends, the stack is then created.
    pub open spec fn awaiting_removal(
        self,
        since: Timestamp,
        poll: PollState,
        step: PollStep<StackStatus>,
    ) -> (UpCommand, Action) {
        match step {
            PollStep::Query => (
                self.at(UpPhase::AwaitingRemoval { since, poll }),
                Action::QueryStack(self.stack),
            ),
            PollStep::Sleep => (
                self.at(UpPhase::AwaitingRemoval { since, poll }),
                Action::Sleep(self.pool_interval),
            ),
            _ => self.rendering(since, ChangeSetType::Create),
        }
    }

    /// The wait for the submitted change set goes on with `step`.
    pub open spec fn awaiting_change_set(
        self,
        since: Timestamp,
        id: String,
        poll: PollState,
        step: PollStep<ChangeSetStatus>,
    ) -> (UpCommand, Action) {
        match step {
            PollStep::Query => (
                self.at(UpPhase::AwaitingChangeSet { since, id, poll }),
                Action::QueryChangeSet(id),
            ),
            PollStep::Sleep => (
                self.at(UpPhase::AwaitingChangeSet { since, id, poll }),
                Action::Sleep(self.pool_interval),
            ),
            PollStep::Settled(_, _) => (
                self.at(UpPhase::Describing { since, id }),
                Action::DescribeChangeSet(id),
            ),
            PollStep::Failed(failure) => self.failed(failure),
        }
    }

    /// The wait for the executed change set goes on with `step`.
    pub open spec fn awaiting_executed(
        self,
        since: Timestamp,
        id: String,
        poll: PollState,
        step: PollStep<ChangeSetStatus>,
    ) -> (UpCommand, Action) {
        match step {
            PollStep::Query => (
                self.at(UpPhase::AwaitingExecuted { since, id, poll }),
                Action::QueryChangeSet(id),
            ),
            PollStep::Sleep => (
                self.at(UpPhase::AwaitingExecuted { since, id, poll }),
                Action::Sleep(self.pool_interval),
            ),
            PollStep::Settled(_, _) => self.concluding(since),
            PollStep::Failed(failure) => self.failed(failure),
        }
    }

    /// The wait for the deleted change set goes on with `step`. Once it is
    /// gone a fresh one is prepared; if it settles otherwise the command
    /// fails.
    pub open spec fn awaiting_discard(
        self,
        since: Timestamp,
        id: String,
        poll: PollState,
        step: PollStep<ChangeSetStatus>,
    ) -> (UpCommand, Action) {
        match step {
            PollStep::Query => (
                self.at(UpPhase::AwaitingDiscard { since, id, poll }),
                Action::QueryChangeSet(id),
            ),
            PollStep::Sleep => (
                self.at(UpPhase::AwaitingDiscard { since, id, poll }),
                Action::Sleep(self.pool_interval),
            ),
            PollStep::Settled(status, reason) => if status == ChangeSetStatus::DeleteComplete {
                self.rendering(since, ChangeSetType::Update)
            } else {
                self.failed(Failure::ChangeSetNotDeleted { id, reason })
            },
            PollStep::Failed(failure) => self.failed(failure),
        }
    }

    /// The last wait on the stack goes on with `step`. A stack that
    /// settles as created or updated is a success; for any other status
    /// the events of the stack are fetched.
    pub open spec fn awaiting_conclusion(
        self,
        since: Timestamp,
        poll: PollState,
        step: PollStep<StackStatus>,
    ) -> (UpCommand, Action) {
        match step {
            PollStep::Query => (
                self.at(UpPhase::Concluding { since, poll }),
                Action::QueryStack(self.stack),
            ),
            PollStep::Sleep => (
                self.at(UpPhase::Concluding { since, poll }),
                Action::Sleep(self.pool_interval),
            ),
            PollStep::Settled(status, _) => if up_succeeded(status) {
                self.ended(Outcome::Succeeded)
            } else {
                (self.at(UpPhase::Collecting { since, status }), Action::ListEvents(self.stack))
            },
            PollStep::Failed(failure) => self.failed(failure),
        }
    }

    /// What the command does on `event`: the phase it goes to and the
    /// action it asks for.
    pub open spec fn next(self, event: Event) -> (UpCommand, Action) {
        match self.phase {
            UpPhase::Settling(poll) => match stack_poll_event(event) {
                Some(told) => {
                    let (poll, step) = poll_next(poll, told, self.poll_limit);
                    self.settling(poll, step)
                },
                None => self.failed(Failure::UnexpectedEvent),
            },
            UpPhase::Marking(observed) => match event {
                Event::Clock(since) => self.branching(observed, since),
                _ => self.failed(refusal(event)),
            },
            UpPhase::ConfirmingRecreate { since } => match event {
                Event::Answer(true) => (
                    self.at(UpPhase::RemovingStack { since }),
                    Action::DeleteStack(self.stack),
                ),
                Event::Answer(false) => self.ended(Outcome::Declined),
                _ => self.failed(refusal(event)),
            },
            UpPhase::RemovingStack { since } => match event {
                Event::Accepted => (
                    self.at(UpPhase::AwaitingRemoval { since, poll: fresh() }),
                    Action::QueryStack(self.stack),
                ),
                _ => self.failed(refusal(event)),
            },
            UpPhase::AwaitingRemoval { since, poll } => match stack_poll_event(event) {
                Some(told) => {
                    let (poll, step) = poll_next(poll, told, self.poll_limit);
                    self.awaiting_removal(since, poll, step)
                },
                None => self.failed(Failure::UnexpectedEvent),
            },
            UpPhase::Rendering { since, kind } => match event {
                Event::Template(template) => (
                    self.at(UpPhase::Naming { since, kind, template }),
                    Action::ReadCalendar,
                ),
                _ => self.failed(refusal(event)),
            },
            UpPhase::Naming { since, kind, template } => match event {
                Event::Calendar(at) => (
                    self.at(UpPhase::Submitting { since }),
                    Action::SubmitChangeSet {
                        name: ChangeSetName { stack: self.stack, at },
                        kind,
                        template,
                    },
                ),
                _ => self.failed(refusal(event)),
            },
            UpPhase::Submitting { since } => match event {
                Event::Submitted(Some(id)) => (
                    self.at(
                        UpPhase::AwaitingChangeSet { since, id, poll: fresh() },
                    ),
                    Action::QueryChangeSet(id),
                ),
                Event::Submitted(None) => self.failed(Failure::EmptyChangeSetId),
                _ => self.failed(refusal(event)),
            },
            UpPhase::AwaitingChangeSet { since, id, poll } => match change_set_poll_event(event) {
                Some(told) => {
                    let (poll, step) = poll_next(poll, told, self.poll_limit);
                    self.awaiting_change_set(since, id, poll, step)
                },
                None => self.failed(Failure::UnexpectedEvent),
            },
            UpPhase::Describing { since, id } => match event {
                Event::ChangeSet(description) => (
                    self.at(UpPhase::Presenting { since, id }),
                    Action::ShowChangeSet(description),
                ),
                _ => self.failed(refusal(event)),
            },
            UpPhase::Presenting { since, id } => match event {
                Event::Shown => (
                    self.at(UpPhase::ConfirmingExecution { since, id }),
                    Action::Confirm(Prompt::Continue),
                ),
                _ => self.failed(refusal(event)),
            },
            UpPhase::ConfirmingExecution { since, id } => match event {
                Event::Answer(true) => (
                    self.at(UpPhase::Applying { since }),
                    Action::ExecuteChangeSet(id),
                ),
                Event::Answer(false) => (
                    self.at(UpPhase::Applying { since }),
                    Action::DeleteChangeSet(id),
                ),
                _ => self.failed(refusal(event)),
            },
            UpPhase::Applying { since } => match event {
                Event::Accepted => self.concluding(since),
                _ => self.failed(refusal(event)),
            },
            UpPhase::Listing { since } => match event {
                Event::ChangeSets(summaries) => match pending(summaries@) {
                    None => self.failed(Failure::PendingChangeSetNotFound),
                    Some(summary) => match summary.change_set_id {
                        None => self.failed(Failure::EmptyChangeSetId),
                        Some(id) => (
                            self.at(UpPhase::DescribingPending { since, id }),
                            Action::DescribeChangeSet(id),
                        ),
                    },
                },
                _ => self.failed(refusal(event)),
            },
            UpPhase::DescribingPending { since, id } => match event {
                Event::ChangeSet(description) => (
                    self.at(UpPhase::PresentingPending { since, id }),
                    Action::ShowChangeSet(description),
                ),
                _ => self.failed(refusal(event)),
            },
            UpPhase::PresentingPending { since, id } => match event {
                Event::Shown => (
                    self.at(UpPhase::ConfirmingPending { since, id }),
                    Action::Confirm(Prompt::ApplyPending),
                ),
                _ => self.failed(refusal(event)),
            },
            UpPhase::ConfirmingPending { since, id } => match event {
                Event::Answer(true) => (
                    self.at(UpPhase::ExecutingPending { since, id }),
                    Action::ExecuteChangeSet(id),
                ),
                Event::Answer(false) => (
                    self.at(UpPhase::ConfirmingDiscard { since, id }),
                    Action::Confirm(Prompt::DeletePending),
                ),
                _ => self.failed(refusal(event)),
            },
            UpPhase::ExecutingPending { since, id } => match event {
                Event::Accepted => (
                    self.at(
                        UpPhase::AwaitingExecuted { since, id, poll: fresh() },
                    ),
                    Action::QueryChangeSet(id),
                ),
                _ => self.failed(refusal(event)),
            },
            UpPhase::AwaitingExecuted { since, id, poll } => match change_set_poll_event(event) {
                Some(told) => {
                    let (poll, step) = poll_next(poll, told, self.poll_limit);
                    self.awaiting_executed(since, id, poll, step)
                },
                None => self.failed(Failure::UnexpectedEvent),
            },
            UpPhase::ConfirmingDiscard { since, id } => match event {
                Event::Answer(true) => (
                    self.at(UpPhase::Discarding { since, id }),
                    Action::DeleteChangeSet(id),
                ),
                Event::Answer(false) => self.concluding(since),
                _ => self.failed(refusal(event)),
            },
            UpPhase::Discarding { since, id } => match event {
                Event::Accepted => if self.resubmit {
                    (
                        self.at(
                            UpPhase::AwaitingDiscard { since, id, poll: fresh() },
                        ),
                        Action::QueryChangeSet(id),
                    )
                } else {
                    self.concluding(since)
                },
                _ => self.failed(refusal(event)),
            },
            UpPhase::AwaitingDiscard { since, id, poll } => match change_set_poll_event(event) {
                Some(told) => {
                    let (poll, step) = poll_next(poll, told, self.poll_limit);
                    self.awaiting_discard(since, id, poll, step)
                },
                None => self.failed(Failure::UnexpectedEvent),
            },
            UpPhase::Concluding { since, poll } => match stack_poll_event(event) {
                Some(told) => {
                    let (poll, step) = poll_next(poll, told, self.poll_limit);
                    self.awaiting_conclusion(since, poll, step)
                },
                None => self.failed(Failure::UnexpectedEvent),
            },
            UpPhase::Collecting { since, status } => match event {
                Event::Events(events) => (
                    self.at(UpPhase::Reporting { status }),
                    Action::ShowFailures { events, since },
                ),
                _ => self.failed(refusal(event)),
            },
            UpPhase::Reporting { status } => match event {
                Event::Shown => self.ended(Outcome::Unsuccessful(status)),
                _ => self.failed(refusal(event)),
            },
            UpPhase::Finished => self.failed(Failure::UnexpectedEvent),
        }
    }

    /// How the command begins: it asks for the status of the stack.
    pub open spec fn begun(
        stack: String,
        template: String,
        pool_interval: PollInterval,
        resubmit: bool,
    ) -> (UpCommand, Action) {
        (
            UpCommand {
                stack,
                template,
                pool_interval,
                poll_limit: None,
                resubmit,
                phase: UpPhase::Settling(fresh()),
            },
            Action::QueryStack(stack),
        )
    }

    /// An `up` of the stack `stack` from the template at `template`, with
    /// its first action.
    pub fn new(
        stack: String,
        template: String,
        pool_interval: PollInterval,
        resubmit: bool,
    ) -> (r: (UpCommand, Action))
        ensures
            r == Self::begun(stack, template, pool_interval, resubmit),
    {
        let first = Action::QueryStack(stack.clone());
        (
            UpCommand {
                stack,
                template,
                pool_interval,
                poll_limit: None,
                resubmit,
                phase: UpPhase::Settling(fresh()),
            },
            first,
        )
    }

    /// The command with its waits limited to `most` queries each: a wait
    /// that finds its entity in progress that often gives up with a
    /// timeout.
    pub fn with_poll_limit(self, most: u64) -> (r: UpCommand)
        ensures
            r == (UpCommand { poll_limit: Some(most), ..self }),
    {
        let mut limited = self;
        limited.poll_limit = Some(most);
        limited
    }

    fn go(self, phase: UpPhase, action: Action) -> (r: (UpCommand, Action))
        ensures
            r == (self.at(phase), action),
    {
        (
            UpCommand {
                stack: self.stack,
                template: self.template,
                pool_interval: self.pool_interval,
                poll_limit: self.poll_limit,
                resubmit: self.resubmit,
                phase,
            },
            action,
        )
    }

    fn end(self, outcome: Outcome) -> (r: (UpCommand, Action))
        ensures
            r == self.ended(outcome),
    {
        self.go(UpPhase::Finished, Action::Finish(outcome))
    }

    fn fail(self, failure: Failure) -> (r: (UpCommand, Action))
        ensures
            r == self.failed(failure),
    {
        self.end(Outcome::Failed(failure))
    }

    fn query_stack(self, phase: UpPhase) -> (r: (UpCommand, Action))
        ensures
            r == (self.at(phase), Action::QueryStack(self.stack)),
    {
        let action = Action::QueryStack(self.stack.clone());
        self.go(phase, action)
    }

    fn sleep(self, phase: UpPhase) -> (r: (UpCommand, Action))
        ensures
            r == (self.at(phase), Action::Sleep(self.pool_interval)),
    {
        let action = Action::Sleep(self.pool_interval);
        self.go(phase, action)
    }

    fn render(self, since: Timestamp, kind: ChangeSetType) -> (r: (UpCommand, Action))
        ensures
            r == self.rendering(since, kind),
    {
        let action = Action::RenderTemplate(self.template.clone());
        self.go(UpPhase::Rendering { since, kind }, action)
    }

    fn conclude(self, since: Timestamp) -> (r: (UpCommand, Action))
        ensures
            r == self.concluding(since),
    {
        self.query_stack(UpPhase::Concluding { since, poll: fresh() })
    }

    fn branch(self, observed: Option<(StackStatus, String)>, since: Timestamp) -> (r: (
        UpCommand,
        Action,
    ))
        ensures
            r == self.branching(observed, since),
    {
        match observed {
            None => self.render(since, ChangeSetType::Create),
            Some((status, reason)) => match select_up_branch(Some(status)) {
                Branch::Create => self.render(since, ChangeSetType::Create),
                Branch::Update => self.render(since, ChangeSetType::Update),
                Branch::Recreate => self.go(
                    UpPhase::ConfirmingRecreate { since },
                    Action::Confirm(Prompt::Recreate),
                ),
                Branch::Resume => {
                    let action = Action::ListChangeSets(self.stack.clone());
                    self.go(UpPhase::Listing { since }, action)
                },
                Branch::Wait => self.query_stack(UpPhase::Settling(fresh())),
                Branch::Abort => self.end(Outcome::Aborted { status, reason }),
            },
        }
    }

    fn settle(self, poll: PollState, step: PollStep<StackStatus>) -> (r: (UpCommand, Action))
        ensures
            r == self.settling(poll, step),
    {
        match step {
            PollStep::Query => self.query_stack(UpPhase::Settling(poll)),
            PollStep::Sleep => self.sleep(UpPhase::Settling(poll)),
            PollStep::Settled(status, reason) => self.go(
                UpPhase::Marking(Some((status, reason))),
                Action::ReadClock,
            ),
            PollStep::Failed(Failure::NotFound) => self.go(
                UpPhase::Marking(None),
                Action::ReadClock,
            ),
            PollStep::Failed(failure) => self.fail(failure),
        }
    }

    fn await_removal(self, since: Timestamp, poll: PollState, step: PollStep<StackStatus>) -> (r: (
        UpCommand,
        Action,
    ))
        ensures
            r == self.awaiting_removal(since, poll, step),
    {
        match step {
            PollStep::Query => self.query_stack(UpPhase::AwaitingRemoval { since, poll }),
            PollStep::Sleep => self.sleep(UpPhase::AwaitingRemoval { since, poll }),
            _ => self.render(since, ChangeSetType::Create),
        }
    }

    fn await_change_set(
        self,
        since: Timestamp,
        id: String,
        poll: PollState,
        step: PollStep<ChangeSetStatus>,
    ) -> (r: (UpCommand, Action))
        ensures
            r == self.awaiting_change_set(since, id, poll, step),
    {
        match step {
            PollStep::Query => {
                let action = Action::QueryChangeSet(id.clone());
                self.go(UpPhase::AwaitingChangeSet { since, id, poll }, action)
            },
            PollStep::Sleep => self.sleep(UpPhase::AwaitingChangeSet { since, id, poll }),
            PollStep::Settled(_, _) => {
                let action = Action::DescribeChangeSet(id.clone());
                self.go(UpPhase::Describing { since, id }, action)
            },
            PollStep::Failed(failure) => self.fail(failure),
        }
    }

    fn await_executed(
        self,
        since: Timestamp,
        id: String,
        poll: PollState,
        step: PollStep<ChangeSetStatus>,
    ) -> (r: (UpCommand, Action))
        ensures
            r == self.awaiting_executed(since, id, poll, step),
    {
        match step {
            PollStep::Query => {
                let action = Action::QueryChangeSet(id.clone());
                self.go(UpPhase::AwaitingExecuted { since, id, poll }, action)
            },
            PollStep::Sleep => self.sleep(UpPhase::AwaitingExecuted { since, id, poll }),
            PollStep::Settled(_, _) => self.conclude(since),
            PollStep::Failed(failure) => self.fail(failure),
        }
    }

    fn await_discard(
        self,
        since: Timestamp,
        id: String,
        poll: PollState,
        step: PollStep<ChangeSetStatus>,
    ) -> (r: (UpCommand, Action))
        ensures
            r == self.awaiting_discard(since, id, poll, step),
    {
        match step {
            PollStep::Query => {
                let action = Action::QueryChangeSet(id.clone());
                self.go(UpPhase::AwaitingDiscard { since, id, poll }, action)
            },
            PollStep::Sleep => self.sleep(UpPhase::AwaitingDiscard { since, id, poll }),
            PollStep::Settled(status, reason) => {
                if status == ChangeSetStatus::DeleteComplete {
                    self.render(since, ChangeSetType::Update)
                } else {
                    self.fail(Failure::ChangeSetNotDeleted { id, reason })
                }
            },
            PollStep::Failed(failure) => self.fail(failure),
        }
    }

    fn await_conclusion(self, since: Timestamp, poll: PollState, step: PollStep<StackStatus>) -> (r:
        (UpCommand, Action))
        ensures
            r == self.awaiting_conclusion(since, poll, step),
    {
        match step {
            PollStep::Query => self.query_stack(UpPhase::Concluding { since, poll }),
            PollStep::Sleep => self.sleep(UpPhase::Concluding { since, poll }),
            PollStep::Settled(status, _) => {
                if status == StackStatus::CreateComplete || status == StackStatus::UpdateComplete {
                    self.end(Outcome::Succeeded)
                } else {
                    let action = Action::ListEvents(self.stack.clone());
                    self.go(UpPhase::Collecting { since, status }, action)
                }
            },
            PollStep::Failed(failure) => self.fail(failure),
        }
    }

    /// Takes the command one step further: given the event that answers
    /// the action last asked for, the command in its next phase and the
    /// action it asks for now.
    pub fn step(self, event: Event) -> (r: (UpCommand, Action))
        ensures
            r == self.next(event),
    {
        let UpCommand { stack, template, pool_interval, poll_limit, resubmit, phase } = self;
        let cmd = UpCommand {
            stack,
            template,
            pool_interval,
            poll_limit,
            resubmit,
            phase: UpPhase::Finished,
        };
        match phase {
            UpPhase::Settling(poll) => match into_stack_poll_event(event) {
                Some(told) => {
                    let (poll, step) = poll_step(poll, told, cmd.poll_limit);
                    cmd.settle(poll, step)
                },
                None => cmd.fail(Failure::UnexpectedEvent),
            },
            UpPhase::Marking(observed) => match event {
                Event::Clock(since) => cmd.branch(observed, since),
                event => cmd.fail(into_refusal(event)),
            },
            UpPhase::ConfirmingRecreate { since } => match event {
                Event::Answer(true) => {
                    let action = Action::DeleteStack(cmd.stack.clone());
                    cmd.go(UpPhase::RemovingStack { since }, action)
                },
                Event::Answer(false) => cmd.end(Outcome::Declined),
                event => cmd.fail(into_refusal(event)),
            },
            UpPhase::RemovingStack { since } => match event {
                Event::Accepted => cmd.query_stack(
                    UpPhase::AwaitingRemoval { since, poll: fresh() },
                ),
                event => cmd.fail(into_refusal(event)),
            },
            UpPhase::AwaitingRemoval { since, poll } => match into_stack_poll_event(event) {
                Some(told) => {
                    let (poll, step) = poll_step(poll, told, cmd.poll_limit);
                    cmd.await_removal(since, poll, step)
                },
                None => cmd.fail(Failure::UnexpectedEvent),
            },
            UpPhase::Rendering { since, kind } => match event {
                Event::Template(template) => cmd.go(
                    UpPhase::Naming { since, kind, template },
                    Action::ReadCalendar,
                ),
                event => cmd.fail(into_refusal(event)),
            },
            UpPhase::Naming { since, kind, template } => match event {
                Event::Calendar(at) => {
                    let action = Action::SubmitChangeSet {
                        name: ChangeSetName { stack: cmd.stack.clone(), at },
                        kind,
                        template,
                    };
                    cmd.go(UpPhase::Submitting { since }, action)
                },
                event => cmd.fail(into_refusal(event)),
            },
            UpPhase::Submitting { since } => match event {
                Event::Submitted(Some(id)) => {
                    let action = Action::QueryChangeSet(id.clone());
                    cmd.go(
                        UpPhase::AwaitingChangeSet { since, id, poll: fresh() },
                        action,
                    )
                },
                Event::Submitted(None) => cmd.fail(Failure::EmptyChangeSetId),
                event => cmd.fail(into_refusal(event)),
            },
            UpPhase::AwaitingChangeSet { since, id, poll } => match into_change_set_poll_event(
                event,
            ) {
                Some(told) => {
                    let (poll, step) = poll_step(poll, told, cmd.poll_limit);
                    cmd.await_change_set(since, id, poll, step)
                },
                None => cmd.fail(Failure::UnexpectedEvent),
            },
            UpPhase::Describing { since, id } => match event {
                Event::ChangeSet(description) => cmd.go(
                    UpPhase::Presenting { since, id },
                    Action::ShowChangeSet(description),
                ),
                event => cmd.fail(into_refusal(event)),
            },
            UpPhase::Presenting { since, id } => match event {
                Event::Shown => cmd.go(
                    UpPhase::ConfirmingExecution { since, id },
                    Action::Confirm(Prompt::Continue),
                ),
                event => cmd.fail(into_refusal(event)),
            },
            UpPhase::ConfirmingExecution { since, id } => match event {
                Event::Answer(true) => cmd.go(
                    UpPhase::Applying { since },
                    Action::ExecuteChangeSet(id),
                ),
                Event::Answer(false) => cmd.go(
                    UpPhase::Applying { since },
                    Action::DeleteChangeSet(id),
                ),
                event => cmd.fail(into_refusal(event)),
            },
            UpPhase::Applying { since } => match event {
                Event::Accepted => cmd.conclude(since),
                event => cmd.fail(into_refusal(event)),
            },
            UpPhase::Listing { since } => match event {
                Event::ChangeSets(summaries) => match pending_change_set(summaries) {
                    None => cmd.fail(Failure::PendingChangeSetNotFound),
                    Some(summary) => match summary.change_set_id {
                        None => cmd.fail(Failure::EmptyChangeSetId),
                        Some(id) => {
                            let action = Action::DescribeChangeSet(id.clone());
                            cmd.go(UpPhase::DescribingPending { since, id }, action)
                        },
                    },
                },
                event => cmd.fail(into_refusal(event)),
            },
            UpPhase::DescribingPending { since, id } => match event {
                Event::ChangeSet(description) => cmd.go(
                    UpPhase::PresentingPending { since, id },
                    Action::ShowChangeSet(description),
                ),
                event => cmd.fail(into_refusal(event)),
            },
            UpPhase::PresentingPending { since, id } => match event {
                Event::Shown => cmd.go(
                    UpPhase::ConfirmingPending { since, id },
                    Action::Confirm(Prompt::ApplyPending),
                ),
                event => cmd.fail(into_refusal(event)),
            },
            UpPhase::ConfirmingPending { since, id } => match event {
                Event::Answer(true) => {
                    let action = Action::ExecuteChangeSet(id.clone());
                    cmd.go(UpPhase::ExecutingPending { since, id }, action)
                },
                Event::Answer(false) => cmd.go(
                    UpPhase::ConfirmingDiscard { since, id },
                    Action::Confirm(Prompt::DeletePending),
                ),
                event => cmd.fail(into_refusal(event)),
            },
            UpPhase::ExecutingPending { since, id } => match event {
                Event::Accepted => {
                    let action = Action::QueryChangeSet(id.clone());
                    cmd.go(
                        UpPhase::AwaitingExecuted { since, id, poll: fresh() },
                        action,
                    )
                },
                event => cmd.fail(into_refusal(event)),
            },
            UpPhase::AwaitingExecuted { since, id, poll } => match into_change_set_poll_event(
                event,
            ) {
                Some(told) => {
                    let (poll, step) = poll_step(poll, told, cmd.poll_limit);
                    cmd.await_executed(since, id, poll, step)
                },
                None => cmd.fail(Failure::UnexpectedEvent),
            },
            UpPhase::ConfirmingDiscard { since, id } => match event {
                Event::Answer(true) => {
                    let action = Action::DeleteChangeSet(id.clone());
                    cmd.go(UpPhase::Discarding { since, id }, action)
                },
                Event::Answer(false) => cmd.conclude(since),
                event => cmd.fail(into_refusal(event)),
            },
            UpPhase::Discarding { since, id } => match event {
                Event::Accepted => {
                    if cmd.resubmit {
                        let action = Action::QueryChangeSet(id.clone());
                        cmd.go(
                            UpPhase::AwaitingDiscard {
                                since,
                                id,
                                poll: fresh(),
                            },
                            action,
                        )
                    } else {
                        cmd.conclude(since)
                    }
                },
                event => cmd.fail(into_refusal(event)),
            },
            UpPhase::AwaitingDiscard { since, id, poll } => match into_change_set_poll_event(
                event,
            ) {
                Some(told) => {
                    let (poll, step) = poll_step(poll, told, cmd.poll_limit);
                    cmd.await_discard(since, id, poll, step)
                },
                None => cmd.fail(Failure::UnexpectedEvent),
            },
            UpPhase::Concluding { since, poll } => match into_stack_poll_event(event) {
                Some(told) => {
                    let (poll, step) = poll_step(poll, told, cmd.poll_limit);
                    cmd.await_conclusion(since, poll, step)
                },
                None => cmd.fail(Failure::UnexpectedEvent),
            },
            UpPhase::Collecting { since, status } => match event {
                Event::Events(events) => cmd.go(
                    UpPhase::Reporting { status },
                    Action::ShowFailures { events, since },
                ),
                event => cmd.fail(into_refusal(event)),
            },
            UpPhase::Reporting { status } => match event {
                Event::Shown => cmd.end(Outcome::Unsuccessful(status)),
                event => cmd.fail(into_refusal(event)),
            },
            UpPhase::Finished => cmd.fail(Failure::UnexpectedEvent),
        }
    }
}

impl UpCommand {
    /// The moment after which failures are looked for, once the clock has
    /// been read.
    pub open spec fn boundary(self) -> Option<Timestamp> {
        match self.phase {
            UpPhase::Settling(_)
            | UpPhase::Marking(_)
            | UpPhase::Reporting { .. }
            | UpPhase::Finished => None,
            UpPhase::ConfirmingRecreate { since }
            | UpPhase::RemovingStack { since }
            | UpPhase::AwaitingRemoval { since, .. }
            | UpPhase::Rendering { since, .. }
            | UpPhase::Naming { since, .. }
            | UpPhase::Submitting { since }
            | UpPhase::AwaitingChangeSet { since, .. }
            | UpPhase::Describing { since, .. }
            | UpPhase::Presenting { since, .. }
            | UpPhase::ConfirmingExecution { since, .. }
            | UpPhase::Applying { since }
            | UpPhase::Listing { since }
            | UpPhase::DescribingPending { since, .. }
            | UpPhase::PresentingPending { since, .. }
            | UpPhase::ConfirmingPending { since, .. }
            | UpPhase::ExecutingPending { since, .. }
            | UpPhase::AwaitingExecuted { since, .. }
            | UpPhase::ConfirmingDiscard { since, .. }
            | UpPhase::Discarding { since, .. }
            | UpPhase::AwaitingDiscard { since, .. }
            | UpPhase::Concluding { since, .. }
            | UpPhase::Collecting { since, .. } => Some(since),
        }
    }

    /// The actions the command asks for in answer to `events`, one event
    /// after the other.
    pub open spec fn run(self, events: Seq<Event>) -> Seq<Action>
        decreases events.len(),
    {
        if events.len() == 0 {
            Seq::empty()
        } else {
            let (next, action) = self.next(events[0]);
            seq![action] + next.run(events.drop_first())
        }
    }

    /// The command after it has answered `events`.
    pub open spec fn after(self, events: Seq<Event>) -> UpCommand
        decreases events.len(),
    {
        if events.len() == 0 {
            self
        } else {
            self.next(events[0]).0.after(events.drop_first())
        }
    }

    /// A stack found settled is not waited for: however often it was asked
    /// before, the command goes straight on to read the clock, without a
    /// sleep. A stack found in progress is slept on and asked again, unless
    /// the wait is limited and this was its last query: the command then
    /// fails with a timeout.
    pub proof fn lemma_waits_only_while_in_progress(
        self,
        asked: u64,
        status: StackStatus,
        reason: String,
    )
        requires
            self.phase == UpPhase::Settling(PollState::AwaitingStatus { asked }),
        ensures
            !status.in_progress() ==> self.next(Event::StackStatus(status, reason)) == (
                self.at(UpPhase::Marking(Some((status, reason)))),
                Action::ReadClock,
            ),
            status.in_progress() && !exhausted(self.poll_limit, asked) ==> self.next(
                Event::StackStatus(status, reason),
            ).1 == Action::Sleep(self.pool_interval) && self.next(
                Event::StackStatus(status, reason),
            ).0.next(Event::Slept).1 == Action::QueryStack(self.stack),
            status.in_progress() && exhausted(self.poll_limit, asked) ==> self.next(
                Event::StackStatus(status, reason),
            ).1 == Action::Finish(Outcome::Failed(Failure::Timeout)),
    {
    }

    /// The stack that is deleted to be created anew is waited for in the
    /// same way, but however that wait ends, be it with a failure or a
    /// timeout, the command goes on to create the stack.
    pub proof fn lemma_removal_is_waited_for_at_best(
        self,
        since: Timestamp,
        asked: u64,
        event: Event,
    )
        requires
            self.phase == (UpPhase::AwaitingRemoval {
                since,
                poll: PollState::AwaitingStatus { asked },
            }),
        ensures
            event matches Event::StackStatus(status, _) && status.in_progress() && !exhausted(
                self.poll_limit,
                asked,
            ) ==> self.next(event).1 == Action::Sleep(self.pool_interval),
            (event matches Event::StackStatus(status, _) && (!status.in_progress() || exhausted(
                self.poll_limit,
                asked,
            ))) || event is Failed ==> self.next(event) == self.rendering(
                since,
                ChangeSetType::Create,
            ),
    {
    }

    /// A stack that was created, imported or updated, or whose update was
    /// rolled back, is updated: once the clock is read, the template is
    /// rendered for a change set that updates.
    pub proof fn lemma_complete_stack_is_updated(
        self,
        status: StackStatus,
        reason: String,
        at: Timestamp,
    )
        requires
            self.phase == UpPhase::Marking(Some((status, reason))),
            status == StackStatus::CreateComplete || status == StackStatus::ImportComplete || status
                == StackStatus::UpdateComplete || status == StackStatus::UpdateRollbackComplete,
        ensures
            self.next(Event::Clock(at)) == (
                self.at(UpPhase::Rendering { since: at, kind: ChangeSetType::Update }),
                Action::RenderTemplate(self.template),
            ),
    {
    }

    /// A stack that does not exist, or that was deleted, is created: once
    /// the clock is read, the template is rendered for a change set that
    /// creates. A stack counts as not existing when the first wait ends
    /// with the service not finding it.
    pub proof fn lemma_absent_or_deleted_stack_is_created(
        self,
        observed: Option<(StackStatus, String)>,
        at: Timestamp,
    )
        requires
            self.phase == UpPhase::Marking(observed),
            observed matches Some((status, _)) ==> status == StackStatus::DeleteComplete,
        ensures
            self.next(Event::Clock(at)) == (
                self.at(UpPhase::Rendering { since: at, kind: ChangeSetType::Create }),
                Action::RenderTemplate(self.template),
            ),
            self.at(UpPhase::Settling(fresh())).next(Event::Failed(Failure::NotFound)) == (
                self.at(UpPhase::Marking(None)),
                Action::ReadClock,
            ),
    {
    }

    /// On a stack that awaits review the command first lists the change
    /// sets of the stack, and whatever happens then, it submits no change
    /// set before it has done so.
    pub proof fn lemma_review_lists_before_it_submits(
        self,
        reason: String,
        events: Seq<Event>,
        j: int,
    )
        requires
            self.phase == UpPhase::Marking(Some((StackStatus::ReviewInProgress, reason))),
            0 <= j < events.len(),
            self.run(events)[j] is SubmitChangeSet,
        ensures
            events[0] matches Event::Clock(at) && self.next(events[0]) == (
                self.at(UpPhase::Listing { since: at }),
                Action::ListChangeSets(self.stack),
            ),
            0 < j,
            self.run(events)[0] is ListChangeSets,
    {
        let (next, action) = self.next(events[0]);
        if !(events[0] is Clock) {
            next.lemma_finished_stays(events.drop_first(), j - 1);
        }
    }

    /// A command that has ended asks for nothing more.
    pub proof fn lemma_finished_stays(self, events: Seq<Event>, j: int)
        requires
            self.phase == UpPhase::Finished,
        ensures
            self.run(events).len() == events.len(),
            0 <= j < events.len() ==> self.run(events)[j] == Action::Finish(
                Outcome::Failed(Failure::UnexpectedEvent),
            ),
        decreases events.len(),
    {
        if events.len() > 0 {
            self.next(events[0]).0.lemma_finished_stays(events.drop_first(), j - 1);
        }
    }

    /// From a status that allows nothing the command ends at once, with
    /// the status and its reason, and changes nothing.
    pub proof fn lemma_abort_changes_nothing(
        self,
        status: StackStatus,
        reason: String,
        events: Seq<Event>,
        j: int,
    )
        requires
            self.phase == UpPhase::Marking(Some((status, reason))),
            up_branch(Some(status)) == Branch::Abort,
            0 <= j < events.len(),
        ensures
            !self.run(events)[j].mutates(),
            events[0] is Clock ==> self.run(events)[0] == Action::Finish(
                Outcome::Aborted { status, reason },
            ),
    {
        let (next, action) = self.next(events[0]);
        next.lemma_finished_stays(events.drop_first(), j - 1);
    }

    /// No change set is executed and no stack deleted but on the operator's
    /// yes to the question just asked; a change set is deleted on the no
    /// to executing it, or on the yes to deleting the one that waits. A
    /// change set is submitted for the stack of the command, under the
    /// name of the moment that the calendar has just read.
    pub proof fn lemma_changes_need_an_answer(self, event: Event)
        ensures
            self.next(event).1 is ExecuteChangeSet ==> event == Event::Answer(true) && (self.phase
                is ConfirmingExecution || self.phase is ConfirmingPending),
            self.next(event).1 is DeleteStack ==> event == Event::Answer(true) && self.phase
                is ConfirmingRecreate,
            self.next(event).1 is DeleteChangeSet ==> (event == Event::Answer(false) && self.phase
                is ConfirmingExecution) || (event == Event::Answer(true) && self.phase
                is ConfirmingDiscard),
            self.next(event).1 matches Action::SubmitChangeSet { name, .. } ==> self.phase
                is Naming && event == Event::Calendar(name.at) && name.stack == self.stack,
    {
    }

    /// Nothing is changed at the service before the clock has been read,
    /// and what is read then stays the boundary for good: a step that
    /// asks for a change is taken with the boundary in hand, and a step
    /// never alters a boundary once it is there.
    pub proof fn lemma_boundary_precedes_changes(self, event: Event)
        ensures
            self.next(event).1.mutates() ==> self.boundary() is Some,
            self.next(event).1 matches Action::ShowFailures { since, .. } ==> self.boundary()
                == Some(since),
            self.next(event).0.boundary() matches Some(at) ==> self.boundary() == Some(at) || (
            self.phase is Marking && event == Event::Clock(at)),
    {
    }

    /// In a run from the start, every action that changes something at
    /// the service comes after a reading of the clock.
    pub proof fn lemma_clock_is_read_before_any_change(
        stack: String,
        template: String,
        pool_interval: PollInterval,
        resubmit: bool,
        events: Seq<Event>,
        j: int,
    )
        requires
            0 <= j < events.len(),
            Self::begun(stack, template, pool_interval, resubmit).0.run(events)[j].mutates(),
        ensures
            exists|i: int| 0 <= i < j && events[i] is Clock,
    {
        let start = Self::begun(stack, template, pool_interval, resubmit).0;
        start.lemma_run_steps(events, j);
        let before = start.after(events.take(j));
        before.lemma_boundary_precedes_changes(events[j]);
        start.lemma_boundary_was_read(events.take(j));
        let i = choose|i: int| 0 <= i < events.take(j).len() && events.take(j)[i] is Clock;
        assert(events[i] is Clock);
    }

    /// The action with which a run answers its `j`-th event is the one
    /// the command asks for after the events before it.
    pub proof fn lemma_run_steps(self, events: Seq<Event>, j: int)
        requires
            0 <= j < events.len(),
        ensures
            self.run(events).len() == events.len(),
            self.run(events)[j] == self.after(events.take(j)).next(events[j]).1,
        decreases events.len(),
    {
        let (next, action) = self.next(events[0]);
        let rest = events.drop_first();
        if rest.len() > 0 {
            next.lemma_run_steps(rest, if j > 0 { j - 1 } else { 0 });
        } else {
            assert(next.run(rest) =~= Seq::<Action>::empty());
        }
        if j > 0 {
            assert(events.take(j).drop_first() =~= rest.take(j - 1));
        }
    }

    proof fn lemma_boundary_was_read(self, events: Seq<Event>)
        requires
            self.boundary() is None,
            self.after(events).boundary() is Some,
        ensures
            exists|i: int| 0 <= i < events.len() && events[i] is Clock,
        decreases events.len(),
    {
        if events.len() > 0 {
            let next = self.next(events[0]).0;
            self.lemma_boundary_precedes_changes(events[0]);
            if next.boundary() is Some {
                assert(events[0] is Clock);
            } else {
                next.lemma_boundary_was_read(events.drop_first());
                let i = choose|i: int|
                    0 <= i < events.drop_first().len() && events.drop_first()[i] is Clock;
                assert(events[i + 1] is Clock);
            }
        }
    }
}

} // verus!
