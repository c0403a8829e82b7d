//! `preview`: show what `up` would change. The command takes the same
//! branch as `up` would, but it only ever prepares and shows a change
//! set: it executes none and deletes none.

use crate::branch::{preview_branch, select_preview_branch, Branch};
use crate::client::{pending, pending_change_set};
use crate::commands::{
    change_set_poll_event, into_change_set_poll_event, into_refusal, into_stack_poll_event,
    refusal, stack_poll_event,
};
use crate::interval::PollInterval;
use crate::naming::ChangeSetName;
use crate::poller::{fresh, poll_next, poll_step, PollState, PollStep};
use crate::protocol::{Action, Event, Failure, Outcome};
use crate::status::{ChangeSetStatus, ChangeSetType, StackStatus};
use vstd::prelude::*;

verus! {

/// Where a `preview` stands.
#[derive(Clone, Debug, PartialEq, Eq)]
pub enum PreviewPhase {
    /// Waiting for whatever runs on the stack to settle.
    Settling(PollState),
    /// The template is being rendered.
    Rendering { kind: ChangeSetType },
    /// The calendar is being read for the name of the change set.
    Naming { kind: ChangeSetType, template: String },
    /// The change set is being submitted.
    Submitting,
    /// Waiting for the submitted change set to settle.
    AwaitingChangeSet { id: String, poll: PollState },
    /// The change sets of the stack are being listed.
    Listing,
    /// The change set is being described.
    Describing,
    /// The change set is being shown.
    Presenting,
    /// The command has ended.
    Finished,
}

/// A `preview` under way.
#[derive(Clone, Debug, PartialEq, Eq)]
pub struct PreviewCommand {
    pub stack: String,
    pub template: String,
    pub pool_interval: PollInterval,
    /// The largest number of queries a wait may make; none for waits
    /// without bound.
    pub poll_limit: Option<u64>,
    pub phase: PreviewPhase,
}

impl PreviewCommand {
    /// The command in another phase.
    pub open spec fn at(self, phase: PreviewPhase) -> PreviewCommand {
        PreviewCommand { phase, ..self }
    }

    /// The command ended with `outcome`.
    pub open spec fn ended(self, outcome: Outcome) -> (PreviewCommand, Action) {
        (self.at(PreviewPhase::Finished), Action::Finish(outcome))
    }

    /// The command ended with `failure`.
    pub open spec fn failed(self, failure: Failure) -> (PreviewCommand, Action) {
        self.ended(Outcome::Failed(failure))
    }

    /// A change set of this kind is prepared: the template is rendered.
    pub open spec fn rendering(self, kind: ChangeSetType) -> (PreviewCommand, Action) {
        (self.at(PreviewPhase::Rendering { kind }), Action::RenderTemplate(self.template))
    }

    /// The branch for the status in which the stack was found is taken.
    pub open spec fn branching(self, status: StackStatus, reason: String) -> (
        PreviewCommand,
        Action,
    ) {
        match preview_branch(Some(status)) {
            Branch::Create => self.rendering(ChangeSetType::Create),
            Branch::Update => self.rendering(ChangeSetType::Update),
            Branch::Resume => (self.at(PreviewPhase::Listing), Action::ListChangeSets(self.stack)),
            Branch::Wait => (
                self.at(PreviewPhase::Settling(fresh())),
                Action::QueryStack(self.stack),
            ),
            Branch::Recreate | Branch::Abort => self.ended(Outcome::Aborted { status, reason }),
        }
    }

    /// The wait on the stack goes on with `step`.
    pub open spec fn settling(self, poll: PollState, step: PollStep<StackStatus>) -> (
        PreviewCommand,
        Action,
    ) {
        match step {
            PollStep::Query => (
                self.at(PreviewPhase::Settling(poll)),
                Action::QueryStack(self.stack),
            ),
            PollStep::Sleep => (
                self.at(PreviewPhase::Settling(poll)),
                Action::Sleep(self.pool_interval),
            ),
            PollStep::Settled(status, reason) => self.branching(status, reason),
            PollStep::Failed(Failure::NotFound) => self.rendering(ChangeSetType::Create),
            PollStep::Failed(failure) => self.failed(failure),
        }
    }

    /// The wait for the submitted change set goes on with `step`.
    pub open spec fn awaiting_change_set(
        self,
        id: String,
        poll: PollState,
        step: PollStep<ChangeSetStatus>,
    ) -> (PreviewCommand, Action) {
        match step {
            PollStep::Query => (
                self.at(PreviewPhase::AwaitingChangeSet { id, poll }),
                Action::QueryChangeSet(id),
            ),
            PollStep::Sleep => (
                self.at(PreviewPhase::AwaitingChangeSet { id, poll }),
                Action::Sleep(self.pool_interval),
            ),
            PollStep::Settled(_, _) => (
                self.at(PreviewPhase::Describing),
                Action::DescribeChangeSet(id),
            ),
            PollStep::Failed(failure) => self.failed(failure),
        }
    }

    /// What the command does on `event`: the phase it goes to and the
    /// action it asks for.
    pub open spec fn next(self, event: Event) -> (PreviewCommand, Action) {
        match self.phase {
            PreviewPhase::Settling(poll) => match stack_poll_event(event) {
                Some(told) => {
                    let (poll, step) = poll_next(poll, told, self.poll_limit);
                    self.settling(poll, step)
                },
                None => self.failed(Failure::UnexpectedEvent),
            },
            PreviewPhase::Rendering { kind } => match event {
                Event::Template(template) => (
                    self.at(PreviewPhase::Naming { kind, template }),
                    Action::ReadCalendar,
                ),
                _ => self.failed(refusal(event)),
            },
            PreviewPhase::Naming { kind, template } => match event {
                Event::Calendar(at) => (
                    self.at(PreviewPhase::Submitting),
                    Action::SubmitChangeSet {
                        name: ChangeSetName { stack: self.stack, at },
                        kind,
                        template,
                    },
                ),
                _ => self.failed(refusal(event)),
            },
            PreviewPhase::Submitting => match event {
                Event::Submitted(Some(id)) => (
                    self.at(
                        PreviewPhase::AwaitingChangeSet { id, poll: fresh() },
                    ),
                    Action::QueryChangeSet(id),
                ),
                Event::Submitted(None) => self.failed(Failure::EmptyChangeSetId),
                _ => self.failed(refusal(event)),
            },
            PreviewPhase::AwaitingChangeSet { id, poll } => match change_set_poll_event(event) {
                Some(told) => {
                    let (poll, step) = poll_next(poll, told, self.poll_limit);
                    self.awaiting_change_set(id, poll, step)
                },
                None => self.failed(Failure::UnexpectedEvent),
            },
            PreviewPhase::Listing => match event {
                Event::ChangeSets(summaries) => match pending(summaries@) {
                    None => self.failed(Failure::PendingChangeSetNotFound),
                    Some(summary) => match summary.change_set_id {
                        None => self.failed(Failure::EmptyChangeSetId),
                        Some(id) => (
                            self.at(PreviewPhase::Describing),
                            Action::DescribeChangeSet(id),
                        ),
                    },
                },
                _ => self.failed(refusal(event)),
            },
            PreviewPhase::Describing => match event {
                Event::ChangeSet(description) => (
                    self.at(PreviewPhase::Presenting),
                    Action::ShowChangeSet(description),
                ),
                _ => self.failed(refusal(event)),
            },
            PreviewPhase::Presenting => match event {
                Event::Shown => self.ended(Outcome::Shown),
                _ => self.failed(refusal(event)),
            },
            PreviewPhase::Finished => self.failed(Failure::UnexpectedEvent),
        }
    }

    /// How the command begins: it asks for the status of the stack.
    pub open spec fn begun(stack: String, template: String, pool_interval: PollInterval) -> (
        PreviewCommand,
        Action,
    ) {
        (
            PreviewCommand {
                stack,
                template,
                pool_interval,
                poll_limit: None,
                phase: PreviewPhase::Settling(fresh()),
            },
            Action::QueryStack(stack),
        )
    }

    /// A `preview` of the stack `stack` for the template at `template`,
    /// with its first action.
    pub fn new(stack: String, template: String, pool_interval: PollInterval) -> (r: (
        PreviewCommand,
        Action,
    ))
        ensures
            r == Self::begun(stack, template, pool_interval),
    {
        let first = Action::QueryStack(stack.clone());
        (
            PreviewCommand {
                stack,
                template,
                pool_interval,
                poll_limit: None,
                phase: PreviewPhase::Settling(fresh()),
            },
            first,
        )
    }

    /// The command with its waits limited to `most` queries each: a wait
    /// that finds its entity in progress that often gives up with a
    /// timeout.
    pub fn with_poll_limit(self, most: u64) -> (r: PreviewCommand)
        ensures
            r == (PreviewCommand { poll_limit: Some(most), ..self }),
    {
        let mut limited = self;
        limited.poll_limit = Some(most);
        limited
    }

    fn go(self, phase: PreviewPhase, action: Action) -> (r: (PreviewCommand, Action))
        ensures
            r == (self.at(phase), action),
    {
        (
            PreviewCommand {
                stack: self.stack,
                template: self.template,
                pool_interval: self.pool_interval,
                poll_limit: self.poll_limit,
                phase,
            },
            action,
        )
    }

    fn end(self, outcome: Outcome) -> (r: (PreviewCommand, Action))
        ensures
            r == self.ended(outcome),
    {
        self.go(PreviewPhase::Finished, Action::Finish(outcome))
    }

    fn fail(self, failure: Failure) -> (r: (PreviewCommand, Action))
        ensures
            r == self.failed(failure),
    {
        self.end(Outcome::Failed(failure))
    }

    fn render(self, kind: ChangeSetType) -> (r: (PreviewCommand, Action))
        ensures
            r == self.rendering(kind),
    {
        let action = Action::RenderTemplate(self.template.clone());
        self.go(PreviewPhase::Rendering { kind }, action)
    }

    fn query_stack(self, poll: PollState) -> (r: (PreviewCommand, Action))
        ensures
            r == (self.at(PreviewPhase::Settling(poll)), Action::QueryStack(self.stack)),
    {
        let action = Action::QueryStack(self.stack.clone());
        self.go(PreviewPhase::Settling(poll), action)
    }

    fn branch(self, status: StackStatus, reason: String) -> (r: (PreviewCommand, Action))
        ensures
            r == self.branching(status, reason),
    {
        match select_preview_branch(Some(status)) {
            Branch::Create => self.render(ChangeSetType::Create),
            Branch::Update => self.render(ChangeSetType::Update),
            Branch::Resume => {
                let action = Action::ListChangeSets(self.stack.clone());
                self.go(PreviewPhase::Listing, action)
            },
            Branch::Wait => self.query_stack(fresh()),
            Branch::Recreate | Branch::Abort => self.end(Outcome::Aborted { status, reason }),
        }
    }

    fn settle(self, poll: PollState, step: PollStep<StackStatus>) -> (r: (PreviewCommand, Action))
        ensures
            r == self.settling(poll, step),
    {
        match step {
            PollStep::Query => self.query_stack(poll),
            PollStep::Sleep => {
                let action = Action::Sleep(self.pool_interval);
                self.go(PreviewPhase::Settling(poll), action)
            },
            PollStep::Settled(status, reason) => self.branch(status, reason),
            PollStep::Failed(Failure::NotFound) => self.render(ChangeSetType::Create),
            PollStep::Failed(failure) => self.fail(failure),
        }
    }

    fn await_change_set(self, id: String, poll: PollState, step: PollStep<ChangeSetStatus>) -> (r:
        (PreviewCommand, Action))
        ensures
            r == self.awaiting_change_set(id, poll, step),
    {
        match step {
            PollStep::Query => {
                let action = Action::QueryChangeSet(id.clone());
                self.go(PreviewPhase::AwaitingChangeSet { id, poll }, action)
            },
            PollStep::Sleep => {
                let action = Action::Sleep(self.pool_interval);
                self.go(PreviewPhase::AwaitingChangeSet { id, poll }, action)
            },
            PollStep::Settled(_, _) => self.go(
                PreviewPhase::Describing,
                Action::DescribeChangeSet(id),
            ),
            PollStep::Failed(failure) => self.fail(failure),
        }
    }

    /// Takes the command one step further: given the event that answers
    /// the action last asked for, the command in its next phase and the
    /// action it asks for now.
    pub fn step(self, event: Event) -> (r: (PreviewCommand, Action))
        ensures
            r == self.next(event),
    {
        let PreviewCommand { stack, template, pool_interval, poll_limit, phase } = self;
        let cmd = PreviewCommand {
            stack,
            template,
            pool_interval,
            poll_limit,
            phase: PreviewPhase::Finished,
        };
        match phase {
            PreviewPhase::Settling(poll) => match into_stack_poll_event(event) {
                Some(told) => {
                    let (poll, step) = poll_step(poll, told, cmd.poll_limit);
                    cmd.settle(poll, step)
                },
                None => cmd.fail(Failure::UnexpectedEvent),
            },
            PreviewPhase::Rendering { kind } => match event {
                Event::Template(template) => cmd.go(
                    PreviewPhase::Naming { kind, template },
                    Action::ReadCalendar,
                ),
                event => cmd.fail(into_refusal(event)),
            },
            PreviewPhase::Naming { kind, template } => match event {
                Event::Calendar(at) => {
                    let action = Action::SubmitChangeSet {
                        name: ChangeSetName { stack: cmd.stack.clone(), at },
                        kind,
                        template,
                    };
                    cmd.go(PreviewPhase::Submitting, action)
                },
                event => cmd.fail(into_refusal(event)),
            },
            PreviewPhase::Submitting => match event {
                Event::Submitted(Some(id)) => {
                    let action = Action::QueryChangeSet(id.clone());
                    cmd.go(
                        PreviewPhase::AwaitingChangeSet { id, poll: fresh() },
                        action,
                    )
                },
                Event::Submitted(None) => cmd.fail(Failure::EmptyChangeSetId),
                event => cmd.fail(into_refusal(event)),
            },
            PreviewPhase::AwaitingChangeSet { id, poll } => match into_change_set_poll_event(
                event,
            ) {
                Some(told) => {
                    let (poll, step) = poll_step(poll, told, cmd.poll_limit);
                    cmd.await_change_set(id, poll, step)
                },
                None => cmd.fail(Failure::UnexpectedEvent),
            },
            PreviewPhase::Listing => match event {
                Event::ChangeSets(summaries) => match pending_change_set(summaries) {
                    None => cmd.fail(Failure::PendingChangeSetNotFound),
                    Some(summary) => match summary.change_set_id {
                        None => cmd.fail(Failure::EmptyChangeSetId),
                        Some(id) => cmd.go(PreviewPhase::Describing, Action::DescribeChangeSet(id)),
                    },
                },
                event => cmd.fail(into_refusal(event)),
            },
            PreviewPhase::Describing => match event {
                Event::ChangeSet(description) => cmd.go(
                    PreviewPhase::Presenting,
                    Action::ShowChangeSet(description),
                ),
                event => cmd.fail(into_refusal(event)),
            },
            PreviewPhase::Presenting => match event {
                Event::Shown => cmd.end(Outcome::Shown),
                event => cmd.fail(into_refusal(event)),
            },
            PreviewPhase::Finished => cmd.fail(Failure::UnexpectedEvent),
        }
    }

    /// The actions the command asks for in answer to `events`, one event
    /// after the other.
    pub open spec fn run(self, events: Seq<Event>) -> Seq<Action>
        decreases events.len(),
    {
        if events.len() == 0 {
            Seq::empty()
        } else {
            let (next, action) = self.next(events[0]);
            seq![action] + next.run(events.drop_first())
        }
    }

    /// A preview executes no change set and deletes neither a change set
    /// nor a stack, whatever happens.
    pub proof fn lemma_preview_applies_nothing(self, events: Seq<Event>, j: int)
        requires
            0 <= j < events.len(),
        ensures
            self.run(events).len() == events.len(),
            !(self.run(events)[j] is ExecuteChangeSet),
            !(self.run(events)[j] is DeleteChangeSet),
            !(self.run(events)[j] is DeleteStack),
        decreases events.len(),
    {
        let next = self.next(events[0]).0;
        let rest = events.drop_first();
        if rest.len() > 0 {
            next.lemma_preview_applies_nothing(rest, if j > 0 { j - 1 } else { 0 });
        } else {
            assert(next.run(rest) =~= Seq::<Action>::empty());
        }
    }

    /// A preview ends in one of three ways: the change set has been
    /// shown, the stack allowed nothing, or the command failed.
    pub proof fn lemma_preview_ends_by_showing(self, event: Event)
        ensures
            self.next(event).1 matches Action::Finish(outcome) ==> outcome is Shown || outcome
                is Aborted || outcome is Failed,
            self.next(event).1 == Action::Finish(Outcome::Shown) ==> self.phase
                is Presenting,
    {
    }
}

} // verus!
