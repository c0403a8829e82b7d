//! `describe`: show a stack and its resources.

use crate::commands::{copy_text, into_refusal, into_stack_poll_event, refusal, stack_poll_event};
use crate::interval::PollInterval;
use crate::poller::{fresh, poll_next, poll_step, PollState, PollStep};
use crate::protocol::{Action, Event, Failure, Outcome};
use crate::status::StackStatus;
use vstd::prelude::*;

verus! {

/// Where a `describe` stands.
#[derive(Clone, Debug, PartialEq, Eq)]
pub enum DescribePhase {
    /// Waiting for whatever runs on the stack to settle.
    Settling(PollState),
    /// The stack is being described.
    Describing,
    /// The stack, which has this id, is being shown.
    PresentingStack { stack_id: Option<String> },
    /// The resources of the stack are being listed.
    ListingResources,
    /// The resources are being shown.
    PresentingResources,
    /// The command has ended.
    Finished,
}

/// A `describe` under way.
#[derive(Clone, Debug, PartialEq, Eq)]
pub struct DescribeCommand {
    pub stack: String,
    pub pool_interval: PollInterval,
    /// The largest number of queries a wait may make; none for waits
    /// without bound.
    pub poll_limit: Option<u64>,
    pub phase: DescribePhase,
}

impl DescribeCommand {
    /// The command in another phase.
    pub open spec fn at(self, phase: DescribePhase) -> DescribeCommand {
        DescribeCommand { phase, ..self }
    }

    /// The command ended with `outcome`.
    pub open spec fn ended(self, outcome: Outcome) -> (DescribeCommand, Action) {
        (self.at(DescribePhase::Finished), Action::Finish(outcome))
    }

    /// The command ended with `failure`.
    pub open spec fn failed(self, failure: Failure) -> (DescribeCommand, Action) {
        self.ended(Outcome::Failed(failure))
    }

    /// The wait on the stack goes on with `step`. However the wait ends,
    /// be it with a failure, the stack is then described.
    pub open spec fn settling(self, poll: PollState, step: PollStep<StackStatus>) -> (
        DescribeCommand,
        Action,
    ) {
        match step {
            PollStep::Query => (
                self.at(DescribePhase::Settling(poll)),
                Action::QueryStack(self.stack),
            ),
            PollStep::Sleep => (
                self.at(DescribePhase::Settling(poll)),
                Action::Sleep(self.pool_interval),
            ),
            _ => (self.at(DescribePhase::Describing), Action::DescribeStack(self.stack)),
        }
    }

    /// What the command does on `event`: the phase it goes to and the
    /// action it asks for.
    pub open spec fn next(self, event: Event) -> (DescribeCommand, Action) {
        match self.phase {
            DescribePhase::Settling(poll) => match stack_poll_event(event) {
                Some(told) => {
                    let (poll, step) = poll_next(poll, told, self.poll_limit);
                    self.settling(poll, step)
                },
                None => self.failed(Failure::UnexpectedEvent),
            },
            DescribePhase::Describing => match event {
                Event::Stack(stack) => (
                    self.at(DescribePhase::PresentingStack { stack_id: stack.stack_id }),
                    Action::ShowStack(stack),
                ),
                _ => self.failed(refusal(event)),
            },
            DescribePhase::PresentingStack { stack_id } => match event {
                Event::Shown => match stack_id {
                    Some(id) => (
                        self.at(DescribePhase::ListingResources),
                        Action::ListResources(id),
                    ),
                    None => self.ended(Outcome::Shown),
                },
                _ => self.failed(refusal(event)),
            },
            DescribePhase::ListingResources => match event {
                Event::Resources(resources) => (
                    self.at(DescribePhase::PresentingResources),
                    Action::ShowResources(resources),
                ),
                _ => self.failed(refusal(event)),
            },
            DescribePhase::PresentingResources => match event {
                Event::Shown => self.ended(Outcome::Shown),
                _ => self.failed(refusal(event)),
            },
            DescribePhase::Finished => self.failed(Failure::UnexpectedEvent),
        }
    }

    /// How the command begins: it asks for the status of the stack.
    pub open spec fn begun(stack: String, pool_interval: PollInterval) -> (
        DescribeCommand,
        Action,
    ) {
        (
            DescribeCommand {
                stack,
                pool_interval,
                poll_limit: None,
                phase: DescribePhase::Settling(fresh()),
            },
            Action::QueryStack(stack),
        )
    }

    /// A `describe` of the stack `stack`, with its first action.
    pub fn new(stack: String, pool_interval: PollInterval) -> (r: (DescribeCommand, Action))
        ensures
            r == Self::begun(stack, pool_interval),
    {
        let first = Action::QueryStack(stack.clone());
        (
            DescribeCommand {
                stack,
                pool_interval,
                poll_limit: None,
                phase: DescribePhase::Settling(fresh()),
            },
            first,
        )
    }

    /// The command with its waits limited to `most` queries each: a wait
    /// that finds its entity in progress that often gives up with a
    /// timeout.
    pub fn with_poll_limit(self, most: u64) -> (r: DescribeCommand)
        ensures
            r == (DescribeCommand { poll_limit: Some(most), ..self }),
    {
        let mut limited = self;
        limited.poll_limit = Some(most);
        limited
    }

    fn go(self, phase: DescribePhase, action: Action) -> (r: (DescribeCommand, Action))
        ensures
            r == (self.at(phase), action),
    {
        (
            DescribeCommand {
                stack: self.stack,
                pool_interval: self.pool_interval,
                poll_limit: self.poll_limit,
                phase,
            },
            action,
        )
    }

    fn end(self, outcome: Outcome) -> (r: (DescribeCommand, Action))
        ensures
            r == self.ended(outcome),
    {
        self.go(DescribePhase::Finished, Action::Finish(outcome))
    }

    fn fail(self, failure: Failure) -> (r: (DescribeCommand, Action))
        ensures
            r == self.failed(failure),
    {
        self.end(Outcome::Failed(failure))
    }

    fn settle(self, poll: PollState, step: PollStep<StackStatus>) -> (r: (
        DescribeCommand,
        Action,
    ))
        ensures
            r == self.settling(poll, step),
    {
        match step {
            PollStep::Query => {
                let action = Action::QueryStack(self.stack.clone());
                self.go(DescribePhase::Settling(poll), action)
            },
            PollStep::Sleep => {
                let action = Action::Sleep(self.pool_interval);
                self.go(DescribePhase::Settling(poll), action)
            },
            _ => {
                let action = Action::DescribeStack(self.stack.clone());
                self.go(DescribePhase::Describing, action)
            },
        }
    }

    /// Takes the command one step further: given the event that answers
    /// the action last asked for, the command in its next phase and the
    /// action it asks for now.
    pub fn step(self, event: Event) -> (r: (DescribeCommand, Action))
        ensures
            r == self.next(event),
    {
        let DescribeCommand { stack, pool_interval, poll_limit, phase } = self;
        let cmd = DescribeCommand {
            stack,
            pool_interval,
            poll_limit,
            phase: DescribePhase::Finished,
        };
        match phase {
            DescribePhase::Settling(poll) => match into_stack_poll_event(event) {
                Some(told) => {
                    let (poll, step) = poll_step(poll, told, cmd.poll_limit);
                    cmd.settle(poll, step)
                },
                None => cmd.fail(Failure::UnexpectedEvent),
            },
            DescribePhase::Describing => match event {
                Event::Stack(stack) => {
                    let stack_id = copy_text(&stack.stack_id);
                    cmd.go(DescribePhase::PresentingStack { stack_id }, Action::ShowStack(stack))
                },
                event => cmd.fail(into_refusal(event)),
            },
            DescribePhase::PresentingStack { stack_id } => match event {
                Event::Shown => match stack_id {
                    Some(id) => cmd.go(DescribePhase::ListingResources, Action::ListResources(id)),
                    None => cmd.end(Outcome::Shown),
                },
                event => cmd.fail(into_refusal(event)),
            },
            DescribePhase::ListingResources => match event {
                Event::Resources(resources) => cmd.go(
                    DescribePhase::PresentingResources,
                    Action::ShowResources(resources),
                ),
                event => cmd.fail(into_refusal(event)),
            },
            DescribePhase::PresentingResources => match event {
                Event::Shown => cmd.end(Outcome::Shown),
                event => cmd.fail(into_refusal(event)),
            },
            DescribePhase::Finished => cmd.fail(Failure::UnexpectedEvent),
        }
    }

    /// The actions the command asks for in answer to `events`, one event
    /// after the other.
    pub open spec fn run(self, events: Seq<Event>) -> Seq<Action>
        decreases events.len(),
    {
        if events.len() == 0 {
            Seq::empty()
        } else {
            let (next, action) = self.next(events[0]);
            seq![action] + next.run(events.drop_first())
        }
    }
}

} // verus!
