//! `list`: show the stacks that are in one of the given statuses.

use crate::commands::{into_refusal, refusal};
use crate::protocol::{Action, Event, Failure, Outcome};
use crate::status::StackStatus;
use vstd::prelude::*;

verus! {

/// Where a `list` stands.
#[derive(Clone, Copy, Debug, PartialEq, Eq, Structural)]
pub enum ListPhase {
    /// The stacks are being listed.
    Listing,
    /// The listing is being shown.
    Presenting,
    /// The command has ended.
    Finished,
}

/// A `list` under way.
#[derive(Clone, Copy, Debug, PartialEq, Eq, Structural)]
pub struct ListCommand {
    pub phase: ListPhase,
}

/// The statuses listed where none are given: the stacks that exist or
/// are coming into being.
pub open spec fn default_status_filter() -> Seq<StackStatus> {
    seq![
        StackStatus::CreateComplete,
        StackStatus::CreateInProgress,
        StackStatus::ImportComplete,
        StackStatus::ImportInProgress,
    ]
}

impl ListCommand {
    /// What the command does on `event`: the phase it goes to and the
    /// action it asks for.
    pub open spec fn next(self, event: Event) -> (ListCommand, Action) {
        match self.phase {
            ListPhase::Listing => match event {
                Event::Stacks(stacks) => (
                    ListCommand { phase: ListPhase::Presenting },
                    Action::ShowStacks(stacks),
                ),
                _ => (
                    ListCommand { phase: ListPhase::Finished },
                    Action::Finish(Outcome::Failed(refusal(event))),
                ),
            },
            ListPhase::Presenting => match event {
                Event::Shown => (
                    ListCommand { phase: ListPhase::Finished },
                    Action::Finish(Outcome::Shown),
                ),
                _ => (
                    ListCommand { phase: ListPhase::Finished },
                    Action::Finish(Outcome::Failed(refusal(event))),
                ),
            },
            ListPhase::Finished => (
                ListCommand { phase: ListPhase::Finished },
                Action::Finish(Outcome::Failed(Failure::UnexpectedEvent)),
            ),
        }
    }

    /// A `list` of the stacks in one of the statuses `status_filter`, or
    /// in one of the default statuses where none are given, with its first
    /// action.
    pub fn new(status_filter: Option<Vec<StackStatus>>) -> (r: (ListCommand, Action))
        ensures
            r.0 == (ListCommand { phase: ListPhase::Listing }),
            r.1 matches Action::ListStacks(filter) && filter@ == (match status_filter {
                Some(given) => given@,
                None => default_status_filter(),
            }),
    {
        let filter = match status_filter {
            Some(given) => given,
            None => {
                let mut filter: Vec<StackStatus> = Vec::new();
                filter.push(StackStatus::CreateComplete);
                filter.push(StackStatus::CreateInProgress);
                filter.push(StackStatus::ImportComplete);
                filter.push(StackStatus::ImportInProgress);
                filter
            },
        };
        (ListCommand { phase: ListPhase::Listing }, Action::ListStacks(filter))
    }

    /// Takes the command one step further.
    pub fn step(self, event: Event) -> (r: (ListCommand, Action))
        ensures
            r == self.next(event),
    {
        let done = ListCommand { phase: ListPhase::Finished };
        match self.phase {
            ListPhase::Listing => match event {
                Event::Stacks(stacks) => (
                    ListCommand { phase: ListPhase::Presenting },
                    Action::ShowStacks(stacks),
                ),
                event => (done, Action::Finish(Outcome::Failed(into_refusal(event)))),
            },
            ListPhase::Presenting => match event {
                Event::Shown => (done, Action::Finish(Outcome::Shown)),
                event => (done, Action::Finish(Outcome::Failed(into_refusal(event)))),
            },
            ListPhase::Finished => (
                done,
                Action::Finish(Outcome::Failed(Failure::UnexpectedEvent)),
            ),
        }
    }

    /// The actions the command asks for in answer to `events`, one event
    /// after the other.
    pub open spec fn run(self, events: Seq<Event>) -> Seq<Action>
        decreases events.len(),
    {
        if events.len() == 0 {
            Seq::empty()
        } else {
            let (next, action) = self.next(events[0]);
            seq![action] + next.run(events.drop_first())
        }
    }
}

} // verus!
