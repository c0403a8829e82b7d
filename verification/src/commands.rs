//! The commands, each as a machine that asks for one action at a time:
//! the runner performs the action and hands back the event that answers
//! it, and the command decides what comes next.

use crate::poller::PollEvent;
use crate::protocol::{Event, Failure};
use crate::status::{ChangeSetStatus, StackStatus};
use vstd::prelude::*;

pub mod describe;
pub mod destroy;
pub mod list;
pub mod preview;
pub mod up;

verus! {

/// What the event means to a wait on the stack, if anything.
pub open spec fn stack_poll_event(event: Event) -> Option<PollEvent<StackStatus>> {
    match event {
        Event::StackStatus(status, reason) => Some(PollEvent::Observed(status, reason)),
        Event::Failed(failure) => Some(PollEvent::Unavailable(failure)),
        Event::Slept => Some(PollEvent::Slept),
        _ => None,
    }
}

/// What the event means to a wait on a change set, if anything.
pub open spec fn change_set_poll_event(event: Event) -> Option<PollEvent<ChangeSetStatus>> {
    match event {
        Event::ChangeSetStatus(status, reason) => Some(PollEvent::Observed(status, reason)),
        Event::Failed(failure) => Some(PollEvent::Unavailable(failure)),
        Event::Slept => Some(PollEvent::Slept),
        _ => None,
    }
}

/// Why the command stops on an event that is not the one it waits for:
/// the failure that the event reports, or the event being out of place.
pub open spec fn refusal(event: Event) -> Failure {
    match event {
        Event::Failed(failure) => failure,
        _ => Failure::UnexpectedEvent,
    }
}

/// What the event means to a wait on the stack, if anything.
pub fn into_stack_poll_event(event: Event) -> (r: Option<PollEvent<StackStatus>>)
    ensures
        r == stack_poll_event(event),
{
    match event {
        Event::StackStatus(status, reason) => Some(PollEvent::Observed(status, reason)),
        Event::Failed(failure) => Some(PollEvent::Unavailable(failure)),
        Event::Slept => Some(PollEvent::Slept),
        _ => None,
    }
}

/// What the event means to a wait on a change set, if anything.
pub fn into_change_set_poll_event(event: Event) -> (r: Option<PollEvent<ChangeSetStatus>>)
    ensures
        r == change_set_poll_event(event),
{
    match event {
        Event::ChangeSetStatus(status, reason) => Some(PollEvent::Observed(status, reason)),
        Event::Failed(failure) => Some(PollEvent::Unavailable(failure)),
        Event::Slept => Some(PollEvent::Slept),
        _ => None,
    }
}

/// Why a command stops on an event that is not the one it waits for.
pub fn into_refusal(event: Event) -> (r: Failure)
    ensures
        r == refusal(event),
{
    match event {
        Event::Failed(failure) => failure,
        _ => Failure::UnexpectedEvent,
    }
}

/// A copy of an optional text.
pub fn copy_text(text: &Option<String>) -> (r: Option<String>)
    ensures
        r == *text,
{
    match text {
        Some(t) => Some(t.clone()),
        None => None,
    }
}

} // verus!
