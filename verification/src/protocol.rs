//! The vocabulary between a command and whoever runs it: the command asks
//! for one action at a time, the runner performs it and answers with one
//! event, until the command finishes with an outcome.

use crate::diagnostics::{failures_after, FailureReportView};
use crate::interval::PollInterval;
use crate::model::{
    ChangeSetDescription, ChangeSetSummary, ResourceSummary, Stack, StackEvent, StackSummary,
    Timestamp,
};
use crate::naming::{ChangeSetName, UtcStamp};
use crate::status::{ChangeSetStatus, ChangeSetType, StackStatus};
use crate::text::concat;
use vstd::prelude::*;
use vstd::string::StringExecFns;

verus! {

/// Why a command cannot go on.
#[derive(Clone, Debug, PartialEq, Eq)]
pub enum Failure {
    /// The service knows no stack of that name.
    NotFound,
    /// A call to the service failed; the text is the service's own.
    Remote(String),
    /// Rendering the template failed; the text is what the renderer wrote
    /// to its error stream.
    Template(String),
    /// The service answered without a list of stacks.
    NoStacksList,
    /// The service answered with an empty list of stacks.
    EmptyStacksList,
    /// A stack or a change set came without a status.
    MissingStatus,
    /// A change set came without its id.
    EmptyChangeSetId,
    /// A stack came without its id.
    MissingStackId,
    /// The stack awaits review, yet no change set of it can be executed.
    PendingChangeSetNotFound,
    /// A change set that was to be deleted settled in another status.
    ChangeSetNotDeleted { id: String, reason: String },
    /// A wait gave up: the entity was still in progress at the last query
    /// the wait was allowed.
    Timeout,
    /// The runner answered with an event the command did not ask for.
    UnexpectedEvent,
}

impl Failure {
    /// The failure in words.
    pub open spec fn message_text(self) -> Seq<char> {
        match self {
            Failure::NotFound => "Stack not found"@,
            Failure::Remote(text) => text@,
            Failure::Template(text) => text@,
            Failure::NoStacksList => "No stacks list"@,
            Failure::EmptyStacksList => "Empty stacks list"@,
            Failure::MissingStatus => "Stack without status"@,
            Failure::EmptyChangeSetId => "Empty change set id"@,
            Failure::MissingStackId => "Stack without id"@,
            Failure::PendingChangeSetNotFound => "Pending change set not found"@,
            Failure::ChangeSetNotDeleted { id, reason } => "Unable to delete the change set "@
                + id@ + ": "@ + reason@,
            Failure::Timeout => "Timed out waiting for the operation to settle"@,
            Failure::UnexpectedEvent => "Unexpected event"@,
        }
    }

    /// The failure in words.
    pub fn message(&self) -> (text: String)
        ensures
            text@ == self.message_text(),
    {
        match self {
            Failure::NotFound => "Stack not found".to_owned(),
            Failure::Remote(text) => text.clone(),
            Failure::Template(text) => text.clone(),
            Failure::NoStacksList => "No stacks list".to_owned(),
            Failure::EmptyStacksList => "Empty stacks list".to_owned(),
            Failure::MissingStatus => "Stack without status".to_owned(),
            Failure::EmptyChangeSetId => "Empty change set id".to_owned(),
            Failure::MissingStackId => "Stack without id".to_owned(),
            Failure::PendingChangeSetNotFound => "Pending change set not found".to_owned(),
            Failure::ChangeSetNotDeleted { id, reason } => {
                let mut text = concat("Unable to delete the change set ", id.as_str());
                text.append(": ");
                text.append(reason.as_str());
                text
            },
            Failure::Timeout => "Timed out waiting for the operation to settle".to_owned(),
            Failure::UnexpectedEvent => "Unexpected event".to_owned(),
        }
    }
}

/// A yes/no question to the operator. Every question defaults to no.
#[derive(Clone, Copy, Debug, PartialEq, Eq, Structural)]
pub enum Prompt {
    /// Go on with what was just shown?
    Continue,
    /// Delete the stack whose creation failed and create it anew?
    Recreate,
    /// Apply the change set that waits on the stack?
    ApplyPending,
    /// Delete the change set that waits on the stack?
    DeletePending,
}

impl Prompt {
    /// The question in words.
    pub open spec fn wording(self) -> Seq<char> {
        match self {
            Prompt::Continue => "Do you want to continue?"@,
            Prompt::Recreate => "Do you want to delete the stack and create it again?"@,
            Prompt::ApplyPending => "Do you want to apply this change set?"@,
            Prompt::DeletePending => "Do you want to delete this change set?"@,
        }
    }

    /// The question in words.
    pub fn text(&self) -> (text: &'static str)
        ensures
            text@ == self.wording(),
    {
        match self {
            Prompt::Continue => "Do you want to continue?",
            Prompt::Recreate => "Do you want to delete the stack and create it again?",
            Prompt::ApplyPending => "Do you want to apply this change set?",
            Prompt::DeletePending => "Do you want to delete this change set?",
        }
    }
}

/// How a command ended.
#[derive(Clone, Debug, PartialEq, Eq)]
pub enum Outcome {
    /// The operation ran and the stack settled in the status hoped for.
    Succeeded,
    /// The stack settled in another status; the failures of its resources
    /// were shown. This is no failure of the command.
    Unsuccessful(StackStatus),
    /// The stack was in a status from which nothing can be done; nothing
    /// was changed.
    Aborted { status: StackStatus, reason: String },
    /// The operator declined; nothing more was changed.
    Declined,
    /// What was asked for has been shown.
    Shown,
    /// The command failed.
    Failed(Failure),
}

impl Outcome {
    /// Whether the process is to exit without an error.
    pub open spec fn clean(self) -> bool {
        !(self is Failed)
    }

    /// Whether the process is to exit without an error.
    pub fn is_clean(&self) -> (clean: bool)
        ensures
            clean == self.clean(),
    {
        match self {
            Outcome::Failed(_) => false,
            _ => true,
        }
    }
}

/// What a command asks its runner to do next.
#[derive(Clone, Debug, PartialEq, Eq)]
pub enum Action {
    /// Ask the service for the status of the stack of this name.
    QueryStack(String),
    /// Ask the service for the status of the change set of this id.
    QueryChangeSet(String),
    /// Wait for one poll interval.
    Sleep(PollInterval),
    /// Read the clock.
    ReadClock,
    /// Read the date and the time of day in UTC.
    ReadCalendar,
    /// Render the template at this path.
    RenderTemplate(String),
    /// Submit a change set of this kind under this name, for the stack
    /// that the name is made for.
    SubmitChangeSet { name: ChangeSetName, kind: ChangeSetType, template: String },
    /// Ask the service to describe the change set of this id.
    DescribeChangeSet(String),
    /// Show the change set to the operator.
    ShowChangeSet(ChangeSetDescription),
    /// Put the question to the operator.
    Confirm(Prompt),
    /// Execute the change set of this id.
    ExecuteChangeSet(String),
    /// Delete the change set of this id.
    DeleteChangeSet(String),
    /// Delete the stack of this name or id.
    DeleteStack(String),
    /// List the change sets of the stack of this name.
    ListChangeSets(String),
    /// Fetch the events of the stack of this name.
    ListEvents(String),
    /// Show the failures among the events that happened after `since`.
    ShowFailures { events: Vec<StackEvent>, since: Timestamp },
    /// Ask the service to describe the stack of this name.
    DescribeStack(String),
    /// Show the stack to the operator.
    ShowStack(Stack),
    /// List the resources of the stack of this id.
    ListResources(String),
    /// Show the resources to the operator.
    ShowResources(Vec<ResourceSummary>),
    /// List the stacks that are in one of these statuses.
    ListStacks(Vec<StackStatus>),
    /// Show the listing to the operator.
    ShowStacks(Vec<StackSummary>),
    /// Stop; the command has ended so.
    Finish(Outcome),
}

impl Action {
    /// Whether the action changes anything at the service.
    pub open spec fn mutates(self) -> bool {
        self is SubmitChangeSet || self is ExecuteChangeSet || self is DeleteChangeSet
            || self is DeleteStack
    }

    /// The failures that the action asks to show: of the events it
    /// carries, the failed creations and updates that happened after its
    /// boundary, in the order of the events. None for any other action.
    pub open spec fn shown_failures(self) -> Seq<FailureReportView> {
        match self {
            Action::ShowFailures { events, since } => failures_after(events@, since@),
            _ => Seq::empty(),
        }
    }

    /// Whether the action changes anything at the service.
    pub fn is_mutation(&self) -> (mutates: bool)
        ensures
            mutates == self.mutates(),
    {
        match self {
            Action::SubmitChangeSet { .. }
            | Action::ExecuteChangeSet(_)
            | Action::DeleteChangeSet(_)
            | Action::DeleteStack(_) => true,
            _ => false,
        }
    }
}

/// What the runner answers after it has performed an action.
#[derive(Clone, Debug, PartialEq, Eq)]
pub enum Event {
    /// The status of the stack and the reason the service gives for it.
    StackStatus(StackStatus, String),
    /// The status of the change set and the reason the service gives.
    ChangeSetStatus(ChangeSetStatus, String),
    /// One poll interval has passed.
    Slept,
    /// What the clock read.
    Clock(Timestamp),
    /// The date and the time of day in UTC.
    Calendar(UtcStamp),
    /// The rendered template.
    Template(String),
    /// The change set was submitted; the service named it so.
    Submitted(Option<String>),
    /// The change set as the service describes it.
    ChangeSet(ChangeSetDescription),
    /// What was to be shown has been shown.
    Shown,
    /// The operator's answer.
    Answer(bool),
    /// The service has taken the request.
    Accepted,
    /// The change sets of the stack.
    ChangeSets(Vec<ChangeSetSummary>),
    /// The events of the stack, in the order the service gave them.
    Events(Vec<StackEvent>),
    /// The stack as the service describes it.
    Stack(Stack),
    /// The resources of the stack.
    Resources(Vec<ResourceSummary>),
    /// The stacks listed.
    Stacks(Vec<StackSummary>),
    /// The action failed.
    Failed(Failure),
}

} // verus!
