//! The colour a status or a change is shown in, and the terminal text
//! that carries it.

use crate::status::{
    ChangeAction, ChangeSetStatus, Replacement, RequiresRecreation, ResourceStatus, StackStatus,
};
use colored::Colorize;
use vstd::prelude::*;

verus! {

/// The colours of the terminal that are in use.
#[derive(Clone, Copy, Debug, PartialEq, Eq, Structural)]
pub enum TextColor {
    Green,
    Yellow,
    Red,
    Purple,
    Default,
}

/// The escape sequence that ends all styling.
pub open spec fn reset_sequence() -> Seq<char> {
    seq!['\x1b', '[', '0', 'm']
}

/// Whether the reset sequence occurs somewhere in `text`.
pub open spec fn holds_reset(text: Seq<char>) -> bool {
    exists|i: int|
        0 <= i && i + 4 <= text.len() && #[trigger] text.subrange(i, i + 4) == reset_sequence()
}

/// `text` between the escape sequence that selects the foreground colour
/// `code` and the reset sequence.
pub open spec fn styled(code: Seq<char>, text: Seq<char>) -> Seq<char> {
    seq!['\x1b', '['] + code + seq!['m'] + text + reset_sequence()
}

/// What painting `text` with the colour `code` may give: the text itself
/// where colouring is switched off, else the text styled with that colour.
/// Nothing is said of a text that already holds a reset sequence.
pub open spec fn painted(out: Seq<char>, code: Seq<char>, text: Seq<char>) -> bool {
    !holds_reset(text) ==> out == text || out == styled(code, text)
}

/// `Colorize::green` of the `colored` crate, rendered to a string. Whether
/// colours are written depends on the terminal, the environment and the
/// crate's global override, so the contract admits both outcomes: the text
/// unchanged, or wrapped in the escape sequences of foreground colour 32.
#[verifier::external_body]
fn paint_green(text: &str) -> (out: String)
    ensures
        painted(out@, seq!['3', '2'], text@),
{
    text.green().to_string()
}

/// `Colorize::yellow` of the `colored` crate, rendered to a string: the
/// text unchanged, or wrapped in the escape sequences of foreground colour
/// 33, depending on whether colours are switched on.
#[verifier::external_body]
fn paint_yellow(text: &str) -> (out: String)
    ensures
        painted(out@, seq!['3', '3'], text@),
{
    text.yellow().to_string()
}

/// `Colorize::red` of the `colored` crate, rendered to a string: the text
/// unchanged, or wrapped in the escape sequences of foreground colour 31,
/// depending on whether colours are switched on.
#[verifier::external_body]
fn paint_red(text: &str) -> (out: String)
    ensures
        painted(out@, seq!['3', '1'], text@),
{
    text.red().to_string()
}

/// `Colorize::purple` of the `colored` crate, rendered to a string: the
/// text unchanged, or wrapped in the escape sequences of foreground colour
/// 35 (magenta), depending on whether colours are switched on.
#[verifier::external_body]
fn paint_purple(text: &str) -> (out: String)
    ensures
        painted(out@, seq!['3', '5'], text@),
{
    text.purple().to_string()
}

impl TextColor {
    /// The colour of a stack status: green for what has completed, yellow
    /// for what is under way, red for failures and for the unknown.
    pub open spec fn of_stack_status(status: StackStatus) -> TextColor {
        match status {
            StackStatus::CreateComplete
            | StackStatus::DeleteComplete
            | StackStatus::ImportComplete
            | StackStatus::ImportRollbackComplete
            | StackStatus::RollbackComplete
            | StackStatus::UpdateComplete
            | StackStatus::UpdateCompleteCleanupInProgress
            | StackStatus::UpdateRollbackComplete => TextColor::Green,
            StackStatus::CreateInProgress
            | StackStatus::DeleteInProgress
            | StackStatus::ImportInProgress
            | StackStatus::ImportRollbackInProgress
            | StackStatus::ReviewInProgress
            | StackStatus::RollbackInProgress
            | StackStatus::UpdateInProgress
            | StackStatus::UpdateRollbackCompleteCleanupInProgress
            | StackStatus::UpdateRollbackInProgress => TextColor::Yellow,
            StackStatus::CreateFailed
            | StackStatus::DeleteFailed
            | StackStatus::ImportRollbackFailed
            | StackStatus::RollbackFailed
            | StackStatus::UpdateFailed
            | StackStatus::UpdateRollbackFailed
            | StackStatus::Unknown => TextColor::Red,
        }
    }

    /// The colour of the status of a change set.
    pub open spec fn of_change_set_status(status: ChangeSetStatus) -> TextColor {
        match status {
            ChangeSetStatus::CreateComplete | ChangeSetStatus::DeleteComplete => TextColor::Green,
            ChangeSetStatus::CreateInProgress
            | ChangeSetStatus::CreatePending
            | ChangeSetStatus::DeleteInProgress
            | ChangeSetStatus::DeletePending => TextColor::Yellow,
            ChangeSetStatus::DeleteFailed | ChangeSetStatus::Failed | ChangeSetStatus::Unknown => {
                TextColor::Red
            },
        }
    }

    /// The colour of a change: green for what is added or imported, yellow
    /// for what is modified, purple for what is decided only at run time, red for
    /// what is removed and for the unknown.
    pub open spec fn of_change_action(action: ChangeAction) -> TextColor {
        match action {
            ChangeAction::Add | ChangeAction::Import => TextColor::Green,
            ChangeAction::Dynamic => TextColor::Purple,
            ChangeAction::Modify => TextColor::Yellow,
            ChangeAction::Remove | ChangeAction::SyncWithActual | ChangeAction::Unknown => {
                TextColor::Red
            },
        }
    }

    /// The colour of a replacement: green for none, yellow for a
    /// conditional one, red for a certain one.
    pub open spec fn of_replacement(replacement: Replacement) -> TextColor {
        match replacement {
            Replacement::Conditional => TextColor::Yellow,
            Replacement::False => TextColor::Green,
            Replacement::True | Replacement::Unknown => TextColor::Red,
        }
    }

    /// The colour of a recreation: green for never, yellow for
    /// conditionally, red for always.
    pub open spec fn of_requires_recreation(requires_recreation: RequiresRecreation) -> TextColor {
        match requires_recreation {
            RequiresRecreation::Always | RequiresRecreation::Unknown => TextColor::Red,
            RequiresRecreation::Conditionally => TextColor::Yellow,
            RequiresRecreation::Never => TextColor::Green,
        }
    }

    /// The colour of a resource status: green for what has completed,
    /// yellow for what is under way, red for everything else.
    pub open spec fn of_resource_status(status: ResourceStatus) -> TextColor {
        match status {
            ResourceStatus::CreateComplete
            | ResourceStatus::DeleteComplete
            | ResourceStatus::ImportComplete
            | ResourceStatus::ImportRollbackComplete
            | ResourceStatus::RollbackComplete
            | ResourceStatus::UpdateComplete
            | ResourceStatus::UpdateRollbackComplete => TextColor::Green,
            ResourceStatus::CreateInProgress
            | ResourceStatus::DeleteInProgress
            | ResourceStatus::ImportInProgress
            | ResourceStatus::ImportRollbackInProgress
            | ResourceStatus::RollbackInProgress
            | ResourceStatus::UpdateInProgress
            | ResourceStatus::UpdateRollbackInProgress => TextColor::Yellow,
            _ => TextColor::Red,
        }
    }

    /// The colour in which a stack status is shown.
    pub fn from_stack_status(stack_status: &StackStatus) -> (color: TextColor)
        ensures
            color == Self::of_stack_status(*stack_status),
    {
        match stack_status {
            StackStatus::CreateComplete => TextColor::Green,
            StackStatus::CreateFailed => TextColor::Red,
            StackStatus::CreateInProgress => TextColor::Yellow,
            StackStatus::DeleteComplete => TextColor::Green,
            StackStatus::DeleteFailed => TextColor::Red,
            StackStatus::DeleteInProgress => TextColor::Yellow,
            StackStatus::ImportComplete => TextColor::Green,
            StackStatus::ImportInProgress => TextColor::Yellow,
            StackStatus::ImportRollbackComplete => TextColor::Green,
            StackStatus::ImportRollbackFailed => TextColor::Red,
            StackStatus::ImportRollbackInProgress => TextColor::Yellow,
            StackStatus::ReviewInProgress => TextColor::Yellow,
            StackStatus::RollbackComplete => TextColor::Green,
            StackStatus::RollbackFailed => TextColor::Red,
            StackStatus::RollbackInProgress => TextColor::Yellow,
            StackStatus::UpdateComplete => TextColor::Green,
            StackStatus::UpdateCompleteCleanupInProgress => TextColor::Green,
            StackStatus::UpdateFailed => TextColor::Red,
            StackStatus::UpdateInProgress => TextColor::Yellow,
            StackStatus::UpdateRollbackComplete => TextColor::Green,
            StackStatus::UpdateRollbackCompleteCleanupInProgress => TextColor::Yellow,
            StackStatus::UpdateRollbackFailed => TextColor::Red,
            StackStatus::UpdateRollbackInProgress => TextColor::Yellow,
            StackStatus::Unknown => TextColor::Red,
        }
    }

    /// The colour in which the status of a change set is shown.
    pub fn from_change_set_status(change_set_status: &ChangeSetStatus) -> (color: TextColor)
        ensures
            color == Self::of_change_set_status(*change_set_status),
    {
        match change_set_status {
            ChangeSetStatus::CreateComplete => TextColor::Green,
            ChangeSetStatus::CreateInProgress => TextColor::Yellow,
            ChangeSetStatus::CreatePending => TextColor::Yellow,
            ChangeSetStatus::DeleteComplete => TextColor::Green,
            ChangeSetStatus::DeleteFailed => TextColor::Red,
            ChangeSetStatus::DeleteInProgress => TextColor::Yellow,
            ChangeSetStatus::DeletePending => TextColor::Yellow,
            ChangeSetStatus::Failed => TextColor::Red,
            ChangeSetStatus::Unknown => TextColor::Red,
        }
    }

    /// The colour in which a change is shown.
    pub fn from_change_action(change_action: &ChangeAction) -> (color: TextColor)
        ensures
            color == Self::of_change_action(*change_action),
    {
        match change_action {
            ChangeAction::Add => TextColor::Green,
            ChangeAction::Dynamic => TextColor::Purple,
            ChangeAction::Import => TextColor::Green,
            ChangeAction::Modify => TextColor::Yellow,
            ChangeAction::Remove => TextColor::Red,
            _ => TextColor::Red,
        }
    }

    /// The colour that tells whether a change replaces the resource.
    pub fn from_replacement(replacement: &Replacement) -> (color: TextColor)
        ensures
            color == Self::of_replacement(*replacement),
    {
        match replacement {
            Replacement::Conditional => TextColor::Yellow,
            Replacement::False => TextColor::Green,
            Replacement::True => TextColor::Red,
            _ => TextColor::Red,
        }
    }

    /// The colour that tells whether a property requires recreation.
    pub fn from_requires_recreation(requires_recreation: &RequiresRecreation) -> (color: TextColor)
        ensures
            color == Self::of_requires_recreation(*requires_recreation),
    {
        match requires_recreation {
            RequiresRecreation::Always => TextColor::Red,
            RequiresRecreation::Conditionally => TextColor::Yellow,
            RequiresRecreation::Never => TextColor::Green,
            _ => TextColor::Red,
        }
    }

    /// The colour in which a resource status is shown.
    pub fn from_resource_status(resource_status: &ResourceStatus) -> (color: TextColor)
        ensures
            color == Self::of_resource_status(*resource_status),
    {
        match resource_status {
            ResourceStatus::CreateComplete => TextColor::Green,
            ResourceStatus::CreateFailed => TextColor::Red,
            ResourceStatus::CreateInProgress => TextColor::Yellow,
            ResourceStatus::DeleteComplete => TextColor::Green,
            ResourceStatus::DeleteFailed => TextColor::Red,
            ResourceStatus::DeleteInProgress => TextColor::Yellow,
            ResourceStatus::ImportComplete => TextColor::Green,
            ResourceStatus::ImportInProgress => TextColor::Yellow,
            ResourceStatus::ImportRollbackComplete => TextColor::Green,
            ResourceStatus::ImportRollbackFailed => TextColor::Red,
            ResourceStatus::ImportRollbackInProgress => TextColor::Yellow,
            ResourceStatus::RollbackComplete => TextColor::Green,
            ResourceStatus::RollbackFailed => TextColor::Red,
            ResourceStatus::RollbackInProgress => TextColor::Yellow,
            ResourceStatus::UpdateComplete => TextColor::Green,
            ResourceStatus::UpdateFailed => TextColor::Red,
            ResourceStatus::UpdateInProgress => TextColor::Yellow,
            ResourceStatus::UpdateRollbackComplete => TextColor::Green,
            ResourceStatus::UpdateRollbackFailed => TextColor::Red,
            ResourceStatus::UpdateRollbackInProgress => TextColor::Yellow,
            _ => TextColor::Red,
        }
    }

    /// The number by which terminals know this colour as a foreground
    /// colour; empty for the default colour, which has none.
    pub open spec fn code(self) -> Seq<char> {
        match self {
            TextColor::Green => seq!['3', '2'],
            TextColor::Yellow => seq!['3', '3'],
            TextColor::Red => seq!['3', '1'],
            TextColor::Purple => seq!['3', '5'],
            TextColor::Default => Seq::empty(),
        }
    }

    /// `str` in this colour. The default colour leaves the text as it is;
    /// any other colour leaves it as it is where colouring is switched off
    /// and wraps it in that colour's escape sequences where it is on.
    pub fn colorize(&self, str: &str) -> (out: String)
        ensures
            *self == TextColor::Default ==> out@ == str@,
            *self != TextColor::Default ==> painted(out@, self.code(), str@),
    {
        match self {
            TextColor::Green => paint_green(str),
            TextColor::Yellow => paint_yellow(str),
            TextColor::Red => paint_red(str),
            TextColor::Purple => paint_purple(str),
            TextColor::Default => str.to_owned(),
        }
    }
}

} // verus!
