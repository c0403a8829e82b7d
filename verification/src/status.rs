//! The closed status vocabularies of the deployment service and the two
//! progress classifiers that decide whether an entity is still mid-operation.

use vstd::prelude::*;

verus! {

/// Status of a stack as reported by the deployment service.
#[derive(Clone, Copy, Debug, PartialEq, Eq, Structural)]
pub enum StackStatus {
    CreateComplete,
    CreateFailed,
    CreateInProgress,
    DeleteComplete,
    DeleteFailed,
    DeleteInProgress,
    ImportComplete,
    ImportInProgress,
    ImportRollbackComplete,
    ImportRollbackFailed,
    ImportRollbackInProgress,
    ReviewInProgress,
    RollbackComplete,
    RollbackFailed,
    RollbackInProgress,
    UpdateComplete,
    UpdateCompleteCleanupInProgress,
    UpdateFailed,
    UpdateInProgress,
    UpdateRollbackComplete,
    UpdateRollbackCompleteCleanupInProgress,
    UpdateRollbackFailed,
    UpdateRollbackInProgress,
    /// A status this vocabulary does not know.
    Unknown,
}

/// Status of a change set.
#[derive(Clone, Copy, Debug, PartialEq, Eq, Structural)]
pub enum ChangeSetStatus {
    CreateComplete,
    CreateInProgress,
    CreatePending,
    DeleteComplete,
    DeleteFailed,
    DeleteInProgress,
    DeletePending,
    Failed,
    /// A status this vocabulary does not know.
    Unknown,
}

/// Whether a change set can be executed.
#[derive(Clone, Copy, Debug, PartialEq, Eq, Structural)]
pub enum ExecutionStatus {
    Available,
    ExecuteComplete,
    ExecuteFailed,
    ExecuteInProgress,
    Obsolete,
    Unavailable,
    Unknown,
}

/// What a change set is submitted for.
#[derive(Clone, Copy, Debug, PartialEq, Eq, Structural)]
pub enum ChangeSetType {
    Create,
    Update,
}

/// Status of one resource inside a stack, as carried by stack events and
/// resource summaries.
#[derive(Clone, Copy, Debug, PartialEq, Eq, Structural)]
pub enum ResourceStatus {
    CreateComplete,
    CreateFailed,
    CreateInProgress,
    DeleteComplete,
    DeleteFailed,
    DeleteInProgress,
    DeleteSkipped,
    ExportComplete,
    ExportFailed,
    ExportInProgress,
    ExportRollbackComplete,
    ExportRollbackFailed,
    ExportRollbackInProgress,
    ImportComplete,
    ImportFailed,
    ImportInProgress,
    ImportRollbackComplete,
    ImportRollbackFailed,
    ImportRollbackInProgress,
    RollbackComplete,
    RollbackFailed,
    RollbackInProgress,
    UpdateComplete,
    UpdateFailed,
    UpdateInProgress,
    UpdateRollbackComplete,
    UpdateRollbackFailed,
    UpdateRollbackInProgress,
    Unknown,
}

/// What a change set does to one resource.
#[derive(Clone, Copy, Debug, PartialEq, Eq, Structural)]
pub enum ChangeAction {
    Add,
    Dynamic,
    Import,
    Modify,
    Remove,
    SyncWithActual,
    Unknown,
}

/// Whether a modification replaces the resource.
#[derive(Clone, Copy, Debug, PartialEq, Eq, Structural)]
pub enum Replacement {
    Conditional,
    False,
    True,
    Unknown,
}

/// Whether changing one property requires the resource to be recreated.
#[derive(Clone, Copy, Debug, PartialEq, Eq, Structural)]
pub enum RequiresRecreation {
    Always,
    Conditionally,
    Never,
    Unknown,
}

/// A per-entity-kind progress classifier: `in_progress` holds of exactly
/// the statuses under which the remote operation is still running.
pub trait Progress: Sized {
    spec fn in_progress(&self) -> bool;

    fn is_in_progress(&self) -> (busy: bool)
        ensures
            busy == self.in_progress(),
    ;
}

impl Progress for StackStatus {
    /// `ReviewInProgress` is settled: the stack waits for a human decision.
    open spec fn in_progress(&self) -> bool {
        *self == StackStatus::CreateInProgress
            || *self == StackStatus::DeleteInProgress
            || *self == StackStatus::ImportInProgress
            || *self == StackStatus::ImportRollbackInProgress
            || *self == StackStatus::RollbackInProgress
            || *self == StackStatus::UpdateCompleteCleanupInProgress
            || *self == StackStatus::UpdateInProgress
            || *self == StackStatus::UpdateRollbackCompleteCleanupInProgress
            || *self == StackStatus::UpdateRollbackInProgress
    }

    fn is_in_progress(&self) -> (busy: bool) {
        match self {
            StackStatus::CreateInProgress
            | StackStatus::DeleteInProgress
            | StackStatus::ImportInProgress
            | StackStatus::ImportRollbackInProgress
            | StackStatus::RollbackInProgress
            | StackStatus::UpdateCompleteCleanupInProgress
            | StackStatus::UpdateInProgress
            | StackStatus::UpdateRollbackCompleteCleanupInProgress
            | StackStatus::UpdateRollbackInProgress => true,
            _ => false,
        }
    }
}

impl Progress for ChangeSetStatus {
    open spec fn in_progress(&self) -> bool {
        *self == ChangeSetStatus::CreateInProgress
            || *self == ChangeSetStatus::CreatePending
            || *self == ChangeSetStatus::DeleteInProgress
            || *self == ChangeSetStatus::DeletePending
    }

    fn is_in_progress(&self) -> (busy: bool) {
        match self {
            ChangeSetStatus::CreateInProgress
            | ChangeSetStatus::CreatePending
            | ChangeSetStatus::DeleteInProgress
            | ChangeSetStatus::DeletePending => true,
            _ => false,
        }
    }
}

impl StackStatus {
    /// The status written out: the name of its variant.
    pub open spec fn label(self) -> Seq<char> {
        match self {
            StackStatus::CreateComplete => "CreateComplete"@,
            StackStatus::CreateFailed => "CreateFailed"@,
            StackStatus::CreateInProgress => "CreateInProgress"@,
            StackStatus::DeleteComplete => "DeleteComplete"@,
            StackStatus::DeleteFailed => "DeleteFailed"@,
            StackStatus::DeleteInProgress => "DeleteInProgress"@,
            StackStatus::ImportComplete => "ImportComplete"@,
            StackStatus::ImportInProgress => "ImportInProgress"@,
            StackStatus::ImportRollbackComplete => "ImportRollbackComplete"@,
            StackStatus::ImportRollbackFailed => "ImportRollbackFailed"@,
            StackStatus::ImportRollbackInProgress => "ImportRollbackInProgress"@,
            StackStatus::ReviewInProgress => "ReviewInProgress"@,
            StackStatus::RollbackComplete => "RollbackComplete"@,
            StackStatus::RollbackFailed => "RollbackFailed"@,
            StackStatus::RollbackInProgress => "RollbackInProgress"@,
            StackStatus::UpdateComplete => "UpdateComplete"@,
            StackStatus::UpdateCompleteCleanupInProgress => "UpdateCompleteCleanupInProgress"@,
            StackStatus::UpdateFailed => "UpdateFailed"@,
            StackStatus::UpdateInProgress => "UpdateInProgress"@,
            StackStatus::UpdateRollbackComplete => "UpdateRollbackComplete"@,
            StackStatus::UpdateRollbackCompleteCleanupInProgress => {
                "UpdateRollbackCompleteCleanupInProgress"@
            },
            StackStatus::UpdateRollbackFailed => "UpdateRollbackFailed"@,
            StackStatus::UpdateRollbackInProgress => "UpdateRollbackInProgress"@,
            StackStatus::Unknown => "Unknown"@,
        }
    }

    /// The name of the variant.
    pub fn name(&self) -> (text: &'static str)
        ensures
            text@ == self.label(),
    {
        match self {
            StackStatus::CreateComplete => "CreateComplete",
            StackStatus::CreateFailed => "CreateFailed",
            StackStatus::CreateInProgress => "CreateInProgress",
            StackStatus::DeleteComplete => "DeleteComplete",
            StackStatus::DeleteFailed => "DeleteFailed",
            StackStatus::DeleteInProgress => "DeleteInProgress",
            StackStatus::ImportComplete => "ImportComplete",
            StackStatus::ImportInProgress => "ImportInProgress",
            StackStatus::ImportRollbackComplete => "ImportRollbackComplete",
            StackStatus::ImportRollbackFailed => "ImportRollbackFailed",
            StackStatus::ImportRollbackInProgress => "ImportRollbackInProgress",
            StackStatus::ReviewInProgress => "ReviewInProgress",
            StackStatus::RollbackComplete => "RollbackComplete",
            StackStatus::RollbackFailed => "RollbackFailed",
            StackStatus::RollbackInProgress => "RollbackInProgress",
            StackStatus::UpdateComplete => "UpdateComplete",
            StackStatus::UpdateCompleteCleanupInProgress => "UpdateCompleteCleanupInProgress",
            StackStatus::UpdateFailed => "UpdateFailed",
            StackStatus::UpdateInProgress => "UpdateInProgress",
            StackStatus::UpdateRollbackComplete => "UpdateRollbackComplete",
            StackStatus::UpdateRollbackCompleteCleanupInProgress => {
                "UpdateRollbackCompleteCleanupInProgress"
            },
            StackStatus::UpdateRollbackFailed => "UpdateRollbackFailed",
            StackStatus::UpdateRollbackInProgress => "UpdateRollbackInProgress",
            StackStatus::Unknown => "Unknown",
        }
    }
}

impl ChangeSetStatus {
    /// The status written out: the name of its variant.
    pub open spec fn label(self) -> Seq<char> {
        match self {
            ChangeSetStatus::CreateComplete => "CreateComplete"@,
            ChangeSetStatus::CreateInProgress => "CreateInProgress"@,
            ChangeSetStatus::CreatePending => "CreatePending"@,
            ChangeSetStatus::DeleteComplete => "DeleteComplete"@,
            ChangeSetStatus::DeleteFailed => "DeleteFailed"@,
            ChangeSetStatus::DeleteInProgress => "DeleteInProgress"@,
            ChangeSetStatus::DeletePending => "DeletePending"@,
            ChangeSetStatus::Failed => "Failed"@,
            ChangeSetStatus::Unknown => "Unknown"@,
        }
    }

    /// The name of the variant.
    pub fn name(&self) -> (text: &'static str)
        ensures
            text@ == self.label(),
    {
        match self {
            ChangeSetStatus::CreateComplete => "CreateComplete",
            ChangeSetStatus::CreateInProgress => "CreateInProgress",
            ChangeSetStatus::CreatePending => "CreatePending",
            ChangeSetStatus::DeleteComplete => "DeleteComplete",
            ChangeSetStatus::DeleteFailed => "DeleteFailed",
            ChangeSetStatus::DeleteInProgress => "DeleteInProgress",
            ChangeSetStatus::DeletePending => "DeletePending",
            ChangeSetStatus::Failed => "Failed",
            ChangeSetStatus::Unknown => "Unknown",
        }
    }
}

impl ResourceStatus {
    /// The status written out: the name of its variant.
    pub open spec fn label(self) -> Seq<char> {
        match self {
            ResourceStatus::CreateComplete => "CreateComplete"@,
            ResourceStatus::CreateFailed => "CreateFailed"@,
            ResourceStatus::CreateInProgress => "CreateInProgress"@,
            ResourceStatus::DeleteComplete => "DeleteComplete"@,
            ResourceStatus::DeleteFailed => "DeleteFailed"@,
            ResourceStatus::DeleteInProgress => "DeleteInProgress"@,
            ResourceStatus::DeleteSkipped => "DeleteSkipped"@,
            ResourceStatus::ExportComplete => "ExportComplete"@,
            ResourceStatus::ExportFailed => "ExportFailed"@,
            ResourceStatus::ExportInProgress => "ExportInProgress"@,
            ResourceStatus::ExportRollbackComplete => "ExportRollbackComplete"@,
            ResourceStatus::ExportRollbackFailed => "ExportRollbackFailed"@,
            ResourceStatus::ExportRollbackInProgress => "ExportRollbackInProgress"@,
            ResourceStatus::ImportComplete => "ImportComplete"@,
            ResourceStatus::ImportFailed => "ImportFailed"@,
            ResourceStatus::ImportInProgress => "ImportInProgress"@,
            ResourceStatus::ImportRollbackComplete => "ImportRollbackComplete"@,
            ResourceStatus::ImportRollbackFailed => "ImportRollbackFailed"@,
            ResourceStatus::ImportRollbackInProgress => "ImportRollbackInProgress"@,
            ResourceStatus::RollbackComplete => "RollbackComplete"@,
            ResourceStatus::RollbackFailed => "RollbackFailed"@,
            ResourceStatus::RollbackInProgress => "RollbackInProgress"@,
            ResourceStatus::UpdateComplete => "UpdateComplete"@,
            ResourceStatus::UpdateFailed => "UpdateFailed"@,
            ResourceStatus::UpdateInProgress => "UpdateInProgress"@,
            ResourceStatus::UpdateRollbackComplete => "UpdateRollbackComplete"@,
            ResourceStatus::UpdateRollbackFailed => "UpdateRollbackFailed"@,
            ResourceStatus::UpdateRollbackInProgress => "UpdateRollbackInProgress"@,
            ResourceStatus::Unknown => "Unknown"@,
        }
    }

    /// The name of the variant.
    pub fn name(&self) -> (text: &'static str)
        ensures
            text@ == self.label(),
    {
        match self {
            ResourceStatus::CreateComplete => "CreateComplete",
            ResourceStatus::CreateFailed => "CreateFailed",
            ResourceStatus::CreateInProgress => "CreateInProgress",
            ResourceStatus::DeleteComplete => "DeleteComplete",
            ResourceStatus::DeleteFailed => "DeleteFailed",
            ResourceStatus::DeleteInProgress => "DeleteInProgress",
            ResourceStatus::DeleteSkipped => "DeleteSkipped",
            ResourceStatus::ExportComplete => "ExportComplete",
            ResourceStatus::ExportFailed => "ExportFailed",
            ResourceStatus::ExportInProgress => "ExportInProgress",
            ResourceStatus::ExportRollbackComplete => "ExportRollbackComplete",
            ResourceStatus::ExportRollbackFailed => "ExportRollbackFailed",
            ResourceStatus::ExportRollbackInProgress => "ExportRollbackInProgress",
            ResourceStatus::ImportComplete => "ImportComplete",
            ResourceStatus::ImportFailed => "ImportFailed",
            ResourceStatus::ImportInProgress => "ImportInProgress",
            ResourceStatus::ImportRollbackComplete => "ImportRollbackComplete",
            ResourceStatus::ImportRollbackFailed => "ImportRollbackFailed",
            ResourceStatus::ImportRollbackInProgress => "ImportRollbackInProgress",
            ResourceStatus::RollbackComplete => "RollbackComplete",
            ResourceStatus::RollbackFailed => "RollbackFailed",
            ResourceStatus::RollbackInProgress => "RollbackInProgress",
            ResourceStatus::UpdateComplete => "UpdateComplete",
            ResourceStatus::UpdateFailed => "UpdateFailed",
            ResourceStatus::UpdateInProgress => "UpdateInProgress",
            ResourceStatus::UpdateRollbackComplete => "UpdateRollbackComplete",
            ResourceStatus::UpdateRollbackFailed => "UpdateRollbackFailed",
            ResourceStatus::UpdateRollbackInProgress => "UpdateRollbackInProgress",
            ResourceStatus::Unknown => "Unknown",
        }
    }
}

impl ChangeAction {
    /// The value written out: the name of its variant.
    pub open spec fn label(self) -> Seq<char> {
        match self {
            ChangeAction::Add => "Add"@,
            ChangeAction::Dynamic => "Dynamic"@,
            ChangeAction::Import => "Import"@,
            ChangeAction::Modify => "Modify"@,
            ChangeAction::Remove => "Remove"@,
            ChangeAction::SyncWithActual => "SyncWithActual"@,
            ChangeAction::Unknown => "Unknown"@,
        }
    }

    /// The name of the variant.
    pub fn name(&self) -> (text: &'static str)
        ensures
            text@ == self.label(),
    {
        match self {
            ChangeAction::Add => "Add",
            ChangeAction::Dynamic => "Dynamic",
            ChangeAction::Import => "Import",
            ChangeAction::Modify => "Modify",
            ChangeAction::Remove => "Remove",
            ChangeAction::SyncWithActual => "SyncWithActual",
            ChangeAction::Unknown => "Unknown",
        }
    }

    /// The mark that stands for the action at the head of a change.
    pub open spec fn mark(self) -> Seq<char> {
        match self {
            ChangeAction::Add => "+"@,
            ChangeAction::Dynamic => "~/+"@,
            ChangeAction::Modify => "~"@,
            ChangeAction::Remove => "-"@,
            _ => "?"@,
        }
    }

    /// The mark that stands for the action at the head of a change.
    pub fn symbol(&self) -> (text: &'static str)
        ensures
            text@ == self.mark(),
    {
        match self {
            ChangeAction::Add => "+",
            ChangeAction::Dynamic => "~/+",
            ChangeAction::Modify => "~",
            ChangeAction::Remove => "-",
            _ => "?",
        }
    }
}

impl Replacement {
    /// The value written out: the name of its variant.
    pub open spec fn label(self) -> Seq<char> {
        match self {
            Replacement::Conditional => "Conditional"@,
            Replacement::False => "False"@,
            Replacement::True => "True"@,
            Replacement::Unknown => "Unknown"@,
        }
    }

    /// The name of the variant.
    pub fn name(&self) -> (text: &'static str)
        ensures
            text@ == self.label(),
    {
        match self {
            Replacement::Conditional => "Conditional",
            Replacement::False => "False",
            Replacement::True => "True",
            Replacement::Unknown => "Unknown",
        }
    }
}

impl RequiresRecreation {
    /// The value written out: the name of its variant.
    pub open spec fn label(self) -> Seq<char> {
        match self {
            RequiresRecreation::Always => "Always"@,
            RequiresRecreation::Conditionally => "Conditionally"@,
            RequiresRecreation::Never => "Never"@,
            RequiresRecreation::Unknown => "Unknown"@,
        }
    }

    /// The name of the variant.
    pub fn name(&self) -> (text: &'static str)
        ensures
            text@ == self.label(),
    {
        match self {
            RequiresRecreation::Always => "Always",
            RequiresRecreation::Conditionally => "Conditionally",
            RequiresRecreation::Never => "Never",
            RequiresRecreation::Unknown => "Unknown",
        }
    }
}
} // verus!
