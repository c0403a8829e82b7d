//! Branch selection: which operation a command takes up, given the status
//! in which it found the stack.

use crate::status::{Progress, StackStatus};
use vstd::prelude::*;

verus! {

/// The operation a command takes up next.
#[derive(Clone, Copy, Debug, PartialEq, Eq, Structural)]
pub enum Branch {
    /// Create the stack.
    Create,
    /// Update the stack.
    Update,
    /// Delete what is left of a failed creation, then create the stack.
    Recreate,
    /// Take up the change set that waits on the stack.
    Resume,
    /// An operation is still running on the stack: wait for it to settle.
    Wait,
    /// Nothing can be done from this status.
    Abort,
}

/// The branch of `up` for a stack found in `observed`, none standing for
/// a stack that does not exist.
pub open spec fn up_branch(observed: Option<StackStatus>) -> Branch {
    match observed {
        None => Branch::Create,
        Some(status) => match status {
            StackStatus::DeleteComplete => Branch::Create,
            StackStatus::CreateComplete
            | StackStatus::ImportComplete
            | StackStatus::UpdateComplete
            | StackStatus::UpdateRollbackComplete => Branch::Update,
            StackStatus::CreateFailed | StackStatus::RollbackComplete => Branch::Recreate,
            StackStatus::ReviewInProgress => Branch::Resume,
            _ => if status.in_progress() {
                Branch::Wait
            } else {
                Branch::Abort
            },
        },
    }
}

/// The branch of `preview`: that of `up`, but a preview never recreates.
pub open spec fn preview_branch(observed: Option<StackStatus>) -> Branch {
    match up_branch(observed) {
        Branch::Recreate => Branch::Abort,
        branch => branch,
    }
}

/// The branch that `up` takes from the status in which it finds the
/// stack.
pub fn select_up_branch(observed: Option<StackStatus>) -> (branch: Branch)
    ensures
        branch == up_branch(observed),
{
    match observed {
        None => Branch::Create,
        Some(StackStatus::DeleteComplete) => Branch::Create,
        Some(StackStatus::CreateComplete)
        | Some(StackStatus::ImportComplete)
        | Some(StackStatus::UpdateComplete)
        | Some(StackStatus::UpdateRollbackComplete) => Branch::Update,
        Some(StackStatus::CreateFailed) | Some(StackStatus::RollbackComplete) => Branch::Recreate,
        Some(StackStatus::ReviewInProgress) => Branch::Resume,
        Some(status) => {
            if status.is_in_progress() {
                Branch::Wait
            } else {
                Branch::Abort
            }
        },
    }
}

/// The branch that `preview` takes from the status in which it finds the
/// stack.
pub fn select_preview_branch(observed: Option<StackStatus>) -> (branch: Branch)
    ensures
        branch == preview_branch(observed),
{
    match select_up_branch(observed) {
        Branch::Recreate => Branch::Abort,
        branch => branch,
    }
}

/// A stack that was created, imported or updated, or whose update was
/// rolled back, is updated.
pub proof fn lemma_complete_stack_is_updated(status: StackStatus)
    requires
        status == StackStatus::CreateComplete || status == StackStatus::ImportComplete || status
            == StackStatus::UpdateComplete || status == StackStatus::UpdateRollbackComplete,
    ensures
        up_branch(Some(status)) == Branch::Update,
{
}

/// A stack that does not exist, or that was deleted, is created.
pub proof fn lemma_absent_or_deleted_stack_is_created()
    ensures
        up_branch(None) == Branch::Create,
        up_branch(Some(StackStatus::DeleteComplete)) == Branch::Create,
{
}

/// Exactly the statuses in progress make a command wait; from a settled
/// status the branch is one of the other five.
pub proof fn lemma_waits_exactly_while_in_progress(status: StackStatus)
    ensures
        up_branch(Some(status)) == Branch::Wait <==> status.in_progress(),
        preview_branch(Some(status)) == Branch::Wait <==> status.in_progress(),
{
}

} // verus!
