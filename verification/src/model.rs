//! Plain records of what the deployment service reports: stacks, change
//! sets with their resource changes, stack events and the summaries of
//! listings. Every field the service may leave out is an `Option`.

use crate::status::{
    ChangeAction, ChangeSetStatus, ExecutionStatus, Replacement, RequiresRecreation,
    ResourceStatus, StackStatus,
};
use vstd::prelude::*;

verus! {

/// The nanoseconds of one second.
pub const NANOS_PER_SECOND: u32 = 1_000_000_000;

/// A point in time: whole seconds since the Unix epoch and the nanoseconds
/// into that second. Its view is the number of nanoseconds since the epoch.
#[derive(Clone, Copy, Debug, PartialEq, Eq)]
pub struct Timestamp {
    seconds: i64,
    subsecond_nanos: u32,
}

impl View for Timestamp {
    type V = int;

    closed spec fn view(&self) -> int {
        self.seconds * NANOS_PER_SECOND + self.subsecond_nanos
    }
}

/// How a point in time, `seconds` and `subsecond_nanos` after the epoch,
/// is written out for display.
pub uninterp spec fn date_time_text(seconds: int, subsecond_nanos: int) -> Seq<char>;

/// How `at` is written out for display.
pub open spec fn timestamp_text(at: Timestamp) -> Seq<char> {
    date_time_text(at@ / (NANOS_PER_SECOND as int), at@ % (NANOS_PER_SECOND as int))
}

/// The `Display` rendering of `aws_smithy_types::DateTime` for the time
/// `seconds` and `subsecond_nanos` after the epoch. It depends on the two
/// numbers alone. `DateTime::from_secs_and_nanos` panics when the
/// nanoseconds do not lie within one second, which `requires` leaves out.
#[verifier::external_body]
fn display_date_time(seconds: i64, subsecond_nanos: u32) -> (out: String)
    requires
        subsecond_nanos < NANOS_PER_SECOND,
    ensures
        out@ == date_time_text(seconds as int, subsecond_nanos as int),
{
    aws_smithy_types::DateTime::from_secs_and_nanos(seconds, subsecond_nanos).to_string()
}

impl Timestamp {
    #[verifier::type_invariant]
    spec fn within_second(self) -> bool {
        self.subsecond_nanos < NANOS_PER_SECOND
    }

    /// The timestamp `seconds` and `subsecond_nanos` after the epoch; none
    /// when `subsecond_nanos` does not lie within one second.
    pub fn new(seconds: i64, subsecond_nanos: u32) -> (r: Option<Timestamp>)
        ensures
            r is Some <==> subsecond_nanos < NANOS_PER_SECOND,
            r matches Some(t) ==> t@ == seconds * NANOS_PER_SECOND + subsecond_nanos,
    {
        if subsecond_nanos < NANOS_PER_SECOND {
            Some(Timestamp { seconds, subsecond_nanos })
        } else {
            None
        }
    }

    /// The whole seconds since the epoch, rounded down.
    pub fn seconds(&self) -> (s: i64)
        ensures
            s == self@ / (NANOS_PER_SECOND as int),
    {
        proof {
            use_type_invariant(self);
            Self::parts_of_view(self.seconds as int, self.subsecond_nanos as int);
        }
        self.seconds
    }

    /// The nanoseconds into the second.
    pub fn subsecond_nanos(&self) -> (n: u32)
        ensures
            n == self@ % (NANOS_PER_SECOND as int),
            n < NANOS_PER_SECOND,
    {
        proof {
            use_type_invariant(self);
            Self::parts_of_view(self.seconds as int, self.subsecond_nanos as int);
        }
        self.subsecond_nanos
    }

    /// The timestamp written out for display.
    pub fn text(&self) -> (out: String)
        ensures
            out@ == timestamp_text(*self),
    {
        display_date_time(self.seconds(), self.subsecond_nanos())
    }

    /// Whether `self` lies strictly after `other`.
    pub fn is_after(&self, other: &Timestamp) -> (later: bool)
        ensures
            later == (self@ > other@),
    {
        proof {
            use_type_invariant(self);
            use_type_invariant(other);
        }
        self.seconds > other.seconds || (self.seconds == other.seconds
            && self.subsecond_nanos > other.subsecond_nanos)
    }

    proof fn parts_of_view(s: int, n: int)
        requires
            0 <= n < 1_000_000_000,
        ensures
            (s * 1_000_000_000 + n) / 1_000_000_000 == s,
            (s * 1_000_000_000 + n) % 1_000_000_000 == n,
    {
        vstd::arithmetic::div_mod::lemma_fundamental_div_mod_converse(
            s * 1_000_000_000 + n,
            1_000_000_000,
            s,
            n,
        );
    }
}

/// One input parameter of a stack.
#[derive(Clone, Debug, PartialEq, Eq)]
pub struct Parameter {
    pub key: Option<String>,
    pub value: Option<String>,
}

/// A stack as the service describes it.
#[derive(Clone, Debug, PartialEq, Eq)]
pub struct Stack {
    pub stack_id: Option<String>,
    pub stack_name: Option<String>,
    pub parent_id: Option<String>,
    pub description: Option<String>,
    pub creation_time: Option<Timestamp>,
    pub last_updated_time: Option<Timestamp>,
    pub stack_status: Option<StackStatus>,
    pub stack_status_reason: Option<String>,
    pub parameters: Vec<Parameter>,
    /// The change set that waits on this stack, if any.
    pub change_set_id: Option<String>,
}

/// One line of a stack listing.
#[derive(Clone, Debug, PartialEq, Eq)]
pub struct StackSummary {
    pub stack_name: Option<String>,
    pub stack_status: Option<StackStatus>,
}

/// One resource of a stack.
#[derive(Clone, Debug, PartialEq, Eq)]
pub struct ResourceSummary {
    pub logical_resource_id: Option<String>,
    pub physical_resource_id: Option<String>,
    pub resource_type: Option<String>,
    pub last_updated_timestamp: Option<Timestamp>,
    pub resource_status: Option<ResourceStatus>,
}

/// The property a change detail is about.
#[derive(Clone, Debug, PartialEq, Eq)]
pub struct ChangeTarget {
    /// The kind of attribute that changes, by its name.
    pub attribute: Option<String>,
    pub name: Option<String>,
    pub requires_recreation: Option<RequiresRecreation>,
}

/// Why and where one resource changes.
#[derive(Clone, Debug, PartialEq, Eq)]
pub struct ChangeDetail {
    pub target: Option<ChangeTarget>,
    pub causing_entity: Option<String>,
    /// What triggered the change, by its name.
    pub change_source: Option<String>,
}

/// The change a change set proposes for one resource.
#[derive(Clone, Debug, PartialEq, Eq)]
pub struct ResourceChange {
    pub action: ChangeAction,
    pub logical_resource_id: Option<String>,
    pub physical_resource_id: Option<String>,
    pub resource_type: Option<String>,
    pub replacement: Option<Replacement>,
    /// The attribute kinds the change touches, by their names.
    pub scope: Vec<String>,
    pub details: Vec<ChangeDetail>,
}

/// One entry of a change set; entries that are not about a resource carry
/// no resource change.
#[derive(Clone, Debug, PartialEq, Eq)]
pub struct Change {
    pub resource_change: Option<ResourceChange>,
}

/// A change set as the service describes it, with its proposed changes in
/// the order the service gave them.
#[derive(Clone, Debug, PartialEq, Eq)]
pub struct ChangeSetDescription {
    pub change_set_id: Option<String>,
    pub change_set_name: Option<String>,
    pub status: Option<ChangeSetStatus>,
    pub status_reason: Option<String>,
    pub changes: Vec<Change>,
}

/// One line of a change set listing.
#[derive(Clone, Debug, PartialEq, Eq)]
pub struct ChangeSetSummary {
    pub change_set_id: Option<String>,
    pub execution_status: Option<ExecutionStatus>,
}

/// One event in the history of a stack.
#[derive(Clone, Debug, PartialEq, Eq)]
pub struct StackEvent {
    pub timestamp: Option<Timestamp>,
    pub logical_resource_id: Option<String>,
    pub resource_type: Option<String>,
    pub resource_status: Option<ResourceStatus>,
    pub resource_status_reason: Option<String>,
    pub resource_properties: Option<String>,
}

} // verus!
