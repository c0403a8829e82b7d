//! What the client adapter makes of the service's answers: the status of a
//! stack or of a change set with its reason, the change set that waits on
//! a stack, and whether a refusal means that the stack does not exist.

use crate::model::{ChangeSetDescription, ChangeSetSummary, Stack};
use crate::protocol::Failure;
use crate::status::{ChangeSetStatus, ExecutionStatus, StackStatus};
use crate::text::{or_text, text_or};
use vstd::prelude::*;
use vstd::string::StringSliceAdditionalSpecFns;

verus! {

/// The status and the reason of the first stack of an answer; the reason
/// is "Unknown reason" where the service gave none.
pub open spec fn status_of_stacks(stacks: Option<Vec<Stack>>) -> Result<
    (StackStatus, Seq<char>),
    Failure,
> {
    match stacks {
        None => Err(Failure::NoStacksList),
        Some(list) => if list@.len() == 0 {
            Err(Failure::EmptyStacksList)
        } else {
            match list@[0].stack_status {
                None => Err(Failure::MissingStatus),
                Some(status) => Ok(
                    (status, text_or(list@[0].stack_status_reason, "Unknown reason"@)),
                ),
            }
        },
    }
}

/// The status and the reason of a change set; the reason is "Unknown
/// reason" where the service gave none.
pub open spec fn status_of_change_set(description: ChangeSetDescription) -> Result<
    (ChangeSetStatus, Seq<char>),
    Failure,
> {
    match description.status {
        None => Err(Failure::MissingStatus),
        Some(status) => Ok((status, text_or(description.status_reason, "Unknown reason"@))),
    }
}

/// Whether the two agree: the same failure, or the same status with the
/// same text as reason.
pub open spec fn agrees<S>(got: Result<(S, String), Failure>, want: Result<
    (S, Seq<char>),
    Failure,
>) -> bool {
    match (got, want) {
        (Ok((status, reason)), Ok((s, r))) => status == s && reason@ == r,
        (Err(failure), Err(f)) => failure == f,
        _ => false,
    }
}

/// The status of the stack that the service described, with the reason
/// the service gives for it.
pub fn stack_status(stacks: &Option<Vec<Stack>>) -> (r: Result<(StackStatus, String), Failure>)
    ensures
        agrees(r, status_of_stacks(*stacks)),
{
    match stacks {
        None => Err(Failure::NoStacksList),
        Some(list) => {
            if list.len() == 0 {
                Err(Failure::EmptyStacksList)
            } else {
                let stack = &list[0];
                match stack.stack_status {
                    None => Err(Failure::MissingStatus),
                    Some(status) => Ok(
                        (status, or_text(&stack.stack_status_reason, "Unknown reason").to_owned()),
                    ),
                }
            }
        },
    }
}

/// The status of the change set that the service described, with the
/// reason the service gives for it.
pub fn change_set_status(description: &ChangeSetDescription) -> (r: Result<
    (ChangeSetStatus, String),
    Failure,
>)
    ensures
        agrees(r, status_of_change_set(*description)),
{
    match description.status {
        None => Err(Failure::MissingStatus),
        Some(status) => Ok(
            (status, or_text(&description.status_reason, "Unknown reason").to_owned()),
        ),
    }
}

/// Whether the change set can be executed.
pub open spec fn is_available(summary: ChangeSetSummary) -> bool {
    summary.execution_status == Some(ExecutionStatus::Available)
}

/// The place of the first change set of `summaries` from place `from` on
/// that can be executed; the length of `summaries` if there is none.
pub open spec fn first_available_from(summaries: Seq<ChangeSetSummary>, from: int) -> int
    decreases summaries.len() - from,
{
    if from >= summaries.len() {
        summaries.len() as int
    } else if from >= 0 && is_available(summaries[from]) {
        from
    } else {
        first_available_from(summaries, from + 1)
    }
}

/// The first change set that can be executed, if there is one.
pub open spec fn pending(summaries: Seq<ChangeSetSummary>) -> Option<ChangeSetSummary> {
    let at = first_available_from(summaries, 0);
    if at < summaries.len() {
        Some(summaries[at])
    } else {
        None
    }
}

/// The place of the first of the listed change sets that can be executed.
pub fn pending_index(summaries: &Vec<ChangeSetSummary>) -> (found: Option<usize>)
    ensures
        match found {
            Some(at) => at < summaries@.len() && at == first_available_from(summaries@, 0),
            None => first_available_from(summaries@, 0) >= summaries@.len(),
        },
{
    let mut i: usize = 0;
    while i < summaries.len()
        invariant
            i <= summaries.len(),
            first_available_from(summaries@, 0) == first_available_from(summaries@, i as int),
        decreases summaries.len() - i,
    {
        let available = match summaries[i].execution_status {
            Some(ExecutionStatus::Available) => true,
            _ => false,
        };
        if available {
            return Some(i);
        }
        i = i + 1;
    }
    None
}

/// The first of the listed change sets that can be executed.
pub fn pending_change_set(summaries: Vec<ChangeSetSummary>) -> (found: Option<ChangeSetSummary>)
    ensures
        found == pending(summaries@),
{
    match pending_index(&summaries) {
        Some(at) => {
            let mut rest = summaries;
            Some(rest.swap_remove(at))
        },
        None => None,
    }
}

/// The first change set that can be executed is one of the listed ones,
/// it can be executed, and none before it can.
pub proof fn lemma_pending_is_first_available(summaries: Seq<ChangeSetSummary>)
    ensures
        match pending(summaries) {
            Some(found) => exists|at: int|
                0 <= at < summaries.len() && summaries[at] == found && is_available(found)
                    && forall|i: int| 0 <= i < at ==> !is_available(#[trigger] summaries[i]),
            None => forall|i: int|
                0 <= i < summaries.len() ==> !is_available(#[trigger] summaries[i]),
        },
{
    lemma_first_available(summaries, 0);
}

proof fn lemma_first_available(summaries: Seq<ChangeSetSummary>, from: int)
    requires
        0 <= from <= summaries.len(),
    ensures
        from <= first_available_from(summaries, from) <= summaries.len(),
        first_available_from(summaries, from) < summaries.len() ==> is_available(
            summaries[first_available_from(summaries, from)],
        ),
        forall|i: int|
            from <= i < first_available_from(summaries, from) ==> !is_available(
                #[trigger] summaries[i],
            ),
    decreases summaries.len() - from,
{
    if from < summaries.len() && !is_available(summaries[from]) {
        lemma_first_available(summaries, from + 1);
    }
}

/// Whether `sought` stands in `text` at the place `at`, byte for byte.
pub open spec fn stands_at(sought: Seq<u8>, text: Seq<u8>, at: int) -> bool {
    0 <= at && at + sought.len() <= text.len() && text.subrange(at, at + sought.len()) == sought
}

/// Whether `sought` occurs somewhere in `text`.
pub open spec fn occurs(sought: Seq<u8>, text: Seq<u8>) -> bool {
    exists|at: int| stands_at(sought, text, at)
}

/// Whether a refusal of the service, by its error code and its message,
/// tells that the stack does not exist: the service refuses the request
/// as invalid and says of the stack that it "does not exist".
pub open spec fn tells_absence(code: Option<&str>, message: Option<&str>) -> bool {
    &&& code matches Some(c)
    &&& c.spec_bytes() == "ValidationError".spec_bytes()
    &&& message matches Some(m)
    &&& occurs("does not exist".spec_bytes(), m.spec_bytes())
}

/// The failure that a refused description of a stack stands for: the
/// stack is not found, or the call failed with the text `text`.
pub open spec fn refusal_of(code: Option<&str>, message: Option<&str>, text: String) -> Failure {
    if tells_absence(code, message) {
        Failure::NotFound
    } else {
        Failure::Remote(text)
    }
}

fn found_at(sought: &[u8], text: &[u8], at: usize) -> (found: bool)
    requires
        at + sought.len() <= text.len(),
    ensures
        found == stands_at(sought@, text@, at as int),
{
    let mut i: usize = 0;
    while i < sought.len()
        invariant
            i <= sought.len(),
            at + sought.len() <= text.len(),
            forall|k: int| 0 <= k < i ==> text@[at + k] == sought@[k],
        decreases sought.len() - i,
    {
        if text[at + i] != sought[i] {
            proof {
                assert(text@.subrange(at as int, at + sought.len())[i as int] == text@[at + i]);
            }
            return false;
        }
        i = i + 1;
    }
    proof {
        assert(text@.subrange(at as int, at + sought.len()) =~= sought@);
    }
    true
}

/// Whether `sought` occurs somewhere in `text`.
pub fn contains_bytes(sought: &[u8], text: &[u8]) -> (found: bool)
    ensures
        found == occurs(sought@, text@),
{
    if sought.len() > text.len() {
        return false;
    }
    let last: usize = text.len() - sought.len();
    let mut at: usize = 0;
    while at < last
        invariant
            at <= last,
            last == text.len() - sought.len(),
            forall|k: int| 0 <= k < at ==> !stands_at(sought@, text@, k),
        decreases last - at,
    {
        if found_at(sought, text, at) {
            return true;
        }
        at = at + 1;
    }
    found_at(sought, text, last)
}

/// The failure that a refused description of a stack stands for, given
/// the error code and the message of the service and the whole refusal
/// in words.
pub fn describe_failure(code: Option<&str>, message: Option<&str>, text: String) -> (r: Failure)
    ensures
        r == refusal_of(code, message, text),
{
    let invalid = match code {
        Some(c) => {
            let given = c.as_bytes();
            let wanted = "ValidationError".as_bytes();
            proof {
                assert(given@.subrange(0, given@.len() as int) =~= given@);
            }
            given.len() == wanted.len() && found_at(wanted, given, 0)
        },
        None => false,
    };
    let absent = invalid && match message {
        Some(m) => contains_bytes("does not exist".as_bytes(), m.as_bytes()),
        None => false,
    };
    if absent {
        Failure::NotFound
    } else {
        Failure::Remote(text)
    }
}

} // verus!
