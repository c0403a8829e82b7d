//! The diagnostics extractor: out of the events of a stack, the failures
//! of single resources that happened after a given moment.

use crate::model::{StackEvent, Timestamp};
use crate::status::ResourceStatus;
use crate::text::{or_text, text_or};
use vstd::prelude::*;

verus! {

/// The failure of one resource: its type, its logical id, the reason the
/// service gave and the raw properties of the resource.
#[derive(Clone, Debug, PartialEq, Eq)]
pub struct FailureReport {
    pub resource_type: String,
    pub logical_id: String,
    pub reason: String,
    pub properties: String,
}

/// The mathematical content of a [`FailureReport`].
pub struct FailureReportView {
    pub resource_type: Seq<char>,
    pub logical_id: Seq<char>,
    pub reason: Seq<char>,
    pub properties: Seq<char>,
}

impl View for FailureReport {
    type V = FailureReportView;

    open spec fn view(&self) -> FailureReportView {
        FailureReportView {
            resource_type: self.resource_type@,
            logical_id: self.logical_id@,
            reason: self.reason@,
            properties: self.properties@,
        }
    }
}

/// The contents of a run of reports.
pub open spec fn report_views(reports: Seq<FailureReport>) -> Seq<FailureReportView> {
    reports.map_values(|r: FailureReport| r@)
}

/// Whether the event tells that creating or updating a resource failed.
pub open spec fn is_failure(event: StackEvent) -> bool {
    event.resource_status == Some(ResourceStatus::CreateFailed) || event.resource_status == Some(
        ResourceStatus::UpdateFailed,
    )
}

/// Whether the event happened strictly after `boundary`, a moment in
/// nanoseconds since the epoch. An event without a timestamp did not
/// happen after any moment.
pub open spec fn happened_after(event: StackEvent, boundary: int) -> bool {
    match event.timestamp {
        Some(t) => t@ > boundary,
        None => false,
    }
}

/// What is reported of a failed event; what the service left out is
/// replaced by a fixed text.
pub open spec fn report_of(event: StackEvent) -> FailureReportView {
    FailureReportView {
        resource_type: text_or(event.resource_type, "UNKNOW RESOURCE TYPE"@),
        logical_id: text_or(event.logical_resource_id, "UNKNOW RESOURCE LOGICAL ID"@),
        reason: text_or(event.resource_status_reason, "Unknown reason"@),
        properties: text_or(event.resource_properties, ""@),
    }
}

/// The report of an event that is a failure after `boundary`, none for
/// any other event.
pub open spec fn reported(event: StackEvent, boundary: int) -> Option<FailureReportView> {
    if is_failure(event) && happened_after(event, boundary) {
        Some(report_of(event))
    } else {
        None
    }
}

/// The reports of all failures after `boundary`, in the order of the events.
pub open spec fn failures_after(events: Seq<StackEvent>, boundary: int) -> Seq<FailureReportView> {
    events.filter_map(|e: StackEvent| reported(e, boundary))
}

/// Whether the event tells that creating or updating a resource failed.
pub fn event_is_failure(event: &StackEvent) -> (failed: bool)
    ensures
        failed == is_failure(*event),
{
    match event.resource_status {
        Some(ResourceStatus::CreateFailed) | Some(ResourceStatus::UpdateFailed) => true,
        _ => false,
    }
}

/// Whether the event happened strictly after `boundary`; an event without
/// a timestamp never did.
pub fn event_is_after(event: &StackEvent, boundary: &Timestamp) -> (later: bool)
    ensures
        later == happened_after(*event, boundary@),
{
    match &event.timestamp {
        Some(t) => t.is_after(boundary),
        None => false,
    }
}

fn report(event: &StackEvent) -> (r: FailureReport)
    ensures
        r@ == report_of(*event),
{
    FailureReport {
        resource_type: or_text(&event.resource_type, "UNKNOW RESOURCE TYPE").to_owned(),
        logical_id: or_text(&event.logical_resource_id, "UNKNOW RESOURCE LOGICAL ID").to_owned(),
        reason: or_text(&event.resource_status_reason, "Unknown reason").to_owned(),
        properties: or_text(&event.resource_properties, "").to_owned(),
    }
}

/// The failures of single resources among `events` that happened strictly
/// after `boundary`, the moment recorded before the operation was started.
/// The order of the events is kept: with the newest event first, the
/// newest failure comes first.
pub fn failed_resources(events: &Vec<StackEvent>, boundary: &Timestamp) -> (reports: Vec<
    FailureReport,
>)
    ensures
        report_views(reports@) == failures_after(events@, boundary@),
{
    let mut reports: Vec<FailureReport> = Vec::new();
    let ghost pick = |e: StackEvent| reported(e, boundary@);
    let mut i: usize = 0;
    while i < events.len()
        invariant
            i <= events.len(),
            pick == (|e: StackEvent| reported(e, boundary@)),
            report_views(reports@) == events@.take(i as int).filter_map(pick),
        decreases events.len() - i,
    {
        let event = &events[i];
        proof {
            events@.lemma_filter_map_take_succ(pick, i as int);
        }
        if event_is_failure(event) && event_is_after(event, boundary) {
            let r = report(event);
            reports.push(r);
        }
        i = i + 1;
    }
    proof {
        assert(events@.take(events.len() as int) =~= events@);
    }
    reports
}

/// What is reported is exactly the failures after the boundary, each once
/// and in the order of the events: the reports stem from events at
/// strictly rising places, every such event is a failure after the
/// boundary, and no failure after the boundary is left out.
pub proof fn lemma_failures_in_order(events: Seq<StackEvent>, boundary: int) -> (places: Seq<int>)
    ensures
        places.len() == failures_after(events, boundary).len(),
        forall|k: int|
            0 <= k < places.len() ==> 0 <= #[trigger] places[k] < events.len() && reported(
                events[places[k]],
                boundary,
            ) == Some(failures_after(events, boundary)[k]),
        forall|k: int, l: int| 0 <= k < l < places.len() ==> places[k] < places[l],
        forall|i: int|
            0 <= i < events.len() && reported(#[trigger] events[i], boundary) is Some
                ==> places.contains(i),
    decreases events.len(),
{
    if events.len() == 0 {
        Seq::empty()
    } else {
        let before = events.drop_last();
        let earlier = lemma_failures_in_order(before, boundary);
        let last = events.len() - 1;
        assert(forall|i: int| 0 <= i < before.len() ==> before[i] == events[i]);
        if reported(events.last(), boundary) is Some {
            let places = earlier.push(last);
            assert forall|i: int|
                0 <= i < events.len() && reported(#[trigger] events[i], boundary) is Some
                    implies places.contains(i) by {
                if i < last {
                    let k = choose|k: int| 0 <= k < earlier.len() && earlier[k] == i;
                    assert(places[k] == i);
                } else {
                    assert(places[earlier.len() as int] == i);
                }
            }
            places
        } else {
            earlier
        }
    }
}

} // verus!
