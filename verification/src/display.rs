//! The render model: what the presentation layer writes for a change set,
//! a stack, a listing or a list of failures, as lines of text with their
//! indentation and colour. Writing the lines out is left to the caller.

use crate::color::{painted, TextColor};
use crate::diagnostics::{
    failed_resources, failures_after, report_views, FailureReport, FailureReportView,
};
use crate::model::{
    timestamp_text, Change, ChangeDetail, ChangeSetDescription, ChangeTarget, Parameter,
    ResourceChange, ResourceSummary, Stack, StackEvent, StackSummary, Timestamp,
};
use crate::text::{
    blanks, concat, concat3, debug_quoted, debug_text, join, joined, or_text, spaces, text_or,
};
use vstd::prelude::*;
use vstd::string::StringExecFns;

verus! {

/// One line of output: a text, how far it is indented and its colour.
#[derive(Clone, Debug, PartialEq, Eq)]
pub struct Line {
    pub indent: usize,
    pub color: TextColor,
    pub text: String,
}

/// The mathematical content of a [`Line`].
pub struct LineView {
    pub indent: nat,
    pub color: TextColor,
    pub text: Seq<char>,
}

impl View for Line {
    type V = LineView;

    open spec fn view(&self) -> LineView {
        LineView { indent: self.indent as nat, color: self.color, text: self.text@ }
    }
}

impl LineView {
    /// The line without colour: the indentation, one more blank, the text.
    pub open spec fn plain(self) -> Seq<char> {
        blanks(self.indent) + seq![' '] + self.text
    }
}

/// The line with this indentation, colour and text.
pub open spec fn line(indent: nat, color: TextColor, text: Seq<char>) -> LineView {
    LineView { indent, color, text }
}

/// The contents of a run of lines.
pub open spec fn views(lines: Seq<Line>) -> Seq<LineView> {
    lines.map_values(|l: Line| l@)
}

impl Line {
    /// The line without colour.
    pub fn plain(&self) -> (out: String)
        ensures
            out@ == self@.plain(),
    {
        let mut out = spaces(self.indent);
        proof {
            reveal_strlit(" ");
        }
        out.append(" ");
        out.append(self.text.as_str());
        out
    }

    /// The line as it goes to the terminal: the plain line in its colour.
    pub fn paint(&self) -> (out: String)
        ensures
            self.color == TextColor::Default ==> out@ == self@.plain(),
            self.color != TextColor::Default ==> painted(out@, self.color.code(), self@.plain()),
    {
        let plain = self.plain();
        self.color.colorize(plain.as_str())
    }
}

fn put_line(out: &mut Vec<Line>, entry: Line)
    ensures
        views(final(out)@) == views(old(out)@) + seq![entry@],
{
    out.push(entry);
}

fn put(out: &mut Vec<Line>, indent: usize, color: TextColor, text: String)
    ensures
        views(final(out)@) == views(old(out)@) + seq![line(indent as nat, color, text@)],
{
    put_line(out, Line { indent, color, text });
}

/// The line that tells the reason of a status; `quoted` is the reason
/// between quotes.
pub open spec fn reason_line(tint: TextColor, quoted: Seq<char>) -> LineView {
    line(1, tint, "reason: "@ + quoted)
}

/// A line in the default colour: `label`, then `text` as it is written.
pub open spec fn labelled_line(indent: nat, label: Seq<char>, text: Seq<char>) -> LineView {
    line(indent, TextColor::Default, label + text)
}

/// The head line of a resource: its physical id, then its type between
/// quotes and brackets.
pub open spec fn resource_head_line(physical_id: Seq<char>, quoted_type: Seq<char>) -> LineView {
    line(4, TextColor::Default, physical_id + " ("@ + quoted_type + ")"@)
}

/// What stands for a resource type that the service left out.
pub open spec fn unknown_resource_type() -> Seq<char> {
    "UNKNOW RESOURCE TYPE"@
}

/// What stands for a logical id that the service left out.
pub open spec fn unknown_logical_id() -> Seq<char> {
    "UNKNOW RESOURCE LOGICAL ID"@
}

/// The lines for the property a change detail is about.
pub open spec fn target_lines(target: ChangeTarget) -> Seq<LineView> {
    seq![
        line(
            6,
            TextColor::Default,
            text_or(target.attribute, Seq::empty()) + " "@ + text_or(target.name, Seq::empty()),
        ),
    ] + (match target.requires_recreation {
        Some(r) => seq![line(8, TextColor::of_requires_recreation(r), r.label())],
        None => Seq::empty(),
    })
}

/// The lines for one change detail: its target, then what caused it.
pub open spec fn detail_lines(detail: ChangeDetail) -> Seq<LineView> {
    (match detail.target {
        Some(t) => target_lines(t),
        None => Seq::empty(),
    }) + (match detail.causing_entity {
        Some(e) => seq![line(8, TextColor::Default, "Causing entity: "@ + e@)],
        None => Seq::empty(),
    }) + (match detail.change_source {
        Some(s) => seq![line(8, TextColor::Default, "Causing entity: "@ + s@)],
        None => Seq::empty(),
    })
}

/// The lines of all details, in their order.
pub open spec fn details_lines(details: Seq<ChangeDetail>) -> Seq<LineView>
    decreases details.len(),
{
    if details.len() == 0 {
        Seq::empty()
    } else {
        details_lines(details.drop_last()) + detail_lines(details.last())
    }
}

/// The lines for the change of one resource: a head line with the mark of
/// the action, the action itself, then whatever else the service told.
pub open spec fn resource_change_lines(rc: ResourceChange) -> Seq<LineView> {
    let tint = TextColor::of_change_action(rc.action);
    seq![
        line(
            2,
            tint,
            rc.action.mark() + " "@ + text_or(rc.logical_resource_id, unknown_logical_id())
                + " ("@ + text_or(rc.resource_type, unknown_resource_type()) + ")"@,
        ),
        line(4, tint, "Action: "@ + rc.action.label()),
    ] + (match rc.replacement {
        Some(r) => seq![line(4, TextColor::of_replacement(r), "Replacement: "@ + r.label())],
        None => Seq::empty(),
    }) + (match rc.physical_resource_id {
        Some(p) => seq![line(4, TextColor::Default, "Physical Resource: "@ + p@)],
        None => Seq::empty(),
    }) + (if rc.scope@.len() > 0 {
        seq![line(4, TextColor::Default, "Change Scope: "@ + joined(rc.scope@, ", "@))]
    } else {
        Seq::empty()
    }) + (if rc.details@.len() > 0 {
        seq![line(4, TextColor::Default, "Changed Properties"@)] + details_lines(rc.details@)
    } else {
        Seq::empty()
    })
}

/// The lines of all entries that are about a resource, in their order.
pub open spec fn changes_lines(changes: Seq<Change>) -> Seq<LineView>
    decreases changes.len(),
{
    if changes.len() == 0 {
        Seq::empty()
    } else {
        changes_lines(changes.drop_last()) + (match changes.last().resource_change {
            Some(rc) => resource_change_lines(rc),
            None => Seq::empty(),
        })
    }
}

/// The lines for a change set: its name, its status with the reason, and
/// the changes it proposes.
pub open spec fn change_set_lines(cs: ChangeSetDescription) -> Seq<LineView> {
    seq![
        line(
            0,
            TextColor::Default,
            "Change set: "@ + text_or(cs.change_set_name, "UNKOWN CHANGE SET"@),
        ),
    ] + (match cs.status {
        Some(s) => seq![
            line(0, TextColor::of_change_set_status(s), "Change set status: "@ + s.label()),
        ] + (match cs.status_reason {
            Some(r) => seq![reason_line(TextColor::of_change_set_status(s), debug_quoted(r@))],
            None => Seq::empty(),
        }),
        None => Seq::empty(),
    }) + changes_lines(cs.changes@)
}

/// The lines for one stack of a listing: its name, then its status.
pub open spec fn summary_lines(summary: StackSummary) -> Seq<LineView> {
    seq![
        line(0, TextColor::Default, "Stack name: "@ + text_or(summary.stack_name, Seq::empty())),
    ] + (match summary.stack_status {
        Some(s) => seq![line(1, TextColor::of_stack_status(s), "Status: "@ + s.label())],
        None => Seq::empty(),
    })
}

/// The lines of a listing of stacks, in its order.
pub open spec fn summaries_lines(summaries: Seq<StackSummary>) -> Seq<LineView>
    decreases summaries.len(),
{
    if summaries.len() == 0 {
        Seq::empty()
    } else {
        summaries_lines(summaries.drop_last()) + summary_lines(summaries.last())
    }
}

/// The line for one parameter: key, colon, value.
pub open spec fn parameter_line(parameter: Parameter) -> LineView {
    line(
        0,
        TextColor::Default,
        text_or(parameter.key, Seq::empty()) + ":"@ + text_or(parameter.value, Seq::empty()),
    )
}

/// One line for each parameter, in their order.
pub open spec fn parameters_lines(parameters: Seq<Parameter>) -> Seq<LineView> {
    parameters.map_values(|p: Parameter| parameter_line(p))
}

/// The line `label` followed by `text`, where there is a text.
pub open spec fn labelled(label: Seq<char>, text: Option<Seq<char>>) -> Seq<LineView> {
    match text {
        Some(t) => seq![labelled_line(0, label, t)],
        None => Seq::empty(),
    }
}

/// The text of an optional string.
pub open spec fn text_of(opt: Option<String>) -> Option<Seq<char>> {
    match opt {
        Some(s) => Some(s@),
        None => None,
    }
}

/// An optional time as it is written.
pub open spec fn time_of(opt: Option<Timestamp>) -> Option<Seq<char>> {
    match opt {
        Some(t) => Some(timestamp_text(t)),
        None => None,
    }
}

/// The lines for a stack: its name, where it comes from, its times, its
/// status with the reason, and its parameters.
pub open spec fn stack_lines(stack: Stack) -> Seq<LineView> {
    seq![line(0, TextColor::Default, "Stack name: "@ + text_or(stack.stack_name, Seq::empty()))]
        + labelled("Parent: "@, text_of(stack.parent_id)) + labelled(
        "Description: "@,
        text_of(stack.description),
    ) + labelled("Creation time: "@, time_of(stack.creation_time)) + labelled(
        "Last update time: "@,
        time_of(stack.last_updated_time),
    ) + (match stack.stack_status {
        Some(s) => seq![line(0, TextColor::of_stack_status(s), "Status: "@ + s.label())] + (
        match stack.stack_status_reason {
            Some(r) => seq![line(0, TextColor::of_stack_status(s), "Status reason: "@ + r@)],
            None => Seq::empty(),
        }),
        None => Seq::empty(),
    }) + (if stack.parameters@.len() > 0 {
        seq![line(0, TextColor::Default, "Parameters:"@)] + parameters_lines(stack.parameters@)
    } else {
        Seq::empty()
    })
}

/// The lines for one resource of a stack. The head line and the physical
/// id are written only of a resource that has a physical id.
pub open spec fn resource_lines(resource: ResourceSummary) -> Seq<LineView> {
    (match resource.physical_resource_id {
        Some(p) => seq![
            resource_head_line(p@, debug_quoted(text_or(resource.resource_type, Seq::empty()))),
            line(6, TextColor::Default, "Physical ID: "@ + p@),
        ],
        None => Seq::empty(),
    }) + (match resource.last_updated_timestamp {
        Some(t) => seq![labelled_line(6, "Last updated timestamp: "@, timestamp_text(t))],
        None => Seq::empty(),
    }) + (match resource.resource_status {
        Some(s) => seq![line(6, TextColor::of_resource_status(s), "Status: "@ + s.label())],
        None => Seq::empty(),
    })
}

/// The lines of the resources of a stack, under their heading.
pub open spec fn resources_lines(resources: Seq<ResourceSummary>) -> Seq<LineView>
    decreases resources.len(),
{
    if resources.len() == 0 {
        seq![line(0, TextColor::Default, "Stack resources:"@)]
    } else {
        resources_lines(resources.drop_last()) + resource_lines(resources.last())
    }
}

/// The three red lines for one failure.
pub open spec fn failure_lines(report: FailureReportView) -> Seq<LineView> {
    seq![
        line(0, TextColor::Red, report.resource_type + ": "@ + report.logical_id),
        line(0, TextColor::Red, "reason: "@ + report.reason),
        line(0, TextColor::Red, "properties: "@ + report.properties),
    ]
}

/// The lines of all failures, in their order.
pub open spec fn failures_lines(reports: Seq<FailureReportView>) -> Seq<LineView>
    decreases reports.len(),
{
    if reports.len() == 0 {
        Seq::empty()
    } else {
        failures_lines(reports.drop_last()) + failure_lines(reports.last())
    }
}

/// The presentation layer's renderer.
#[derive(Clone, Copy, Debug, PartialEq, Eq)]
pub struct Display {}

impl Display {
    /// A renderer.
    pub fn new() -> (display: Self) {
        Self {  }
    }

    /// The line that tells the reason of a status, given the reason
    /// between quotes.
    pub fn reason_line(tint: TextColor, quoted: &str) -> (entry: Line)
        ensures
            entry@ == reason_line(tint, quoted@),
    {
        Line { indent: 1, color: tint, text: concat("reason: ", quoted) }
    }

    /// A line in the default colour that tells `text` under `label`; a
    /// time is given as it is written.
    pub fn labelled_line(indent: usize, label: &str, text: &str) -> (entry: Line)
        ensures
            entry@ == labelled_line(indent as nat, label@, text@),
    {
        Line { indent, color: TextColor::Default, text: concat(label, text) }
    }

    /// The head line of a resource, given its type between quotes.
    pub fn resource_head_line(physical_id: &str, quoted_type: &str) -> (entry: Line)
        ensures
            entry@ == resource_head_line(physical_id@, quoted_type@),
    {
        let mut text = concat3(physical_id, " (", quoted_type);
        text.append(")");
        Line { indent: 4, color: TextColor::Default, text }
    }

    fn put_target(out: &mut Vec<Line>, target: &ChangeTarget)
        ensures
            views(final(out)@) == views(old(out)@) + target_lines(*target),
    {
        let text = concat3(or_text(&target.attribute, ""), " ", or_text(&target.name, ""));
        proof {
            reveal_strlit("");
        }
        put(out, 6, TextColor::Default, text);
        match &target.requires_recreation {
            Some(r) => {
                put(out, 8, TextColor::from_requires_recreation(r), r.name().to_owned());
            },
            None => {},
        }
    }

    fn put_detail(out: &mut Vec<Line>, detail: &ChangeDetail)
        ensures
            views(final(out)@) == views(old(out)@) + detail_lines(*detail),
    {
        match &detail.target {
            Some(t) => {
                Self::put_target(out, t);
            },
            None => {},
        }
        match &detail.causing_entity {
            Some(e) => {
                put(out, 8, TextColor::Default, concat("Causing entity: ", e.as_str()));
            },
            None => {},
        }
        match &detail.change_source {
            Some(s) => {
                put(out, 8, TextColor::Default, concat("Causing entity: ", s.as_str()));
            },
            None => {},
        }
    }

    fn put_resource_change(out: &mut Vec<Line>, rc: &ResourceChange)
        ensures
            views(final(out)@) == views(old(out)@) + resource_change_lines(*rc),
    {
        let tint = TextColor::from_change_action(&rc.action);
        let mut head = concat3(
            rc.action.symbol(),
            " ",
            or_text(&rc.logical_resource_id, "UNKNOW RESOURCE LOGICAL ID"),
        );
        head.append(" (");
        head.append(or_text(&rc.resource_type, "UNKNOW RESOURCE TYPE"));
        head.append(")");
        put(out, 2, tint, head);
        put(out, 4, tint, concat("Action: ", rc.action.name()));
        match &rc.replacement {
            Some(r) => {
                put(out, 4, TextColor::from_replacement(r), concat("Replacement: ", r.name()));
            },
            None => {},
        }
        match &rc.physical_resource_id {
            Some(p) => {
                put(out, 4, TextColor::Default, concat("Physical Resource: ", p.as_str()));
            },
            None => {},
        }
        if rc.scope.len() > 0 {
            let scope = join(&rc.scope, ", ");
            put(out, 4, TextColor::Default, concat("Change Scope: ", scope.as_str()));
        }
        if rc.details.len() > 0 {
            put(out, 4, TextColor::Default, "Changed Properties".to_owned());
            let ghost base = views(out@);
            let mut i: usize = 0;
            while i < rc.details.len()
                invariant
                    i <= rc.details.len(),
                    views(out@) == base + details_lines(rc.details@.take(i as int)),
                decreases rc.details.len() - i,
            {
                Self::put_detail(out, &rc.details[i]);
                proof {
                    assert(rc.details@.take(i + 1).drop_last() =~= rc.details@.take(i as int));
                }
                i = i + 1;
            }
            proof {
                assert(rc.details@.take(rc.details.len() as int) =~= rc.details@);
            }
        }
    }

    /// The lines that show a change set.
    pub fn render_change_set(&self, change_set: &ChangeSetDescription) -> (lines: Vec<Line>)
        ensures
            views(lines@) == change_set_lines(*change_set),
    {
        let mut out: Vec<Line> = Vec::new();
        put(
            &mut out,
            0,
            TextColor::Default,
            concat("Change set: ", or_text(&change_set.change_set_name, "UNKOWN CHANGE SET")),
        );
        match &change_set.status {
            Some(s) => {
                let tint = TextColor::from_change_set_status(s);
                put(&mut out, 0, tint, concat("Change set status: ", s.name()));
                match &change_set.status_reason {
                    Some(r) => {
                        let quoted = debug_text(r.as_str());
                        put_line(&mut out, Self::reason_line(tint, quoted.as_str()));
                    },
                    None => {},
                }
            },
            None => {},
        }
        let ghost base = views(out@);
        let mut i: usize = 0;
        while i < change_set.changes.len()
            invariant
                i <= change_set.changes.len(),
                views(out@) == base + changes_lines(change_set.changes@.take(i as int)),
            decreases change_set.changes.len() - i,
        {
            match &change_set.changes[i].resource_change {
                Some(rc) => {
                    Self::put_resource_change(&mut out, rc);
                },
                None => {},
            }
            proof {
                assert(change_set.changes@.take(i + 1).drop_last() =~= change_set.changes@.take(
                    i as int,
                ));
            }
            i = i + 1;
        }
        proof {
            assert(change_set.changes@.take(change_set.changes.len() as int)
                =~= change_set.changes@);
        }
        out
    }

    fn put_labelled(out: &mut Vec<Line>, label: &str, text: &Option<String>)
        ensures
            views(final(out)@) == views(old(out)@) + labelled(label@, text_of(*text)),
    {
        match text {
            Some(t) => {
                put_line(out, Self::labelled_line(0, label, t.as_str()));
            },
            None => {
            },
        }
    }

    fn put_time(out: &mut Vec<Line>, label: &str, at: &Option<Timestamp>)
        ensures
            views(final(out)@) == views(old(out)@) + labelled(label@, time_of(*at)),
    {
        match at {
            Some(t) => {
                let written = t.text();
                put_line(out, Self::labelled_line(0, label, written.as_str()));
            },
            None => {
            },
        }
    }

    /// The lines that show a listing of stacks.
    pub fn render_stack_summaries(&self, stacks: &Vec<StackSummary>) -> (lines: Vec<Line>)
        ensures
            views(lines@) == summaries_lines(stacks@),
    {
        let mut out: Vec<Line> = Vec::new();
        let mut i: usize = 0;
        while i < stacks.len()
            invariant
                i <= stacks.len(),
                views(out@) == summaries_lines(stacks@.take(i as int)),
            decreases stacks.len() - i,
        {
            let stack = &stacks[i];
            proof {
                reveal_strlit("");
            }
            put(
                &mut out,
                0,
                TextColor::Default,
                concat("Stack name: ", or_text(&stack.stack_name, "")),
            );
            match &stack.stack_status {
                Some(s) => {
                    put(&mut out, 1, TextColor::from_stack_status(s), concat("Status: ", s.name()));
                },
                None => {},
            }
            proof {
                assert(stacks@.take(i + 1).drop_last() =~= stacks@.take(i as int));
            }
            i = i + 1;
        }
        proof {
            assert(stacks@.take(stacks.len() as int) =~= stacks@);
        }
        out
    }

    /// The lines that show a stack.
    pub fn render_stack(&self, stack: &Stack) -> (lines: Vec<Line>)
        ensures
            views(lines@) == stack_lines(*stack),
    {
        let mut out: Vec<Line> = Vec::new();
        proof {
            reveal_strlit("");
        }
        put(
            &mut out,
            0,
            TextColor::Default,
            concat("Stack name: ", or_text(&stack.stack_name, "")),
        );
        Self::put_labelled(&mut out, "Parent: ", &stack.parent_id);
        Self::put_labelled(&mut out, "Description: ", &stack.description);
        Self::put_time(&mut out, "Creation time: ", &stack.creation_time);
        Self::put_time(&mut out, "Last update time: ", &stack.last_updated_time);
        match &stack.stack_status {
            Some(s) => {
                let tint = TextColor::from_stack_status(s);
                put(&mut out, 0, tint, concat("Status: ", s.name()));
                match &stack.stack_status_reason {
                    Some(r) => {
                        put(&mut out, 0, tint, concat("Status reason: ", r.as_str()));
                    },
                    None => {},
                }
            },
            None => {},
        }
        if stack.parameters.len() > 0 {
            put(&mut out, 0, TextColor::Default, "Parameters:".to_owned());
            let ghost base = views(out@);
            let mut i: usize = 0;
            while i < stack.parameters.len()
                invariant
                    i <= stack.parameters.len(),
                    views(out@) == base + parameters_lines(stack.parameters@.take(i as int)),
                decreases stack.parameters.len() - i,
            {
                let parameter = &stack.parameters[i];
                proof {
                    reveal_strlit("");
                }
                put(
                    &mut out,
                    0,
                    TextColor::Default,
                    concat3(or_text(&parameter.key, ""), ":", or_text(&parameter.value, "")),
                );
                proof {
                    assert(parameters_lines(stack.parameters@.take(i + 1)) =~= parameters_lines(
                        stack.parameters@.take(i as int),
                    ) + seq![parameter_line(*parameter)]);
                }
                i = i + 1;
            }
            proof {
                assert(stack.parameters@.take(stack.parameters.len() as int)
                    =~= stack.parameters@);
            }
        }
        out
    }

    /// The lines that show the resources of a stack.
    pub fn render_stack_resources(&self, resources: &Vec<ResourceSummary>) -> (lines: Vec<Line>)
        ensures
            views(lines@) == resources_lines(resources@),
    {
        let mut out: Vec<Line> = Vec::new();
        put(&mut out, 0, TextColor::Default, "Stack resources:".to_owned());
        let mut i: usize = 0;
        while i < resources.len()
            invariant
                i <= resources.len(),
                views(out@) == resources_lines(resources@.take(i as int)),
            decreases resources.len() - i,
        {
            let resource = &resources[i];
            match &resource.physical_resource_id {
                Some(p) => {
                    proof {
                        reveal_strlit("");
                        assert(""@ =~= Seq::<char>::empty());
                    }
                    let kind = debug_text(or_text(&resource.resource_type, ""));
                    put_line(&mut out, Self::resource_head_line(p.as_str(), kind.as_str()));
                    put(&mut out, 6, TextColor::Default, concat("Physical ID: ", p.as_str()));
                },
                None => {},
            }
            match &resource.last_updated_timestamp {
                Some(t) => {
                    let written = t.text();
                    put_line(
                        &mut out,
                        Self::labelled_line(6, "Last updated timestamp: ", written.as_str()),
                    );
                },
                None => {},
            }
            match &resource.resource_status {
                Some(s) => {
                    put(
                        &mut out,
                        6,
                        TextColor::from_resource_status(s),
                        concat("Status: ", s.name()),
                    );
                },
                None => {},
            }
            proof {
                assert(resources@.take(i + 1).drop_last() =~= resources@.take(i as int));
            }
            i = i + 1;
        }
        proof {
            assert(resources@.take(resources.len() as int) =~= resources@);
        }
        out
    }

    /// The lines that show the given failures.
    pub fn render_failures(&self, reports: &Vec<FailureReport>) -> (lines: Vec<Line>)
        ensures
            views(lines@) == failures_lines(report_views(reports@)),
    {
        let mut out: Vec<Line> = Vec::new();
        let mut i: usize = 0;
        while i < reports.len()
            invariant
                i <= reports.len(),
                views(out@) == failures_lines(report_views(reports@.take(i as int))),
            decreases reports.len() - i,
        {
            let report = &reports[i];
            put(
                &mut out,
                0,
                TextColor::Red,
                concat3(report.resource_type.as_str(), ": ", report.logical_id.as_str()),
            );
            put(&mut out, 0, TextColor::Red, concat("reason: ", report.reason.as_str()));
            put(&mut out, 0, TextColor::Red, concat("properties: ", report.properties.as_str()));
            proof {
                let next = report_views(reports@.take(i + 1));
                assert(next.drop_last() =~= report_views(reports@.take(i as int)));
            }
            i = i + 1;
        }
        proof {
            assert(reports@.take(reports.len() as int) =~= reports@);
        }
        out
    }

    /// The lines that show what went wrong since `boundary`: of the events,
    /// the failures of single resources that happened after it, newest
    /// first where the events come newest first.
    pub fn render_resources_errors(&self, events: &Vec<StackEvent>, boundary: &Timestamp) -> (lines:
        Vec<Line>)
        ensures
            views(lines@) == failures_lines(failures_after(events@, boundary@)),
    {
        let reports = failed_resources(events, boundary);
        self.render_failures(&reports)
    }
}

} // verus!
