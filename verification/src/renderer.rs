//! The template renderer: how the external program is called, and what
//! its result means to a command.

use crate::protocol::{Event, Failure};
use vstd::prelude::*;

verus! {

/// The program that renders templates.
pub const RENDERER: &'static str = "pkl";

/// The arguments of a rendering, as texts: the template is evaluated
/// within the project at `project_dir`, and the result is asked for as
/// JSON.
pub open spec fn eval_argument_texts(template: Seq<char>, project_dir: Seq<char>) -> Seq<
    Seq<char>,
> {
    seq!["eval"@, template, "--project-dir"@, project_dir, "--format"@, "json"@]
}

/// The texts of a run of arguments.
pub open spec fn texts(arguments: Seq<String>) -> Seq<Seq<char>> {
    arguments.map_values(|a: String| a@)
}

/// The arguments with which the renderer is called for the template at
/// `template`, which lies in the directory `project_dir`.
pub fn eval_arguments(template: &str, project_dir: &str) -> (arguments: Vec<String>)
    ensures
        texts(arguments@) == eval_argument_texts(template@, project_dir@),
{
    let mut arguments: Vec<String> = Vec::new();
    arguments.push("eval".to_owned());
    arguments.push(template.to_owned());
    arguments.push("--project-dir".to_owned());
    arguments.push(project_dir.to_owned());
    arguments.push("--format".to_owned());
    arguments.push("json".to_owned());
    arguments
}

/// What a finished rendering means: its output is the template where the
/// renderer succeeded; where it did not, what it wrote to its error
/// stream is the failure, word for word.
pub open spec fn rendering(succeeded: bool, output: String, errors: String) -> Event {
    if succeeded {
        Event::Template(output)
    } else {
        Event::Failed(Failure::Template(errors))
    }
}

/// What a finished rendering means to the command that asked for it.
pub fn eval_result(succeeded: bool, output: String, errors: String) -> (event: Event)
    ensures
        event == rendering(succeeded, output, errors),
{
    if succeeded {
        Event::Template(output)
    } else {
        Event::Failed(Failure::Template(errors))
    }
}

} // verus!
