//! Invocation: from a command name to the value its script returns.

use crate::plugin::capability::HostEffect;
use crate::plugin::error::{outcome_view, ErrorView, PluginError};
use crate::plugin::sandbox::evaluate;
use crate::text::join;
use vstd::prelude::*;

verus! {

/// The name of the script file behind `command`: the command followed by
/// `.js`, looked for in the plugins directory.
pub open spec fn script_name(command: Seq<char>) -> Seq<char> {
    command + ".js"@
}

/// The name of the script file behind `command`.
pub fn script_file_name(command: &str) -> (file_name: String)
    ensures
        file_name@ == script_name(command@),
{
    join(command, ".js")
}

/// What the host found where the script file should be.
#[derive(Debug)]
pub enum ScriptLookup {
    /// No such file.
    Missing,
    /// The file exists but could not be read; carries the reason.
    Unreadable(String),
    /// The file's text.
    Source(String),
}

/// The next step of an invocation once the script has been looked up.
#[derive(Debug)]
pub enum Step {
    /// The invocation is over without any interpreter having been made.
    Fail(PluginError),
    /// Evaluate this source, once.
    Evaluate(String),
}

/// The mathematical content of a [`Step`].
pub enum StepView {
    Fail(ErrorView),
    Evaluate(Seq<char>),
}

impl View for Step {
    type V = StepView;

    open spec fn view(&self) -> StepView {
        match self {
            Step::Fail(error) => StepView::Fail(error@),
            Step::Evaluate(source) => StepView::Evaluate(source@),
        }
    }
}

/// The step that follows a lookup: only a script that was found and read is
/// evaluated.
pub open spec fn resolution(command: Seq<char>, lookup: ScriptLookup) -> StepView {
    match lookup {
        ScriptLookup::Missing => StepView::Fail(ErrorView::ScriptNotFound(command)),
        ScriptLookup::Unreadable(reason) => StepView::Fail(ErrorView::ScriptRead(reason@)),
        ScriptLookup::Source(source) => StepView::Evaluate(source@),
    }
}

/// Decides the step that follows the lookup of `command`'s script.
pub fn resolve(command: &str, lookup: ScriptLookup) -> (step: Step)
    ensures
        step@ == resolution(command@, lookup),
{
    match lookup {
        ScriptLookup::Missing => Step::Fail(PluginError::ScriptNotFound(command.to_string())),
        ScriptLookup::Unreadable(reason) => Step::Fail(PluginError::ScriptRead(reason)),
        ScriptLookup::Source(source) => Step::Evaluate(source),
    }
}

/// Runs the plugin behind `command`, given what the host found where its
/// script should be. A script that was found is evaluated exactly once, in
/// an interpreter of its own; its capability calls reach `host`.
pub fn run_plugin_command<H: Fn(HostEffect) + 'static>(
    command: &str,
    lookup: ScriptLookup,
    host: H,
) -> (outcome: Result<String, PluginError>)
    requires
        forall|effect: HostEffect| host.requires((effect,)),
    ensures
        resolution(command@, lookup) matches StepView::Fail(error) ==> outcome_view(outcome)
            == Err::<Seq<char>, _>(error),
        resolution(command@, lookup) is Evaluate ==> (outcome matches Err(error) ==> error is Engine
            || error is Binding || error is Eval),
{
    match resolve(command, lookup) {
        Step::Fail(error) => Err(error),
        Step::Evaluate(source) => evaluate(source.as_str(), host),
    }
}

/// A command without a script file fails with `ScriptNotFound` naming the
/// command, and its invocation never reaches the evaluation step.
pub proof fn missing_script_is_never_evaluated(command: Seq<char>)
    ensures
        resolution(command, ScriptLookup::Missing) == StepView::Fail(
            ErrorView::ScriptNotFound(command),
        ),
        !(resolution(command, ScriptLookup::Missing) is Evaluate),
{
}

/// The step after a lookup is an evaluation exactly when the script's text
/// was read, and then it is that text that is evaluated.
pub proof fn only_a_read_script_is_evaluated(command: Seq<char>, lookup: ScriptLookup)
    ensures
        resolution(command, lookup) is Evaluate <==> lookup is Source,
        lookup matches ScriptLookup::Source(source) ==> resolution(command, lookup)
            == StepView::Evaluate(source@),
{
}

} // verus!
