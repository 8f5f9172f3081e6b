//! The failures a caller of the plugin host can be told about.

use crate::text::join;
use vstd::prelude::*;

verus! {

/// Why a listing or an invocation did not produce a result.
#[derive(Debug)]
pub enum PluginError {
    /// The plugins directory could not be created or read, or one of its
    /// manifest files could not be read.
    Directory(String),
    /// A manifest file was read but does not hold a manifest.
    ManifestParse { path: String, detail: String },
    /// No script file exists for the command.
    ScriptNotFound(String),
    /// The script file exists but could not be read.
    ScriptRead(String),
    /// No interpreter could be created.
    Engine(String),
    /// A capability could not be installed into the interpreter.
    Binding(String),
    /// The script did not parse, or threw.
    Eval(String),
}

/// The mathematical content of a [`PluginError`].
pub enum ErrorView {
    Directory(Seq<char>),
    ManifestParse { path: Seq<char>, detail: Seq<char> },
    ScriptNotFound(Seq<char>),
    ScriptRead(Seq<char>),
    Engine(Seq<char>),
    Binding(Seq<char>),
    Eval(Seq<char>),
}

impl View for PluginError {
    type V = ErrorView;

    open spec fn view(&self) -> ErrorView {
        match self {
            PluginError::Directory(detail) => ErrorView::Directory(detail@),
            PluginError::ManifestParse { path, detail } => ErrorView::ManifestParse {
                path: path@,
                detail: detail@,
            },
            PluginError::ScriptNotFound(command) => ErrorView::ScriptNotFound(command@),
            PluginError::ScriptRead(detail) => ErrorView::ScriptRead(detail@),
            PluginError::Engine(detail) => ErrorView::Engine(detail@),
            PluginError::Binding(detail) => ErrorView::Binding(detail@),
            PluginError::Eval(detail) => ErrorView::Eval(detail@),
        }
    }
}

/// The line shown to the caller for `error`.
pub open spec fn message_text(error: ErrorView) -> Seq<char> {
    match error {
        ErrorView::Directory(detail) => detail,
        ErrorView::ManifestParse { path, detail } => path + ": "@ + detail,
        ErrorView::ScriptNotFound(command) => "Plugin script not found: "@ + command,
        ErrorView::ScriptRead(detail) => "Failed to read plugin script: "@ + detail,
        ErrorView::Engine(detail) => detail,
        ErrorView::Binding(detail) => "Failed to install capability: "@ + detail,
        ErrorView::Eval(detail) => "Plugin execution failed: "@ + detail,
    }
}

impl PluginError {
    /// The line shown to the caller for this error.
    pub fn message(&self) -> (line: String)
        ensures
            line@ == message_text(self@),
    {
        match self {
            PluginError::Directory(detail) => detail.clone(),
            PluginError::ManifestParse { path, detail } => {
                let mut line = join(path.as_str(), ": ");
                line.append(detail.as_str());
                line
            },
            PluginError::ScriptNotFound(command) => join(
                "Plugin script not found: ",
                command.as_str(),
            ),
            PluginError::ScriptRead(detail) => join(
                "Failed to read plugin script: ",
                detail.as_str(),
            ),
            PluginError::Engine(detail) => detail.clone(),
            PluginError::Binding(detail) => join("Failed to install capability: ", detail.as_str()),
            PluginError::Eval(detail) => join("Plugin execution failed: ", detail.as_str()),
        }
    }
}

/// The mathematical content of the result of a listing or an invocation.
pub open spec fn outcome_view(outcome: Result<String, PluginError>) -> Result<
    Seq<char>,
    ErrorView,
> {
    match outcome {
        Ok(text) => Ok(text@),
        Err(error) => Err(error@),
    }
}

} // verus!
