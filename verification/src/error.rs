//! The failures that commands, capabilities and the registry report.

use vstd::prelude::*;
use crate::text::appended;

verus! {

/// A failure of a command, a capability call or a lifecycle hook.
#[derive(Debug, Clone, PartialEq, Eq)]
pub enum PluginError {
    /// A command was run without a parameter that it needs.
    MissingArgument { family: String, parameter: String },
    /// No capability is kept under this plugin name.
    PluginNotRegistered { plugin: String },
    /// The capability of `plugin` has no operation of this name.
    OperationNotSupported { plugin: String, operation: String },
    /// A capability answered with a value of another shape than the caller expects.
    DecodeMismatch,
    /// The host could not do what a command asked of it.
    Io { detail: String },
    /// No registered plugin has a command of this name.
    CommandNotFound { command: String },
}

/// A `PluginError` with its texts as sequences of characters.
pub enum ErrorView {
    MissingArgument { family: Seq<char>, parameter: Seq<char> },
    PluginNotRegistered { plugin: Seq<char> },
    OperationNotSupported { plugin: Seq<char>, operation: Seq<char> },
    DecodeMismatch,
    Io { detail: Seq<char> },
    CommandNotFound { command: Seq<char> },
}

impl View for PluginError {
    type V = ErrorView;

    open spec fn view(&self) -> ErrorView {
        match *self {
            PluginError::MissingArgument { family, parameter } => ErrorView::MissingArgument {
                family: family@,
                parameter: parameter@,
            },
            PluginError::PluginNotRegistered { plugin } => ErrorView::PluginNotRegistered {
                plugin: plugin@,
            },
            PluginError::OperationNotSupported { plugin, operation } => {
                ErrorView::OperationNotSupported { plugin: plugin@, operation: operation@ }
            },
            PluginError::DecodeMismatch => ErrorView::DecodeMismatch,
            PluginError::Io { detail } => ErrorView::Io { detail: detail@ },
            PluginError::CommandNotFound { command } => ErrorView::CommandNotFound {
                command: command@,
            },
        }
    }
}

/// Whether `r` is the failure `e`.
pub open spec fn fails_with<T>(r: Result<T, PluginError>, e: ErrorView) -> bool {
    r matches Err(x) && x@ == e
}

/// What a missing-argument failure of the command family `family` reads as.
pub open spec fn missing_info_text(family: Seq<char>) -> Seq<char> {
    "one of the '"@ + family + "' commands did not receive enough info."@
}

/// The readable text of a failure.
pub open spec fn error_text(e: ErrorView) -> Seq<char> {
    match e {
        ErrorView::MissingArgument { family, parameter } => missing_info_text(family),
        ErrorView::PluginNotRegistered { plugin } => "the '"@ + plugin
            + "' plugin has no registered data."@,
        ErrorView::OperationNotSupported { plugin, operation } => "the '"@ + plugin
            + "' plugin's data does not have '"@ + operation + "' invocation."@,
        ErrorView::DecodeMismatch => "the plugin's reply does not have the expected shape."@,
        ErrorView::Io { detail } => detail,
        ErrorView::CommandNotFound { command } => "there is no command named '"@ + command
            + "'."@,
    }
}

/// The missing-argument failure of the family `family` for `parameter`.
pub fn missing_argument(family: &str, parameter: &str) -> (e: PluginError)
    ensures
        e@ == (ErrorView::MissingArgument { family: family@, parameter: parameter@ }),
{
    PluginError::MissingArgument { family: family.to_string(), parameter: parameter.to_string() }
}

/// The failure of a lookup for the capability of `plugin`.
pub fn not_registered(plugin: &str) -> (e: PluginError)
    ensures
        e@ == (ErrorView::PluginNotRegistered { plugin: plugin@ }),
{
    PluginError::PluginNotRegistered { plugin: plugin.to_string() }
}

/// The failure of `plugin`'s capability on an operation that it does not have.
pub fn not_supported(plugin: &str, operation: &str) -> (e: PluginError)
    ensures
        e@ == (ErrorView::OperationNotSupported { plugin: plugin@, operation: operation@ }),
{
    PluginError::OperationNotSupported {
        plugin: plugin.to_string(),
        operation: operation.to_string(),
    }
}

/// The failure that carries what the host reported.
pub fn io_failure(detail: &str) -> (e: PluginError)
    ensures
        e@ == (ErrorView::Io { detail: detail@ }),
{
    PluginError::Io { detail: detail.to_string() }
}

/// What is reported where the host answers with a reply of another kind than
/// the request asked for.
pub open spec fn unexpected_reply_text() -> Seq<char> {
    "the host gave a reply of another kind than was asked for."@
}

/// The failure for a reply of the wrong kind.
pub fn unexpected_reply() -> (e: PluginError)
    ensures
        e@ == (ErrorView::Io { detail: unexpected_reply_text() }),
{
    io_failure("the host gave a reply of another kind than was asked for.")
}

impl PluginError {
    /// The failure as text for the agent to read.
    pub fn message(&self) -> (r: String)
        ensures
            r@ == error_text(self@),
    {
        match self {
            PluginError::MissingArgument { family, parameter } => {
                let head = appended("one of the '", family.as_str());
                appended(head.as_str(), "' commands did not receive enough info.")
            },
            PluginError::PluginNotRegistered { plugin } => {
                let head = appended("the '", plugin.as_str());
                appended(head.as_str(), "' plugin has no registered data.")
            },
            PluginError::OperationNotSupported { plugin, operation } => {
                let a = appended("the '", plugin.as_str());
                let b = appended(a.as_str(), "' plugin's data does not have '");
                let c = appended(b.as_str(), operation.as_str());
                appended(c.as_str(), "' invocation.")
            },
            PluginError::DecodeMismatch => {
                "the plugin's reply does not have the expected shape.".to_string()
            },
            PluginError::Io { detail } => detail.clone(),
            PluginError::CommandNotFound { command } => {
                let head = appended("there is no command named '", command.as_str());
                appended(head.as_str(), "'.")
            },
        }
    }
}

/// Why a list of plugins cannot be assembled into a registry.
#[derive(Debug, Clone, PartialEq, Eq)]
pub enum AssemblyError {
    /// Two plugins of the list have this name.
    DuplicatePlugin { plugin: String },
    /// `plugin` depends on a name that no other plugin of the list has.
    UnresolvedDependency { plugin: String, dependency: String },
    /// Two commands of the list have this name.
    DuplicateCommand { command: String },
}

impl AssemblyError {
    /// The fault as text.
    pub fn message(&self) -> (r: String)
        ensures
            r@ == assembly_error_text(self@),
    {
        match self {
            AssemblyError::DuplicatePlugin { plugin } => {
                let head = appended("two plugins are named '", plugin.as_str());
                appended(head.as_str(), "'.")
            },
            AssemblyError::UnresolvedDependency { plugin, dependency } => {
                let a = appended("the '", plugin.as_str());
                let b = appended(a.as_str(), "' plugin depends on '");
                let c = appended(b.as_str(), dependency.as_str());
                appended(c.as_str(), "', which no other plugin is named.")
            },
            AssemblyError::DuplicateCommand { command } => {
                let head = appended("two commands are named '", command.as_str());
                appended(head.as_str(), "'.")
            },
        }
    }
}

/// The readable text of a fault of a list of plugins.
pub open spec fn assembly_error_text(e: AssemblyErrorView) -> Seq<char> {
    match e {
        AssemblyErrorView::DuplicatePlugin { plugin } => "two plugins are named '"@ + plugin
            + "'."@,
        AssemblyErrorView::UnresolvedDependency { plugin, dependency } => "the '"@ + plugin
            + "' plugin depends on '"@ + dependency + "', which no other plugin is named."@,
        AssemblyErrorView::DuplicateCommand { command } => "two commands are named '"@ + command
            + "'."@,
    }
}

/// An `AssemblyError` with its texts as sequences of characters.
pub enum AssemblyErrorView {
    DuplicatePlugin { plugin: Seq<char> },
    UnresolvedDependency { plugin: Seq<char>, dependency: Seq<char> },
    DuplicateCommand { command: Seq<char> },
}

impl View for AssemblyError {
    type V = AssemblyErrorView;

    open spec fn view(&self) -> AssemblyErrorView {
        match *self {
            AssemblyError::DuplicatePlugin { plugin } => AssemblyErrorView::DuplicatePlugin {
                plugin: plugin@,
            },
            AssemblyError::UnresolvedDependency { plugin, dependency } => {
                AssemblyErrorView::UnresolvedDependency {
                    plugin: plugin@,
                    dependency: dependency@,
                }
            },
            AssemblyError::DuplicateCommand { command } => AssemblyErrorView::DuplicateCommand {
                command: command@,
            },
        }
    }
}

} // verus!
