//! Commands: what the agent can run by name.

use vstd::prelude::*;
use crate::args::ArgumentMap;
use crate::data::PluginStore;
use crate::error::PluginError;
use crate::host::{HostReply, Step};

verus! {

/// The state that is handed to every command and every lifecycle hook. It
/// owns the table of capabilities, through which plugins reach one another.
pub struct CommandContext {
    pub plugin_data: PluginStore,
}

/// Whether `r` is a missing-argument failure.
pub open spec fn is_missing<T>(r: Result<T, PluginError>) -> bool {
    r matches Err(e) && e@ is MissingArgument
}

/// The work behind a command. `invoke` either comes to the command's output
/// or asks the host for something; `resume` takes the host's answer and
/// comes to the output.
pub trait CommandImpl {
    /// Whether the command cannot run without the parameter `parameter`.
    spec fn needs(&self, parameter: &str) -> bool;

    /// Whether the command, run on `args` in the context `before`, may come
    /// to `r` and leave the context as `after`. A command that says nothing
    /// of what it comes to leaves every outcome open.
    open spec fn invokes(
        &self,
        before: &CommandContext,
        after: &CommandContext,
        args: &ArgumentMap,
        r: Result<Step<String>, PluginError>,
    ) -> bool {
        true
    }

    /// Whether the command, finished with the host's answer `reply` in the
    /// context `before`, may come to `r` and leave the context as `after`.
    open spec fn resumes(
        &self,
        before: &CommandContext,
        after: &CommandContext,
        args: &ArgumentMap,
        reply: HostReply,
        r: Result<String, PluginError>,
    ) -> bool {
        true
    }

    /// Runs the command on `args`. Without a parameter that it needs, it
    /// fails with a missing-argument failure.
    fn invoke(&self, ctx: &mut CommandContext, args: &ArgumentMap) -> (r: Result<
        Step<String>,
        PluginError,
    >)
        ensures
            forall|p: &str| #[trigger] self.needs(p) && !args@.contains_key(p@) ==> is_missing(r),
            self.invokes(old(ctx), final(ctx), args, r),
    ;

    /// Finishes the command with the host's answer to what `invoke` asked.
    fn resume(&self, ctx: &mut CommandContext, args: &ArgumentMap, reply: HostReply) -> (r:
        Result<String, PluginError>)
        ensures
            forall|p: &str| #[trigger] self.needs(p) && !args@.contains_key(p@) ==> is_missing(r),
            self.resumes(old(ctx), final(ctx), args, reply, r),
    ;
}

/// Whether the work `run` needs what `model` needs and comes to what
/// `model` comes to.
pub open spec fn works_as<R: CommandImpl>(run: &Box<dyn CommandImpl>, model: R) -> bool {
    &&& forall|p: &str| #[trigger] run.needs(p) == model.needs(p)
    &&& forall|
        before: &CommandContext,
        after: &CommandContext,
        args: &ArgumentMap,
        r: Result<Step<String>, PluginError>,
    | #[trigger] run.invokes(before, after, args, r) == model.invokes(before, after, args, r)
    &&& forall|
        before: &CommandContext,
        after: &CommandContext,
        args: &ArgumentMap,
        reply: HostReply,
        r: Result<String, PluginError>,
    | #[trigger]
        run.resumes(before, after, args, reply, r) == model.resumes(before, after, args, reply, r)
}

/// A command as a plugin registers it: its name, what it is for, its
/// parameters, each with a description, and the work behind it.
pub struct Command {
    pub name: String,
    pub purpose: String,
    pub args: Vec<(String, String)>,
    pub run: Box<dyn CommandImpl>,
}

} // verus!
