//! The plugin as it is registered.

use vstd::prelude::*;
use crate::command::Command;
use crate::cycle::PluginCycle;
use crate::text::views;

verus! {

/// A named bundle: the plugins that it depends on, by name, its lifecycle
/// hooks and its commands.
pub struct Plugin {
    pub name: String,
    pub dependencies: Vec<String>,
    pub cycle: Box<dyn PluginCycle>,
    pub commands: Vec<Command>,
}

/// A parameter of a command with its description.
pub fn parameter(name: &str, description: &str) -> (r: (String, String))
    ensures
        r.0@ == name@,
        r.1@ == description@,
{
    (name.to_string(), description.to_string())
}

/// The names and descriptions of a list of parameters, as sequences of characters.
pub open spec fn parameter_views(args: Seq<(String, String)>) -> Seq<(Seq<char>, Seq<char>)> {
    args.map_values(|p: (String, String)| (p.0@, p.1@))
}

impl Command {
    /// Whether the command has this name, this purpose and these parameters.
    pub open spec fn describes(
        &self,
        name: Seq<char>,
        purpose: Seq<char>,
        args: Seq<(Seq<char>, Seq<char>)>,
    ) -> bool {
        &&& self.name@ == name
        &&& self.purpose@ == purpose
        &&& parameter_views(self.args@) == args
    }
}

impl Plugin {
    /// The names of the plugins that this one depends on.
    pub open spec fn dependency_names(&self) -> Seq<Seq<char>> {
        views(self.dependencies@)
    }

    /// The names of the plugin's commands.
    pub open spec fn command_names(&self) -> Seq<Seq<char>> {
        self.commands@.map_values(|c: Command| c.name@)
    }
}

} // verus!
