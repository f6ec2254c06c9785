//! The registry: the plugins of an agent, checked as a whole before any of
//! them is used.

use vstd::prelude::*;
use crate::args::ArgumentMap;
use crate::command::{is_missing, CommandContext};
use crate::data::PluginStore;
use crate::error::{fails_with, AssemblyError, AssemblyErrorView, ErrorView, PluginError};
use crate::host::{HostReply, Step};
use crate::payload::{field_in, Payload};
use crate::plugin::Plugin;
use crate::text::{lemma_views_push, same_text, views};

verus! {

/// The names of a list of plugins, in order.
pub open spec fn plugin_names(plugins: Seq<Plugin>) -> Seq<Seq<char>> {
    plugins.map_values(|p: Plugin| p.name@)
}

/// The names of all the commands of a list of plugins: those of the first
/// plugin, then those of the second, and so on.
pub open spec fn all_commands(plugins: Seq<Plugin>) -> Seq<Seq<char>>
    decreases plugins.len(),
{
    if plugins.len() == 0 {
        Seq::<Seq<char>>::empty()
    } else {
        all_commands(plugins.drop_last()) + plugins.last().command_names()
    }
}

/// Whether `dependency`, which the plugin at `i` declares, is the name of
/// another plugin of the list.
pub open spec fn resolves(plugins: Seq<Plugin>, i: int, dependency: Seq<char>) -> bool {
    exists|k: int| 0 <= k < plugins.len() && k != i && (#[trigger] plugins[k]).name@ == dependency
}

/// Whether the plugin at `i` declares a `j`th dependency.
pub open spec fn declares(plugins: Seq<Plugin>, i: int, j: int) -> bool {
    0 <= i < plugins.len() && 0 <= j < plugins[i].dependencies@.len()
}

/// The `j`th dependency of the plugin at `i`.
pub open spec fn dependency(plugins: Seq<Plugin>, i: int, j: int) -> Seq<char> {
    plugins[i].dependencies@[j]@
}

/// Whether every dependency that a plugin of the list declares is the name
/// of another plugin of the list.
pub open spec fn dependencies_resolve(plugins: Seq<Plugin>) -> bool {
    forall|i: int, j: int| #[trigger]
        declares(plugins, i, j) ==> resolves(plugins, i, dependency(plugins, i, j))
}

/// Whether a list of plugins can be assembled: no two plugins have one
/// name, every dependency resolves, and no two commands have one name.
pub open spec fn well_formed(plugins: Seq<Plugin>) -> bool {
    &&& plugin_names(plugins).no_duplicates()
    &&& dependencies_resolve(plugins)
    &&& all_commands(plugins).no_duplicates()
}

/// Whether `j` is the first place of `names` whose name stood at an earlier place.
pub open spec fn first_repeat(names: Seq<Seq<char>>, j: int) -> bool {
    &&& 0 <= j < names.len()
    &&& names.take(j).no_duplicates()
    &&& names.take(j).contains(names[j])
}

/// Whether the `j`th dependency of the plugin at `i` is the first, in the
/// order of the list, that does not resolve.
pub open spec fn first_unresolved(plugins: Seq<Plugin>, i: int, j: int) -> bool {
    &&& declares(plugins, i, j)
    &&& !resolves(plugins, i, dependency(plugins, i, j))
    &&& forall|a: int, b: int|
        (a < i || (a == i && b < j)) && #[trigger] declares(plugins, a, b) ==> resolves(
            plugins,
            a,
            dependency(plugins, a, b),
        )
}

/// Whether `e` is what is wrong with a list of plugins. Plugin names are
/// looked at first, then dependencies, then command names, and of several
/// faults of one kind the first in the list is the one.
pub open spec fn fault(plugins: Seq<Plugin>, e: AssemblyErrorView) -> bool {
    match e {
        AssemblyErrorView::DuplicatePlugin { plugin } => exists|j: int|
            #[trigger] first_repeat(plugin_names(plugins), j) && plugin_names(plugins)[j] == plugin,
        AssemblyErrorView::UnresolvedDependency { plugin, dependency: name } => {
            &&& plugin_names(plugins).no_duplicates()
            &&& exists|i: int, j: int| #[trigger]
                first_unresolved(plugins, i, j) && plugins[i].name@ == plugin && dependency(
                    plugins,
                    i,
                    j,
                ) == name
        },
        AssemblyErrorView::DuplicateCommand { command } => {
            &&& plugin_names(plugins).no_duplicates()
            &&& dependencies_resolve(plugins)
            &&& exists|j: int| #[trigger]
                first_repeat(all_commands(plugins), j) && all_commands(plugins)[j] == command
        },
    }
}

/// The first place of `names` whose name stood at an earlier place, if
/// there is one.
pub fn first_duplicate(names: &Vec<String>) -> (r: Option<usize>)
    ensures
        match r {
            Some(j) => first_repeat(views(names@), j as int),
            None => views(names@).no_duplicates(),
        },
{
    let mut j: usize = 0;
    while j < names.len()
        invariant
            j <= names.len(),
            views(names@).take(j as int).no_duplicates(),
        decreases names.len() - j,
    {
        let ghost all = views(names@);
        let mut k: usize = 0;
        while k < j
            invariant
                k <= j < names.len(),
                all == views(names@),
                all.take(j as int).no_duplicates(),
                forall|m: int| 0 <= m < k ==> #[trigger] all[m] != all[j as int],
            decreases j - k,
        {
            if same_text(names[k].as_str(), names[j].as_str()) {
                proof {
                    assert(all.take(j as int)[k as int] == all[j as int]);
                }
                return Some(j);
            }
            k += 1;
        }
        proof {
            let next = all.take(j + 1);
            assert forall|a: int, b: int| 0 <= a < next.len() && 0 <= b < next.len() && a
                != b implies next[a] != next[b] by {
                if a < j && b < j {
                    assert(all.take(j as int)[a] == next[a]);
                    assert(all.take(j as int)[b] == next[b]);
                }
            }
        }
        j += 1;
    }
    proof {
        assert(views(names@).take(j as int) =~= views(names@));
    }
    None
}

/// The names of the plugins, in order.
pub fn plugin_name_list(plugins: &Vec<Plugin>) -> (r: Vec<String>)
    ensures
        views(r@) == plugin_names(plugins@),
{
    let mut out: Vec<String> = Vec::new();
    let mut i: usize = 0;
    while i < plugins.len()
        invariant
            i <= plugins.len(),
            views(out@) == plugin_names(plugins@).take(i as int),
        decreases plugins.len() - i,
    {
        let ghost before = out@;
        let name = plugins[i].name.clone();
        out.push(name);
        proof {
            let names = plugin_names(plugins@);
            lemma_views_push(before, name);
            assert(names.len() == plugins@.len());
            assert(names.take(i + 1) =~= names.take(i as int).push(names[i as int]));
        }
        i += 1;
    }
    proof {
        assert(plugin_names(plugins@).take(i as int) =~= plugin_names(plugins@));
    }
    out
}

/// The names of all the commands of the plugins, in order.
pub fn command_name_list(plugins: &Vec<Plugin>) -> (r: Vec<String>)
    ensures
        views(r@) == all_commands(plugins@),
{
    let mut out: Vec<String> = Vec::new();
    let mut i: usize = 0;
    proof {
        assert(plugins@.take(0) =~= Seq::<Plugin>::empty());
        assert(views(out@) =~= all_commands(plugins@.take(0)));
    }
    while i < plugins.len()
        invariant
            i <= plugins.len(),
            views(out@) == all_commands(plugins@.take(i as int)),
        decreases plugins.len() - i,
    {
        let ghost before = views(out@);
        let mut j: usize = 0;
        while j < plugins[i].commands.len()
            invariant
                i < plugins.len(),
                j <= plugins[i as int].commands.len(),
                views(out@) == before + plugins[i as int].command_names().take(j as int),
            decreases plugins[i as int].commands.len() - j,
        {
            let ghost kept = out@;
            let name = plugins[i].commands[j].name.clone();
            out.push(name);
            proof {
                let names = plugins[i as int].command_names();
                lemma_views_push(kept, name);
                assert(names.len() == plugins[i as int].commands@.len());
                assert(names.take(j + 1) =~= names.take(j as int).push(names[j as int]));
                assert(views(out@) =~= before + names.take(j + 1));
            }
            j += 1;
        }
        proof {
            let names = plugins[i as int].command_names();
            assert(names.take(j as int) =~= names);
            assert(plugins@.take(i + 1).drop_last() =~= plugins@.take(i as int));
            assert(plugins@.take(i + 1).last() == plugins@[i as int]);
        }
        i += 1;
    }
    proof {
        assert(plugins@.take(i as int) =~= plugins@);
    }
    out
}

/// Whether `name` is the name of a plugin of the list other than the one at `i`.
pub fn resolves_in(plugins: &Vec<Plugin>, i: usize, name: &str) -> (r: bool)
    ensures
        r == resolves(plugins@, i as int, name@),
{
    let mut k: usize = 0;
    while k < plugins.len()
        invariant
            k <= plugins.len(),
            forall|m: int| 0 <= m < k && m != i ==> (#[trigger] plugins@[m]).name@ != name@,
        decreases plugins.len() - k,
    {
        if k != i && same_text(plugins[k].name.as_str(), name) {
            return true;
        }
        k += 1;
    }
    false
}

/// The first dependency, in the order of the list, that is not the name of
/// another plugin of the list: the place of the plugin and the place of the
/// dependency among those that the plugin declares.
pub fn first_unresolved_dependency(plugins: &Vec<Plugin>) -> (r: Option<(usize, usize)>)
    ensures
        match r {
            Some((i, j)) => first_unresolved(plugins@, i as int, j as int),
            None => dependencies_resolve(plugins@),
        },
{
    let mut i: usize = 0;
    while i < plugins.len()
        invariant
            i <= plugins.len(),
            forall|a: int, b: int|
                a < i && #[trigger] declares(plugins@, a, b) ==> resolves(
                    plugins@,
                    a,
                    dependency(plugins@, a, b),
                ),
        decreases plugins.len() - i,
    {
        let mut j: usize = 0;
        while j < plugins[i].dependencies.len()
            invariant
                i < plugins.len(),
                j <= plugins[i as int].dependencies.len(),
                forall|a: int, b: int|
                    (a < i || (a == i && b < j)) && #[trigger] declares(plugins@, a, b)
                        ==> resolves(plugins@, a, dependency(plugins@, a, b)),
            decreases plugins[i as int].dependencies.len() - j,
        {
            if !resolves_in(plugins, i, plugins[i].dependencies[j].as_str()) {
                return Some((i, j));
            }
            j += 1;
        }
        i += 1;
    }
    None
}

/// A fault of a list of plugins is the only one that is reported for it.
pub proof fn fault_is_determined(plugins: Seq<Plugin>, e1: AssemblyErrorView, e2: AssemblyErrorView)
    requires
        fault(plugins, e1),
        fault(plugins, e2),
    ensures
        e1 == e2,
{
    lemma_fault_kind(plugins, e1);
    lemma_fault_kind(plugins, e2);
    match e1 {
        AssemblyErrorView::DuplicatePlugin { plugin } => {
            let names = plugin_names(plugins);
            let a = choose|j: int| #[trigger] first_repeat(names, j) && names[j] == plugin;
            let b = choose|j: int| #[trigger]
                first_repeat(names, j) && names[j] == e2->DuplicatePlugin_plugin;
            lemma_first_repeat_unique(names, a, b);
        },
        AssemblyErrorView::UnresolvedDependency { plugin, dependency: name } => {
            let (a, b) = choose|i: int, j: int| #[trigger]
                first_unresolved(plugins, i, j) && plugins[i].name@ == plugin && dependency(
                    plugins,
                    i,
                    j,
                ) == name;
            let (c, d) = choose|i: int, j: int| #[trigger]
                first_unresolved(plugins, i, j) && plugins[i].name@
                    == e2->UnresolvedDependency_plugin && dependency(plugins, i, j)
                    == e2->UnresolvedDependency_dependency;
            assert(declares(plugins, a, b));
            assert(declares(plugins, c, d));
        },
        AssemblyErrorView::DuplicateCommand { command } => {
            let names = all_commands(plugins);
            let a = choose|j: int| #[trigger] first_repeat(names, j) && names[j] == command;
            let b = choose|j: int| #[trigger]
                first_repeat(names, j) && names[j] == e2->DuplicateCommand_command;
            lemma_first_repeat_unique(names, a, b);
        },
    }
}

/// A list of plugins with a fault is not well formed.
pub proof fn fault_excludes_well_formed(plugins: Seq<Plugin>, e: AssemblyErrorView)
    requires
        fault(plugins, e),
    ensures
        !well_formed(plugins),
{
    lemma_fault_kind(plugins, e);
}

/// In a well-formed list of plugins every dependency that a plugin declares
/// is the name of a plugin of the list.
pub proof fn dependencies_are_registered(plugins: Seq<Plugin>, i: int, j: int)
    requires
        well_formed(plugins),
        declares(plugins, i, j),
    ensures
        plugin_names(plugins).contains(dependency(plugins, i, j)),
{
    let k = choose|k: int|
        0 <= k < plugins.len() && k != i && (#[trigger] plugins[k]).name@ == dependency(
            plugins,
            i,
            j,
        );
    assert(plugin_names(plugins)[k] == dependency(plugins, i, j));
}

/// A list in which a plugin declares a dependency that is the name of no
/// plugin of the list is not well formed.
pub proof fn missing_dependency_is_a_fault(plugins: Seq<Plugin>, i: int, j: int)
    requires
        declares(plugins, i, j),
        !plugin_names(plugins).contains(dependency(plugins, i, j)),
    ensures
        !well_formed(plugins),
{
    if resolves(plugins, i, dependency(plugins, i, j)) {
        let k = choose|k: int|
            0 <= k < plugins.len() && k != i && (#[trigger] plugins[k]).name@ == dependency(
                plugins,
                i,
                j,
            );
        assert(plugin_names(plugins)[k] == dependency(plugins, i, j));
    }
}

proof fn lemma_repeat_is_duplicate(names: Seq<Seq<char>>, j: int)
    requires
        first_repeat(names, j),
    ensures
        !names.no_duplicates(),
{
    let early = names.take(j);
    let k = choose|k: int| 0 <= k < early.len() && early[k] == names[j];
    assert(names[k] == names[j]);
}

proof fn lemma_first_repeat_unique(names: Seq<Seq<char>>, a: int, b: int)
    requires
        first_repeat(names, a),
        first_repeat(names, b),
    ensures
        a == b,
{
    if a < b {
        let early = names.take(a);
        let k = choose|k: int| 0 <= k < early.len() && early[k] == names[a];
        assert(names.take(b)[k] == names.take(b)[a]);
    }
    if b < a {
        let early = names.take(b);
        let k = choose|k: int| 0 <= k < early.len() && early[k] == names[b];
        assert(names.take(a)[k] == names.take(a)[b]);
    }
}

/// What holds of a list with the fault `e`: the kinds of fault exclude one
/// another, and each excludes well-formedness.
proof fn lemma_fault_kind(plugins: Seq<Plugin>, e: AssemblyErrorView)
    requires
        fault(plugins, e),
    ensures
        !well_formed(plugins),
        e is DuplicatePlugin <==> !plugin_names(plugins).no_duplicates(),
        e is UnresolvedDependency <==> plugin_names(plugins).no_duplicates()
            && !dependencies_resolve(plugins),
{
    match e {
        AssemblyErrorView::DuplicatePlugin { plugin } => {
            let names = plugin_names(plugins);
            let j = choose|j: int| #[trigger] first_repeat(names, j) && names[j] == plugin;
            lemma_repeat_is_duplicate(names, j);
        },
        AssemblyErrorView::UnresolvedDependency { plugin, dependency: name } => {
            let (i, j) = choose|i: int, j: int| #[trigger]
                first_unresolved(plugins, i, j) && plugins[i].name@ == plugin && dependency(
                    plugins,
                    i,
                    j,
                ) == name;
            assert(declares(plugins, i, j));
        },
        AssemblyErrorView::DuplicateCommand { command } => {
            let names = all_commands(plugins);
            let j = choose|j: int| #[trigger] first_repeat(names, j) && names[j] == command;
            lemma_repeat_is_duplicate(names, j);
        },
    }
}

/// The plugins of an agent. A registry is made by `assemble` alone, so the
/// list that it holds is well formed.
pub struct Registry {
    plugins: Vec<Plugin>,
}

impl View for Registry {
    type V = Seq<Plugin>;

    closed spec fn view(&self) -> Seq<Plugin> {
        self.plugins@
    }
}

/// Checks a list of plugins and makes the registry of them. The list is
/// taken whole or not at all: with one fault in it there is no registry.
pub fn assemble(plugins: Vec<Plugin>) -> (r: Result<Registry, AssemblyError>)
    ensures
        r is Ok <==> well_formed(plugins@),
        match r {
            Ok(registry) => registry@ == plugins@,
            Err(e) => fault(plugins@, e@),
        },
{
    let names = plugin_name_list(&plugins);
    if let Some(j) = first_duplicate(&names) {
        let e = AssemblyError::DuplicatePlugin { plugin: names[j].clone() };
        proof {
            assert(first_repeat(plugin_names(plugins@), j as int));
            fault_excludes_well_formed(plugins@, e@);
        }
        return Err(e);
    }
    if let Some((i, j)) = first_unresolved_dependency(&plugins) {
        let e = AssemblyError::UnresolvedDependency {
            plugin: plugins[i].name.clone(),
            dependency: plugins[i].dependencies[j].clone(),
        };
        proof {
            assert(first_unresolved(plugins@, i as int, j as int));
            fault_excludes_well_formed(plugins@, e@);
        }
        return Err(e);
    }
    let commands = command_name_list(&plugins);
    if let Some(j) = first_duplicate(&commands) {
        let e = AssemblyError::DuplicateCommand { command: commands[j].clone() };
        proof {
            assert(first_repeat(all_commands(plugins@), j as int));
            fault_excludes_well_formed(plugins@, e@);
        }
        return Err(e);
    }
    Ok(Registry { plugins })
}

/// Whether the command at place `j` of the plugin at `i` has the name `name`.
pub open spec fn is_command(plugins: Seq<Plugin>, i: int, j: int, name: Seq<char>) -> bool {
    &&& 0 <= i < plugins.len()
    &&& 0 <= j < plugins[i].commands@.len()
    &&& plugins[i].commands@[j].name@ == name
}

/// Whether the command at place `j` of the plugin at `i` is the first, in
/// the order of the list, with the name `name`.
pub open spec fn first_command(plugins: Seq<Plugin>, i: int, j: int, name: Seq<char>) -> bool {
    &&& is_command(plugins, i, j, name)
    &&& forall|a: int, b: int|
        (a < i || (a == i && b < j)) ==> !#[trigger] is_command(plugins, a, b, name)
}

/// The first command with a name is the only one that is the first.
pub proof fn lemma_one_first(plugins: Seq<Plugin>, name: Seq<char>, i: int, j: int)
    requires
        first_command(plugins, i, j, name),
    ensures
        forall|a: int, b: int| #[trigger] first_command(plugins, a, b, name) ==> a == i && b == j,
{
    assert forall|a: int, b: int| #[trigger] first_command(plugins, a, b, name) implies a == i
        && b == j by {
        assert(is_command(plugins, a, b, name));
        assert(is_command(plugins, i, j, name));
    }
}

/// A name is among the names of all commands just where some command has it.
pub proof fn lemma_command_names(plugins: Seq<Plugin>, name: Seq<char>)
    ensures
        all_commands(plugins).contains(name) <==> exists|i: int, j: int| #[trigger]
            is_command(plugins, i, j, name),
    decreases plugins.len(),
{
    if plugins.len() == 0 {
        assert(!all_commands(plugins).contains(name));
    } else {
        let front = plugins.drop_last();
        let last = plugins.len() - 1;
        let own = plugins.last().command_names();
        lemma_command_names(front, name);
        if all_commands(plugins).contains(name) {
            let p = choose|p: int|
                0 <= p < all_commands(plugins).len() && all_commands(plugins)[p] == name;
            if p < all_commands(front).len() {
                assert(all_commands(front)[p] == name);
                let (i, j) = choose|i: int, j: int| #[trigger] is_command(front, i, j, name);
                assert(front[i] == plugins[i]);
                assert(is_command(plugins, i, j, name));
            } else {
                let j = p - all_commands(front).len();
                assert(own[j] == name);
                assert(is_command(plugins, last, j, name));
            }
        }
        if exists|i: int, j: int| #[trigger] is_command(plugins, i, j, name) {
            let (i, j) = choose|i: int, j: int| #[trigger] is_command(plugins, i, j, name);
            if i < last {
                assert(front[i] == plugins[i]);
                assert(is_command(front, i, j, name));
                let p = choose|p: int|
                    0 <= p < all_commands(front).len() && all_commands(front)[p] == name;
                assert(all_commands(plugins)[p] == name);
            } else {
                assert(own[j] == name);
                assert(all_commands(plugins)[all_commands(front).len() + j] == name);
            }
        }
    }
}

impl Registry {
    #[verifier::type_invariant]
    spec fn assembled(self) -> bool {
        well_formed(self.plugins@)
    }

    /// The plugins, in the order in which they were given.
    pub fn plugins(&self) -> (r: &Vec<Plugin>)
        ensures
            r@ == self@,
            well_formed(self@),
    {
        proof {
            use_type_invariant(self);
        }
        &self.plugins
    }

    /// Whether a plugin of this name is registered.
    pub fn is_registered(&self, name: &str) -> (r: bool)
        ensures
            r == plugin_names(self@).contains(name@),
    {
        let mut k: usize = 0;
        while k < self.plugins.len()
            invariant
                k <= self.plugins.len(),
                forall|m: int| 0 <= m < k ==> (#[trigger] self.plugins@[m]).name@ != name@,
            decreases self.plugins.len() - k,
        {
            if same_text(self.plugins[k].name.as_str(), name) {
                proof {
                    assert(plugin_names(self@)[k as int] == name@);
                }
                return true;
            }
            k += 1;
        }
        false
    }

    /// The place of the command `name`: that of its plugin, and its own
    /// among the commands of that plugin.
    pub fn find_command(&self, name: &str) -> (r: Option<(usize, usize)>)
        ensures
            match r {
                Some((i, j)) => first_command(self@, i as int, j as int, name@),
                None => !all_commands(self@).contains(name@),
            },
    {
        let mut i: usize = 0;
        while i < self.plugins.len()
            invariant
                i <= self.plugins.len(),
                forall|a: int, b: int| a < i ==> !#[trigger] is_command(self@, a, b, name@),
            decreases self.plugins.len() - i,
        {
            let mut j: usize = 0;
            while j < self.plugins[i].commands.len()
                invariant
                    i < self.plugins.len(),
                    j <= self.plugins[i as int].commands.len(),
                    forall|a: int, b: int|
                        (a < i || (a == i && b < j)) ==> !#[trigger] is_command(
                            self@,
                            a,
                            b,
                            name@,
                        ),
                decreases self.plugins[i as int].commands.len() - j,
            {
                if same_text(self.plugins[i].commands[j].name.as_str(), name) {
                    return Some((i, j));
                }
                j += 1;
            }
            i += 1;
        }
        proof {
            lemma_command_names(self@, name@);
        }
        None
    }

    /// Runs the command `name` on `args`: the result is what the work
    /// behind that command comes to. A name that no command has is a
    /// failure; so is a parameter that the command needs and `args` lacks.
    pub fn run_command(&self, ctx: &mut CommandContext, name: &str, args: &ArgumentMap) -> (r:
        Result<Step<String>, PluginError>)
        ensures
            !all_commands(self@).contains(name@) ==> fails_with(
                r,
                ErrorView::CommandNotFound { command: name@ },
            ) && *final(ctx) == *old(ctx),
            forall|i: int, j: int, p: &str|
                #![trigger first_command(self@, i, j, name@), self@[i].commands@[j].run.needs(p)]
                first_command(self@, i, j, name@) && self@[i].commands@[j].run.needs(p)
                    && !args@.contains_key(p@) ==> is_missing(r),
            forall|i: int, j: int| #[trigger]
                first_command(self@, i, j, name@) ==> self@[i].commands@[j].run.invokes(
                    old(ctx),
                    final(ctx),
                    args,
                    r,
                ),
    {
        match self.find_command(name) {
            Some((i, j)) => {
                proof {
                    lemma_command_names(self@, name@);
                    lemma_one_first(self@, name@, i as int, j as int);
                }
                self.plugins[i].commands[j].run.invoke(ctx, args)
            },
            None => {
                proof {
                    lemma_command_names(self@, name@);
                }
                Err(PluginError::CommandNotFound { command: name.to_string() })
            },
        }
    }

    /// Finishes the command `name` with the host's answer to what it asked:
    /// the result is what the work behind that command comes to.
    pub fn resume_command(
        &self,
        ctx: &mut CommandContext,
        name: &str,
        args: &ArgumentMap,
        reply: HostReply,
    ) -> (r: Result<String, PluginError>)
        ensures
            !all_commands(self@).contains(name@) ==> fails_with(
                r,
                ErrorView::CommandNotFound { command: name@ },
            ) && *final(ctx) == *old(ctx),
            forall|i: int, j: int, p: &str|
                #![trigger first_command(self@, i, j, name@), self@[i].commands@[j].run.needs(p)]
                first_command(self@, i, j, name@) && self@[i].commands@[j].run.needs(p)
                    && !args@.contains_key(p@) ==> is_missing(r),
            forall|i: int, j: int| #[trigger]
                first_command(self@, i, j, name@) ==> self@[i].commands@[j].run.resumes(
                    old(ctx),
                    final(ctx),
                    args,
                    reply,
                    r,
                ),
    {
        match self.find_command(name) {
            Some((i, j)) => {
                proof {
                    lemma_command_names(self@, name@);
                    lemma_one_first(self@, name@, i as int, j as int);
                }
                self.plugins[i].commands[j].run.resume(ctx, args, reply)
            },
            None => {
                proof {
                    lemma_command_names(self@, name@);
                }
                Err(PluginError::CommandNotFound { command: name.to_string() })
            },
        }
    }

    /// Has every plugin make its capability from its configuration, and
    /// keeps each under the name of its plugin. `configs` gives the
    /// configuration of a plugin under the plugin's name; a plugin without
    /// one is configured with the null value. A capability is kept under a
    /// name just where the plugin of that name offers one, and it is one that
    /// the plugin makes from its configuration; so what a plugin declares to
    /// depend on can be looked up just where the plugin so named offers a
    /// capability.
    pub fn create_store(&self, configs: &Vec<(String, Payload)>) -> (r: PluginStore)
        ensures
            forall|i: int, j: int| #[trigger]
                declares(self@, i, j) ==> provides(
                    self@,
                    configs@,
                    dependency(self@, i, j),
                    r.contains(dependency(self@, i, j)),
                ),
            r.names().no_duplicates(),
            forall|name: Seq<char>| #[trigger]
                r.contains(name) ==> plugin_names(self@).contains(name),
            forall|i: int|
                0 <= i < self@.len() ==> (r.contains((#[trigger] self@[i]).name@)
                    <==> self@[i].cycle.offers(config_for(configs@, self@[i].name@))),
            forall|i: int|
                0 <= i < self@.len() && r.contains((#[trigger] self@[i]).name@)
                    ==> self@[i].cycle.makes(
                    config_for(configs@, self@[i].name@),
                    r.data_of(self@[i].name@),
                ),
    {
        proof {
            use_type_invariant(self);
        }
        let mut store = PluginStore::new();
        let nothing = Payload::Null;
        let mut i: usize = 0;
        while i < self.plugins.len()
            invariant
                i <= self.plugins.len(),
                nothing == Payload::Null,
                plugin_names(self@).no_duplicates(),
                store.names().no_duplicates(),
                forall|name: Seq<char>| #[trigger]
                    store.contains(name) ==> plugin_names(self@).take(i as int).contains(name),
                forall|m: int|
                    0 <= m < i ==> (store.contains((#[trigger] self@[m]).name@)
                        <==> self@[m].cycle.offers(config_for(configs@, self@[m].name@))),
                forall|m: int|
                    0 <= m < i && store.contains((#[trigger] self@[m]).name@)
                        ==> self@[m].cycle.makes(
                        config_for(configs@, self@[m].name@),
                        store.data_of(self@[m].name@),
                    ),
            decreases self.plugins.len() - i,
        {
            let plugin = &self.plugins[i];
            let data = match field_in(configs, plugin.name.as_str()) {
                Some(config) => plugin.cycle.create_data(config),
                None => plugin.cycle.create_data(&nothing),
            };
            let ghost kept = store;
            let ghost before = store.names();
            let ghost names = plugin_names(self@);
            proof {
                assert(names.len() == self@.len());
                assert(names.take(i as int).len() == i);
                assert(names[i as int] == plugin.name@);
                assert(names.take(i + 1) =~= names.take(i as int).push(plugin.name@));
                if kept.contains(plugin.name@) {
                    let k = choose|k: int|
                        0 <= k < i && names.take(i as int)[k] == plugin.name@;
                    assert(names[k] == names[i as int]);
                }
            }
            store.install(plugin.name.as_str(), data);
            proof {
                assert forall|name: Seq<char>| #[trigger] store.contains(name) implies names.take(
                    i + 1,
                ).contains(name) by {
                    let k = choose|k: int| 0 <= k < store.names().len() && store.names()[k] == name;
                    if k < before.len() {
                        assert(before[k] == name);
                        assert(kept.contains(name));
                        let m = choose|m: int|
                            0 <= m < i && names.take(i as int)[m] == name;
                        assert(names.take(i + 1)[m] == name);
                    } else {
                        assert(names.take(i + 1)[i as int] == name);
                    }
                }
                assert forall|m: int| 0 <= m < i + 1 implies (store.contains(
                    (#[trigger] self@[m]).name@,
                ) <==> self@[m].cycle.offers(config_for(configs@, self@[m].name@))) by {
                    if m < i {
                        assert(names[m] != names[i as int]);
                        if kept.contains(self@[m].name@) {
                            let k = choose|k: int|
                                0 <= k < before.len() && before[k] == self@[m].name@;
                            assert(store.names()[k] == self@[m].name@);
                        }
                        if store.contains(self@[m].name@) {
                            let k = choose|k: int|
                                0 <= k < store.names().len() && store.names()[k]
                                    == self@[m].name@;
                            assert(before[k] == self@[m].name@);
                            assert(kept.contains(self@[m].name@));
                        }
                    } else {
                        if data.is_some() {
                            assert(store.names()[before.len() as int] == plugin.name@);
                        }
                    }
                }
                assert forall|m: int|
                    0 <= m < i + 1 && store.contains((#[trigger] self@[m]).name@) implies self@[m].cycle.makes(
                    config_for(configs@, self@[m].name@),
                    store.data_of(self@[m].name@),
                ) by {
                    if m < i {
                        assert(names[m] != names[i as int]);
                        assert(kept.contains(self@[m].name@));
                        assert(store.data_of(self@[m].name@) == kept.data_of(self@[m].name@));
                    }
                }
            }
            i += 1;
        }
        proof {
            assert(plugin_names(self@).take(i as int) =~= plugin_names(self@));
            assert forall|a: int, b: int| #[trigger] declares(self@, a, b) implies provides(
                self@,
                configs@,
                dependency(self@, a, b),
                store.contains(dependency(self@, a, b)),
            ) by {
                let name = dependency(self@, a, b);
                assert(resolves(self@, a, name));
                let k = choose|k: int|
                    0 <= k < self@.len() && k != a && (#[trigger] self@[k]).name@ == name;
                assert(store.contains(self@[k].name@) <==> self@[k].cycle.offers(
                    config_for(configs@, self@[k].name@),
                ));
            }
        }
        store
    }
}

/// Whether `kept` says rightly if the plugin `name` of the list has a
/// capability in the table: it has one just where it offers one for its
/// configuration.
pub open spec fn provides(
    plugins: Seq<Plugin>,
    configs: Seq<(String, Payload)>,
    name: Seq<char>,
    kept: bool,
) -> bool {
    exists|k: int|
        0 <= k < plugins.len() && (#[trigger] plugins[k]).name@ == name && (kept
            <==> plugins[k].cycle.offers(config_for(configs, name)))
}

/// The configuration of the plugin `name`: what `configs` gives under the
/// name, and the null value where it gives nothing.
pub open spec fn config_for(configs: Seq<(String, Payload)>, name: Seq<char>) -> Payload {
    match crate::payload::field_of(configs, name) {
        Some(config) => config,
        None => Payload::Null,
    }
}

} // verus!
