//! The turn of an agent, as far as the plugins take part in it: before the
//! prompt is written every plugin is asked for its context, and when the
//! agent drops an exchange from its history every plugin is told.

use vstd::prelude::*;
use crate::command::CommandContext;
use crate::cycle::{LLMResponse, PluginCycle};
use crate::error::PluginError;
use crate::host::{HostReply, HostRequest, Step};
use crate::plugin::Plugin;
use crate::registry::Registry;
use crate::text::{join, joined, lemma_views_push, views};

verus! {

/// The text that the plugins add to a prompt: their blocks, one to a line.
pub open spec fn context_text(blocks: Seq<Seq<char>>) -> Seq<char> {
    joined(blocks, "\n"@)
}

/// The context of a list of blocks.
pub fn compose_context(blocks: &Vec<String>) -> (r: String)
    ensures
        r@ == context_text(views(blocks@)),
{
    join(blocks, "\n")
}

/// The blocks `blocks` with what a plugin has come to: one block more, or
/// none.
pub open spec fn with_block(blocks: Seq<Seq<char>>, block: Option<String>) -> Seq<Seq<char>> {
    match block {
        Some(text) => blocks.push(text@),
        None => blocks,
    }
}

/// The blocks `before` with what a run of plugins has come to, each a
/// block or nothing, in their order.
pub open spec fn gathered(before: Seq<Seq<char>>, blocks: Seq<Option<String>>) -> Seq<Seq<char>>
    decreases blocks.len(),
{
    if blocks.len() == 0 {
        before
    } else {
        with_block(gathered(before, blocks.drop_last()), blocks.last())
    }
}

/// Whether the plugins from the place `from` on, asked one after another,
/// were each done without the host, with `blocks` as what they came to:
/// the first was asked in the context `seen[0]`, and each next one in the
/// context that the one before it left.
pub open spec fn asked_in_turn(
    plugins: Seq<Plugin>,
    previous_prompt: Option<&str>,
    from: int,
    seen: Seq<CommandContext>,
    blocks: Seq<Option<String>>,
) -> bool {
    &&& seen.len() == blocks.len() + 1
    &&& forall|k: int|
        0 <= k < blocks.len() ==> plugins[from + k].cycle.contributes(
            &seen[k],
            &seen[k + 1],
            previous_prompt,
            Ok(Step::Done(#[trigger] blocks[k])),
        )
}

/// Whether a pass that stood at the place `from` with the blocks `had`, in
/// the context `before`, has come to `r` at the place `to` with the blocks
/// `has`, and left the context as `after`. The plugins from `from` up to
/// `to` were asked in turn and done, and their blocks were taken in that
/// order. Then either every plugin has been asked, and the result is the
/// context of the blocks; or the plugin at `to`, asked in the context that
/// the one before it left, asks the host for something or fails, and that
/// is the result.
pub open spec fn advanced(
    plugins: Seq<Plugin>,
    previous_prompt: Option<&str>,
    from: int,
    to: int,
    before: &CommandContext,
    after: &CommandContext,
    had: Seq<Seq<char>>,
    has: Seq<Seq<char>>,
    r: Result<PassStep, PluginError>,
    seen: Seq<CommandContext>,
    blocks: Seq<Option<String>>,
) -> bool {
    &&& asked_in_turn(plugins, previous_prompt, from, seen, blocks)
    &&& to == from + blocks.len()
    &&& seen[0] == *before
    &&& has == gathered(had, blocks)
    &&& match r {
        Ok(PassStep::Finished(text)) => to >= plugins.len() && seen.last() == *after && text@
            == context_text(has),
        Ok(PassStep::Ask(request)) => to < plugins.len() && plugins[to].cycle.contributes(
            &seen.last(),
            after,
            previous_prompt,
            Ok(Step::Ask(request)),
        ),
        Err(e) => to < plugins.len() && plugins[to].cycle.contributes(
            &seen.last(),
            after,
            previous_prompt,
            Err(e),
        ),
    }
}

/// Whether the plugins of the list, told of a removal one after another,
/// came to `outcomes`: the first was told in the context `seen[0]`, and
/// each next one in the context that the one before it left.
pub open spec fn told_in_turn(
    plugins: Seq<Plugin>,
    seen: Seq<CommandContext>,
    response: &LLMResponse,
    cmd_output: &str,
    previous_response: bool,
    outcomes: Seq<Result<(), PluginError>>,
) -> bool {
    &&& seen.len() == outcomes.len() + 1
    &&& forall|i: int|
        0 <= i < outcomes.len() ==> plugins[i].cycle.removes(
            &seen[i],
            &seen[i + 1],
            response,
            cmd_output,
            previous_response,
            #[trigger] outcomes[i],
        )
}

/// How far the pass over the plugins has come: the plugin whose turn it
/// is, and the blocks that the plugins before it gave.
pub struct ContextPass {
    position: usize,
    blocks: Vec<String>,
}

/// What the pass has come to.
#[derive(Debug, Clone, PartialEq, Eq)]
pub enum PassStep {
    /// The plugin whose turn it is asks this of the host.
    Ask(HostRequest),
    /// Every plugin has been asked, and this is the context.
    Finished(String),
}

impl ContextPass {
    /// The place, in the registry, of the plugin whose turn it is.
    pub closed spec fn position(&self) -> nat {
        self.position as nat
    }

    /// The blocks gathered so far.
    pub closed spec fn blocks(&self) -> Seq<Seq<char>> {
        views(self.blocks@)
    }

    /// The pass before any plugin has been asked.
    pub fn new() -> (r: ContextPass)
        ensures
            r.position() == 0,
            r.blocks() == Seq::<Seq<char>>::empty(),
    {
        let r = ContextPass { position: 0, blocks: Vec::new() };
        assert(r.blocks() =~= Seq::<Seq<char>>::empty());
        r
    }

    /// Takes what the plugin whose turn it is has come to, a block or
    /// nothing, and passes on to the next plugin.
    pub fn take_block(&mut self, block: Option<String>)
        ensures
            final(self).position() == if old(self).position() < usize::MAX {
                old(self).position() + 1
            } else {
                old(self).position()
            },
            final(self).blocks() == with_block(old(self).blocks(), block),
    {
        if let Some(text) = block {
            proof {
                lemma_views_push(self.blocks@, text);
            }
            self.blocks.push(text);
        }
        if self.position < usize::MAX {
            self.position = self.position + 1;
        }
    }

    /// Asks the plugins for their context, one after another from the one
    /// whose turn it is, until one of them needs the host or all are done.
    /// Each is asked in the context that the one before it left. The blocks
    /// of the plugins that were done are taken in that order. A plugin that
    /// asks or fails ends the pass, which stays at that plugin.
    pub fn advance(
        &mut self,
        registry: &Registry,
        ctx: &mut CommandContext,
        previous_prompt: Option<&str>,
    ) -> (r: Result<PassStep, PluginError>)
        ensures
            old(self).position() <= final(self).position(),
            exists|seen: Seq<CommandContext>, blocks: Seq<Option<String>>| #[trigger]
                advanced(
                    registry@,
                    previous_prompt,
                    old(self).position() as int,
                    final(self).position() as int,
                    old(ctx),
                    final(ctx),
                    old(self).blocks(),
                    final(self).blocks(),
                    r,
                    seen,
                    blocks,
                ),
    {
        let plugins = registry.plugins();
        let ghost mut seen: Seq<CommandContext> = seq![*ctx];
        let ghost mut blocks: Seq<Option<String>> = Seq::empty();
        while self.position < plugins.len()
            invariant
                plugins@ == registry@,
                asked_in_turn(
                    plugins@,
                    previous_prompt,
                    old(self).position() as int,
                    seen,
                    blocks,
                ),
                self.position() as int == old(self).position() as int + blocks.len(),
                seen[0] == *old(ctx),
                seen.last() == *ctx,
                self.blocks() == gathered(old(self).blocks(), blocks),
            decreases plugins.len() - self.position,
        {
            let step = plugins[self.position].cycle.create_context(ctx, previous_prompt);
            match step {
                Ok(Step::Done(block)) => {
                    self.take_block(block);
                    proof {
                        let longer = seen.push(*ctx);
                        let more = blocks.push(block);
                        assert(more.drop_last() =~= blocks);
                        assert forall|k: int| 0 <= k < more.len() implies plugins@[old(
                            self,
                        ).position() as int + k].cycle.contributes(
                            &longer[k],
                            &longer[k + 1],
                            previous_prompt,
                            Ok(Step::Done(#[trigger] more[k])),
                        ) by {
                            if k < blocks.len() {
                                assert(more[k] == blocks[k]);
                            }
                        }
                        seen = longer;
                        blocks = more;
                    }
                },
                Ok(Step::Ask(request)) => {
                    let asked = Ok(PassStep::Ask(request));
                    proof {
                        assert(advanced(
                            registry@,
                            previous_prompt,
                            old(self).position() as int,
                            self.position() as int,
                            old(ctx),
                            ctx,
                            old(self).blocks(),
                            self.blocks(),
                            asked,
                            seen,
                            blocks,
                        ));
                    }
                    return asked;
                },
                Err(e) => {
                    let failed = Err(e);
                    proof {
                        assert(advanced(
                            registry@,
                            previous_prompt,
                            old(self).position() as int,
                            self.position() as int,
                            old(ctx),
                            ctx,
                            old(self).blocks(),
                            self.blocks(),
                            failed,
                            seen,
                            blocks,
                        ));
                    }
                    return failed;
                },
            }
        }
        let finished = Ok(PassStep::Finished(compose_context(&self.blocks)));
        proof {
            assert(advanced(
                registry@,
                previous_prompt,
                old(self).position() as int,
                self.position() as int,
                old(ctx),
                ctx,
                old(self).blocks(),
                self.blocks(),
                finished,
                seen,
                blocks,
            ));
        }
        finished
    }

    /// Hands the host's answer to the plugin whose turn it is, takes the
    /// block that it comes to, and passes on to the next plugin. Where the
    /// plugin fails, or every plugin has been asked already, the pass stays
    /// as it is.
    pub fn supply(
        &mut self,
        registry: &Registry,
        ctx: &mut CommandContext,
        previous_prompt: Option<&str>,
        reply: HostReply,
    ) -> (r: Result<(), PluginError>)
        ensures
            old(self).position() >= registry@.len() ==> r is Ok && final(self).position() == old(
                self,
            ).position() && final(self).blocks() == old(self).blocks() && *final(ctx) == *old(ctx),
            old(self).position() < registry@.len() ==> match r {
                Ok(_) => final(self).position() == old(self).position() + 1 && exists|
                    block: Option<String>,
                |
                    #![trigger with_block(old(self).blocks(), block)]
                    registry@[old(self).position() as int].cycle.continues(
                        old(ctx),
                        final(ctx),
                        previous_prompt,
                        reply,
                        Ok(block),
                    ) && final(self).blocks() == with_block(old(self).blocks(), block),
                Err(e) => final(self).position() == old(self).position() && final(self).blocks()
                    == old(self).blocks() && registry@[old(self).position() as int].cycle.continues(
                    old(ctx),
                    final(ctx),
                    previous_prompt,
                    reply,
                    Err(e),
                ),
            },
    {
        let plugins = registry.plugins();
        if self.position >= plugins.len() {
            return Ok(());
        }
        let ghost kept = self.blocks();
        let came = plugins[self.position].cycle.resume_context(ctx, previous_prompt, reply);
        match came {
            Ok(block) => {
                self.take_block(block);
                proof {
                    assert(self.blocks() == with_block(kept, block));
                }
                Ok(())
            },
            Err(e) => Err(e),
        }
    }
}

/// Tells every plugin that `response` and the output of its command have
/// left the agent's history, each in the context that the one before it
/// left. A plugin that fails does not keep the others from being told: the
/// result has, for each plugin in the order of the registry, what that
/// plugin's hook came to.
pub fn notify_removed(
    registry: &Registry,
    ctx: &mut CommandContext,
    response: &LLMResponse,
    cmd_output: &str,
    previous_response: bool,
) -> (r: Vec<Result<(), PluginError>>)
    ensures
        r@.len() == registry@.len(),
        exists|seen: Seq<CommandContext>| #[trigger]
            told_in_turn(registry@, seen, response, cmd_output, previous_response, r@) && seen[0]
                == *old(ctx) && seen.last() == *final(ctx),
{
    let plugins = registry.plugins();
    let mut outcomes: Vec<Result<(), PluginError>> = Vec::new();
    let ghost mut seen: Seq<CommandContext> = seq![*ctx];
    let mut i: usize = 0;
    while i < plugins.len()
        invariant
            plugins@ == registry@,
            i <= plugins.len(),
            outcomes@.len() == i,
            told_in_turn(plugins@, seen, response, cmd_output, previous_response, outcomes@),
            seen[0] == *old(ctx),
            seen.last() == *ctx,
        decreases plugins.len() - i,
    {
        let ghost told = outcomes@;
        let outcome = plugins[i].cycle.apply_removed_response(
            ctx,
            response,
            cmd_output,
            previous_response,
        );
        outcomes.push(outcome);
        proof {
            let longer = seen.push(*ctx);
            assert forall|m: int| 0 <= m < outcomes@.len() implies plugins@[m].cycle.removes(
                &longer[m],
                &longer[m + 1],
                response,
                cmd_output,
                previous_response,
                #[trigger] outcomes@[m],
            ) by {
                if m < told.len() {
                    assert(outcomes@[m] == told[m]);
                }
            }
            seen = longer;
        }
        i += 1;
    }
    outcomes
}

} // verus!
