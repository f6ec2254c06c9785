//! The lifecycle hooks of a plugin.

use vstd::prelude::*;
use crate::command::CommandContext;
use crate::data::PluginData;
use crate::error::PluginError;
use crate::host::{HostReply, Step};
use crate::payload::Payload;

verus! {

/// A response of the language model, as the agent keeps it in its history.
#[derive(Debug, Clone, PartialEq, Eq)]
pub struct LLMResponse {
    pub content: String,
}

/// What a plugin does once per turn, and once when it is registered. Each
/// hook has a relation that says what it may come to; a plugin that says
/// nothing of a hook leaves every outcome open.
pub trait PluginCycle {
    /// Whether `create_context`, called in the context `before`, may come
    /// to `r` and leave the context as `after`.
    open spec fn contributes(
        &self,
        before: &CommandContext,
        after: &CommandContext,
        previous_prompt: Option<&str>,
        r: Result<Step<Option<String>>, PluginError>,
    ) -> bool {
        true
    }

    /// Whether `resume_context`, called with the answer `reply` in the
    /// context `before`, may come to `r` and leave the context as `after`.
    open spec fn continues(
        &self,
        before: &CommandContext,
        after: &CommandContext,
        previous_prompt: Option<&str>,
        reply: HostReply,
        r: Result<Option<String>, PluginError>,
    ) -> bool {
        true
    }

    /// Whether `apply_removed_response`, called in the context `before`,
    /// may come to `r` and leave the context as `after`.
    open spec fn removes(
        &self,
        before: &CommandContext,
        after: &CommandContext,
        response: &LLMResponse,
        cmd_output: &str,
        previous_response: bool,
        r: Result<(), PluginError>,
    ) -> bool {
        true
    }

    /// Whether the plugin offers a capability when it is configured with `value`.
    spec fn offers(&self, value: Payload) -> bool;

    /// Whether `made` is a capability that the plugin may make when it is
    /// configured with `value`.
    open spec fn makes(&self, value: Payload, made: &Box<dyn PluginData>) -> bool {
        true
    }

    /// The text that the plugin adds to the next prompt, if any. The hook
    /// may ask the host for something first.
    fn create_context(&self, context: &mut CommandContext, previous_prompt: Option<&str>) -> (r:
        Result<Step<Option<String>>, PluginError>)
        ensures
            self.contributes(old(context), final(context), previous_prompt, r),
    ;

    /// Finishes `create_context` with the host's answer.
    fn resume_context(
        &self,
        context: &mut CommandContext,
        previous_prompt: Option<&str>,
        reply: HostReply,
    ) -> (r: Result<Option<String>, PluginError>)
        ensures
            self.continues(old(context), final(context), previous_prompt, reply, r),
    ;

    /// Told that a response and the output of its command have left the
    /// agent's history.
    fn apply_removed_response(
        &self,
        context: &mut CommandContext,
        response: &LLMResponse,
        cmd_output: &str,
        previous_response: bool,
    ) -> (r: Result<(), PluginError>)
        ensures
            self.removes(old(context), final(context), response, cmd_output, previous_response, r),
    ;

    /// The capability that the plugin offers to the others, made from its
    /// configuration; nothing where it offers none.
    fn create_data(&self, value: &Payload) -> (r: Option<Box<dyn PluginData>>)
        ensures
            r.is_some() == self.offers(*value),
            match r {
                Some(made) => self.makes(*value, &made),
                None => true,
            },
    ;
}

/// Whether the hooks `cycle` come to what the hooks `model` come to.
pub open spec fn cycles_as<C: PluginCycle>(cycle: &Box<dyn PluginCycle>, model: C) -> bool {
    &&& forall|
        before: &CommandContext,
        after: &CommandContext,
        previous_prompt: Option<&str>,
        r: Result<Step<Option<String>>, PluginError>,
    | #[trigger]
        cycle.contributes(before, after, previous_prompt, r) == model.contributes(
            before,
            after,
            previous_prompt,
            r,
        )
    &&& forall|
        before: &CommandContext,
        after: &CommandContext,
        previous_prompt: Option<&str>,
        reply: HostReply,
        r: Result<Option<String>, PluginError>,
    | #[trigger]
        cycle.continues(before, after, previous_prompt, reply, r) == model.continues(
            before,
            after,
            previous_prompt,
            reply,
            r,
        )
    &&& forall|
        before: &CommandContext,
        after: &CommandContext,
        response: &LLMResponse,
        cmd_output: &str,
        previous_response: bool,
        r: Result<(), PluginError>,
    | #[trigger]
        cycle.removes(before, after, response, cmd_output, previous_response, r) == model.removes(
            before,
            after,
            response,
            cmd_output,
            previous_response,
            r,
        )
    &&& forall|value: Payload| #[trigger] cycle.offers(value) == model.offers(value)
    &&& forall|value: Payload, made: &Box<dyn PluginData>| #[trigger]
        cycle.makes(value, made) == model.makes(value, made)
}

/// The hooks of a plugin that takes no part in the lifecycle.
pub struct EmptyCycle;

impl PluginCycle for EmptyCycle {
    open spec fn contributes(
        &self,
        before: &CommandContext,
        after: &CommandContext,
        previous_prompt: Option<&str>,
        r: Result<Step<Option<String>>, PluginError>,
    ) -> bool {
        r == Ok::<Step<Option<String>>, PluginError>(Step::Done(None)) && *after == *before
    }

    open spec fn continues(
        &self,
        before: &CommandContext,
        after: &CommandContext,
        previous_prompt: Option<&str>,
        reply: HostReply,
        r: Result<Option<String>, PluginError>,
    ) -> bool {
        r == Ok::<Option<String>, PluginError>(None) && *after == *before
    }

    open spec fn removes(
        &self,
        before: &CommandContext,
        after: &CommandContext,
        response: &LLMResponse,
        cmd_output: &str,
        previous_response: bool,
        r: Result<(), PluginError>,
    ) -> bool {
        r is Ok && *after == *before
    }

    open spec fn offers(&self, value: Payload) -> bool {
        false
    }

    fn create_context(&self, context: &mut CommandContext, previous_prompt: Option<&str>) -> (r:
        Result<Step<Option<String>>, PluginError>)
    {
        Ok(Step::Done(None))
    }

    fn resume_context(
        &self,
        context: &mut CommandContext,
        previous_prompt: Option<&str>,
        reply: HostReply,
    ) -> (r: Result<Option<String>, PluginError>)
    {
        Ok(None)
    }

    fn apply_removed_response(
        &self,
        context: &mut CommandContext,
        response: &LLMResponse,
        cmd_output: &str,
        previous_response: bool,
    ) -> (r: Result<(), PluginError>)
    {
        Ok(())
    }

    fn create_data(&self, value: &Payload) -> (r: Option<Box<dyn PluginData>>) {
        None
    }
}

} // verus!
