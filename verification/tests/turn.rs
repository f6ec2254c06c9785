use std::cell::RefCell;
use std::rc::Rc;

use agent_plugins::command::CommandContext;
use agent_plugins::cycle::{LLMResponse, PluginCycle};
use agent_plugins::data::{PluginData, PluginStore};
use agent_plugins::error::PluginError;
use agent_plugins::host::{HostReply, HostRequest, Step};
use agent_plugins::payload::Payload;
use agent_plugins::plugin::Plugin;
use agent_plugins::plugins::filesystem::create_filesystem;
use agent_plugins::plugins::news::create_news;
use agent_plugins::registry::{assemble, Registry};
use agent_plugins::turn::{compose_context, notify_removed, ContextPass, PassStep};

/// Hooks that keep a record of what they were told.
struct Recording {
    name: &'static str,
    block: Option<&'static str>,
    fails: bool,
    log: Rc<RefCell<Vec<String>>>,
}

impl PluginCycle for Recording {
    fn create_context(
        &self,
        _context: &mut CommandContext,
        previous_prompt: Option<&str>,
    ) -> Result<Step<Option<String>>, PluginError> {
        self.log.borrow_mut().push(format!("{} context {:?}", self.name, previous_prompt));
        if self.fails {
            return Err(PluginError::Io { detail: format!("{} failed", self.name) });
        }
        Ok(Step::Done(self.block.map(|b| b.to_string())))
    }

    fn resume_context(
        &self,
        _context: &mut CommandContext,
        _previous_prompt: Option<&str>,
        _reply: HostReply,
    ) -> Result<Option<String>, PluginError> {
        Ok(None)
    }

    fn apply_removed_response(
        &self,
        _context: &mut CommandContext,
        response: &LLMResponse,
        cmd_output: &str,
        previous_response: bool,
    ) -> Result<(), PluginError> {
        self.log.borrow_mut().push(format!(
            "{} removed {} {} {}",
            self.name, response.content, cmd_output, previous_response
        ));
        if self.fails {
            return Err(PluginError::Io { detail: format!("{} failed", self.name) });
        }
        Ok(())
    }

    fn offers(&self, _value: Payload) -> bool {
        false
    }

    fn create_data(&self, _value: &Payload) -> Option<Box<dyn PluginData>> {
        None
    }
}

fn recording(name: &'static str, block: Option<&'static str>, fails: bool, log: &Rc<RefCell<Vec<String>>>) -> Plugin {
    Plugin {
        name: name.to_string(),
        dependencies: Vec::new(),
        cycle: Box::new(Recording { name, block, fails, log: log.clone() }),
        commands: Vec::new(),
    }
}

fn registry(plugins: Vec<Plugin>) -> Registry {
    match assemble(plugins) {
        Ok(registry) => registry,
        Err(e) => panic!("{:?}", e),
    }
}

fn context() -> CommandContext {
    CommandContext { plugin_data: PluginStore::new() }
}

#[test]
fn a_failing_plugin_does_not_keep_the_others_from_being_told() {
    let log = Rc::new(RefCell::new(Vec::new()));
    let reg = registry(vec![
        recording("one", None, false, &log),
        recording("two", None, true, &log),
        recording("three", None, false, &log),
    ]);
    let mut ctx = context();
    let response = LLMResponse { content: "reply".to_string() };
    let outcomes = notify_removed(&reg, &mut ctx, &response, "output", true);
    assert_eq!(
        outcomes,
        vec![Ok(()), Err(PluginError::Io { detail: "two failed".to_string() }), Ok(())]
    );
    assert_eq!(
        *log.borrow(),
        vec![
            "one removed reply output true".to_string(),
            "two removed reply output true".to_string(),
            "three removed reply output true".to_string(),
        ]
    );
}

#[test]
fn notify_removed_of_no_plugins_has_no_outcomes() {
    let reg = registry(Vec::new());
    let mut ctx = context();
    let response = LLMResponse { content: "r".to_string() };
    assert!(notify_removed(&reg, &mut ctx, &response, "o", false).is_empty());
}

#[test]
fn compose_context_puts_one_block_to_a_line() {
    assert_eq!(compose_context(&Vec::new()), "");
    assert_eq!(compose_context(&vec!["a".to_string()]), "a");
    assert_eq!(compose_context(&vec!["a".to_string(), "b".to_string()]), "a\nb");
}

#[test]
fn the_pass_gathers_the_blocks_in_the_order_of_the_registry() {
    let log = Rc::new(RefCell::new(Vec::new()));
    let reg = registry(vec![
        recording("one", Some("first block"), false, &log),
        recording("two", None, false, &log),
        recording("three", Some("third block"), false, &log),
    ]);
    let mut ctx = context();
    let mut pass = ContextPass::new();
    assert_eq!(
        pass.advance(&reg, &mut ctx, Some("before")),
        Ok(PassStep::Finished("first block\nthird block".to_string()))
    );
    assert_eq!(
        *log.borrow(),
        vec![
            "one context Some(\"before\")".to_string(),
            "two context Some(\"before\")".to_string(),
            "three context Some(\"before\")".to_string(),
        ]
    );
    assert_eq!(
        pass.advance(&reg, &mut ctx, None),
        Ok(PassStep::Finished("first block\nthird block".to_string()))
    );
    assert_eq!(log.borrow().len(), 3);
}

#[test]
fn the_pass_over_no_plugins_is_finished_with_nothing() {
    let reg = registry(Vec::new());
    let mut ctx = context();
    let mut pass = ContextPass::new();
    assert_eq!(pass.advance(&reg, &mut ctx, None), Ok(PassStep::Finished(String::new())));
    assert_eq!(pass.supply(&reg, &mut ctx, None, HostReply::Written), Ok(()));
}

#[test]
fn the_pass_waits_for_the_host_and_goes_on() {
    let log = Rc::new(RefCell::new(Vec::new()));
    let reg = registry(vec![
        recording("Browse", Some("browse ready"), false, &log),
        create_filesystem(),
        create_news(),
        recording("last", Some("last block"), false, &log),
    ]);
    let mut ctx = context();
    let mut pass = ContextPass::new();
    assert_eq!(
        pass.advance(&reg, &mut ctx, None),
        Ok(PassStep::Ask(HostRequest::List { directory: "files".to_string() }))
    );
    assert_eq!(log.borrow().len(), 1);
    assert_eq!(
        pass.supply(&reg, &mut ctx, None, HostReply::Entries(vec!["files/notes".to_string()])),
        Ok(())
    );
    assert_eq!(
        pass.advance(&reg, &mut ctx, None),
        Ok(PassStep::Finished(
            "browse ready\nFiles: files/notes (Consider reading these.)\nlast block".to_string()
        ))
    );
    assert_eq!(log.borrow().len(), 2);
}

#[test]
fn a_failure_of_the_host_ends_the_pass_at_that_plugin() {
    let reg = registry(vec![create_filesystem()]);
    let mut ctx = context();
    let mut pass = ContextPass::new();
    assert!(matches!(pass.advance(&reg, &mut ctx, None), Ok(PassStep::Ask(_))));
    assert_eq!(
        pass.supply(&reg, &mut ctx, None, HostReply::Failed("no directory".to_string())),
        Err(PluginError::Io { detail: "no directory".to_string() })
    );
    assert!(matches!(pass.advance(&reg, &mut ctx, None), Ok(PassStep::Ask(_))));
    assert_eq!(pass.supply(&reg, &mut ctx, None, HostReply::Entries(Vec::new())), Ok(()));
    assert_eq!(
        pass.advance(&reg, &mut ctx, None),
        Ok(PassStep::Finished("Files: No saved files.".to_string()))
    );
}

#[test]
fn a_failing_plugin_ends_the_pass() {
    let log = Rc::new(RefCell::new(Vec::new()));
    let reg = registry(vec![
        recording("one", Some("a"), false, &log),
        recording("two", Some("b"), true, &log),
        recording("three", Some("c"), false, &log),
    ]);
    let mut ctx = context();
    let mut pass = ContextPass::new();
    assert_eq!(
        pass.advance(&reg, &mut ctx, None),
        Err(PluginError::Io { detail: "two failed".to_string() })
    );
    assert_eq!(log.borrow().len(), 2);
}

#[test]
fn take_block_stands_for_the_plugin_whose_turn_it_is() {
    let log = Rc::new(RefCell::new(Vec::new()));
    let reg = registry(vec![
        recording("one", Some("a"), false, &log),
        recording("two", Some("b"), false, &log),
        recording("three", None, false, &log),
    ]);
    let mut ctx = context();
    let mut pass = ContextPass::new();
    pass.take_block(Some("by hand".to_string()));
    assert_eq!(
        pass.advance(&reg, &mut ctx, None),
        Ok(PassStep::Finished("by hand\nb".to_string()))
    );
    assert_eq!(
        *log.borrow(),
        vec!["two context None".to_string(), "three context None".to_string()]
    );
    pass.take_block(None);
    assert_eq!(
        pass.advance(&reg, &mut ctx, None),
        Ok(PassStep::Finished("by hand\nb".to_string()))
    );
}
