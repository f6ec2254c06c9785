use agent_plugins::args::ArgumentMap;
use agent_plugins::command::{Command, CommandContext, CommandImpl};
use agent_plugins::cycle::EmptyCycle;
use agent_plugins::data::{decode_reply, invoke, PluginData, PluginStore};
use agent_plugins::error::{AssemblyError, PluginError};
use agent_plugins::host::{HostReply, Step};
use agent_plugins::payload::{Decode, Encode, Payload};
use agent_plugins::plugin::{parameter, Plugin};
use agent_plugins::plugins::filesystem::create_filesystem;
use agent_plugins::plugins::news::{create_news, NewsData};
use agent_plugins::payload::field_in;
use agent_plugins::registry::{
    assemble, command_name_list, first_duplicate, first_unresolved_dependency, plugin_name_list,
    resolves_in,
};

/// A command that gives back a fixed text and needs the parameter `x`.
struct Fixed(&'static str);

impl CommandImpl for Fixed {
    fn needs(&self, parameter: &str) -> bool {
        parameter == "x"
    }

    fn invoke(&self, _ctx: &mut CommandContext, args: &ArgumentMap) -> Result<Step<String>, PluginError> {
        match args.get("x") {
            Some(_) => Ok(Step::Done(self.0.to_string())),
            None => Err(PluginError::MissingArgument {
                family: "fixed".to_string(),
                parameter: "x".to_string(),
            }),
        }
    }

    fn resume(&self, _ctx: &mut CommandContext, _args: &ArgumentMap, _reply: HostReply) -> Result<String, PluginError> {
        Ok(self.0.to_string())
    }
}

/// A capability that answers every operation with the value it was given.
struct Echo;

impl PluginData for Echo {
    fn supports(&self, _operation: &str) -> bool {
        true
    }

    fn apply(&mut self, _name: &str, value: Payload) -> Result<Payload, PluginError> {
        Ok(value)
    }
}

fn plugin(name: &str, dependencies: &[&str], commands: &[&str]) -> Plugin {
    Plugin {
        name: name.to_string(),
        dependencies: dependencies.iter().map(|d| d.to_string()).collect(),
        cycle: Box::new(EmptyCycle),
        commands: commands
            .iter()
            .map(|c| Command {
                name: c.to_string(),
                purpose: "purpose".to_string(),
                args: Vec::new(),
                run: Box::new(Fixed("out")),
            })
            .collect(),
    }
}

fn fault_of(plugins: Vec<Plugin>) -> Option<AssemblyError> {
    assemble(plugins).err()
}

fn strings(items: &[&str]) -> Vec<String> {
    items.iter().map(|s| s.to_string()).collect()
}

#[test]
fn a_list_whose_dependencies_resolve_assembles() {
    let registry = match assemble(vec![
        plugin("Browse", &[], &["browse-page"]),
        plugin("News", &["Browse"], &["news"]),
        plugin("Digest", &["News", "Browse"], &[]),
    ]) {
        Ok(registry) => registry,
        Err(e) => panic!("{:?}", e),
    };
    assert_eq!(registry.plugins().len(), 3);
    assert_eq!(registry.plugins()[1].name, "News");
    for p in registry.plugins() {
        for d in &p.dependencies {
            assert!(registry.is_registered(d));
        }
    }
    assert!(!registry.is_registered("Missing"));
}

#[test]
fn the_empty_list_assembles() {
    assert!(assemble(Vec::new()).is_ok());
}

#[test]
fn dependencies_may_name_plugins_that_come_later_or_one_another() {
    assert!(assemble(vec![plugin("A", &["B"], &[]), plugin("B", &["A"], &[])]).is_ok());
}

#[test]
fn a_dependency_that_no_plugin_has_fails_the_assembly() {
    assert_eq!(
        fault_of(vec![plugin("Browse", &[], &[]), plugin("News", &["Browse", "Cache"], &[])]),
        Some(AssemblyError::UnresolvedDependency {
            plugin: "News".to_string(),
            dependency: "Cache".to_string()
        })
    );
}

#[test]
fn the_same_list_fails_the_same_way_every_time() {
    let first = fault_of(vec![plugin("A", &["X", "Y"], &[]), plugin("B", &["Z"], &[])]);
    let second = fault_of(vec![plugin("A", &["X", "Y"], &[]), plugin("B", &["Z"], &[])]);
    assert_eq!(first, second);
    assert_eq!(
        first,
        Some(AssemblyError::UnresolvedDependency {
            plugin: "A".to_string(),
            dependency: "X".to_string()
        })
    );
}

#[test]
fn a_plugin_does_not_resolve_its_own_dependency() {
    assert_eq!(
        fault_of(vec![plugin("A", &["A"], &[])]),
        Some(AssemblyError::UnresolvedDependency {
            plugin: "A".to_string(),
            dependency: "A".to_string()
        })
    );
}

#[test]
fn two_plugins_of_one_name_fail_the_assembly() {
    assert_eq!(
        fault_of(vec![plugin("A", &[], &[]), plugin("B", &["Nothing"], &[]), plugin("A", &[], &[])]),
        Some(AssemblyError::DuplicatePlugin { plugin: "A".to_string() })
    );
}

#[test]
fn two_commands_of_one_name_fail_the_assembly() {
    assert_eq!(
        fault_of(vec![plugin("A", &[], &["run", "stop"]), plugin("B", &[], &["go", "stop"])]),
        Some(AssemblyError::DuplicateCommand { command: "stop".to_string() })
    );
    assert_eq!(
        fault_of(vec![plugin("A", &[], &["run", "run"])]),
        Some(AssemblyError::DuplicateCommand { command: "run".to_string() })
    );
}

#[test]
fn a_dependency_fault_is_reported_before_a_command_fault() {
    assert_eq!(
        fault_of(vec![plugin("A", &["Gone"], &["run", "run"])]),
        Some(AssemblyError::UnresolvedDependency {
            plugin: "A".to_string(),
            dependency: "Gone".to_string()
        })
    );
}

#[test]
fn first_duplicate_finds_the_first_repeated_place() {
    assert_eq!(first_duplicate(&strings(&["a", "b", "c"])), None);
    assert_eq!(first_duplicate(&strings(&[])), None);
    assert_eq!(first_duplicate(&strings(&["a", "b", "a", "b"])), Some(2));
    assert_eq!(first_duplicate(&strings(&["a", "a"])), Some(1));
    assert_eq!(first_duplicate(&strings(&["a", "b", "c", "c", "a"])), Some(3));
}

#[test]
fn name_lists_keep_the_order_of_the_plugins() {
    let plugins = vec![plugin("A", &[], &["one", "two"]), plugin("B", &[], &[]), plugin("C", &[], &["three"])];
    assert_eq!(plugin_name_list(&plugins), strings(&["A", "B", "C"]));
    assert_eq!(command_name_list(&plugins), strings(&["one", "two", "three"]));
    assert_eq!(command_name_list(&Vec::new()), Vec::<String>::new());
}

#[test]
fn resolves_in_looks_at_the_other_plugins() {
    let plugins = vec![plugin("A", &[], &[]), plugin("B", &[], &[])];
    assert!(resolves_in(&plugins, 0, "B"));
    assert!(!resolves_in(&plugins, 1, "B"));
    assert!(!resolves_in(&plugins, 0, "C"));
    assert!(resolves_in(&plugins, 7, "A"));
}

#[test]
fn first_unresolved_dependency_goes_by_the_order_of_the_list() {
    let plugins = vec![plugin("A", &["B"], &[]), plugin("B", &["A", "X", "Y"], &[]), plugin("C", &["Z"], &[])];
    assert_eq!(first_unresolved_dependency(&plugins), Some((1, 1)));
    assert_eq!(first_unresolved_dependency(&vec![plugin("A", &[], &[])]), None);
}

#[test]
fn find_command_gives_the_place_of_a_command() {
    let registry = match assemble(vec![plugin("A", &[], &["one", "two"]), plugin("B", &[], &["three"])]) {
        Ok(registry) => registry,
        Err(e) => panic!("{:?}", e),
    };
    assert_eq!(registry.find_command("one"), Some((0, 0)));
    assert_eq!(registry.find_command("two"), Some((0, 1)));
    assert_eq!(registry.find_command("three"), Some((1, 0)));
    assert_eq!(registry.find_command("four"), None);
}

#[test]
fn run_command_runs_the_command_of_that_name() {
    let registry = match assemble(vec![plugin("A", &[], &["one"])]) {
        Ok(registry) => registry,
        Err(e) => panic!("{:?}", e),
    };
    let mut ctx = CommandContext { plugin_data: PluginStore::new() };
    let args = ArgumentMap::from_pairs(vec![("x".to_string(), "1".to_string())]);
    assert_eq!(registry.run_command(&mut ctx, "one", &args), Ok(Step::Done("out".to_string())));
    assert_eq!(
        registry.resume_command(&mut ctx, "one", &args, HostReply::Written),
        Ok("out".to_string())
    );
}

#[test]
fn run_command_of_an_unknown_name_is_a_failure() {
    let registry = match assemble(vec![plugin("A", &[], &["one"])]) {
        Ok(registry) => registry,
        Err(e) => panic!("{:?}", e),
    };
    let mut ctx = CommandContext { plugin_data: PluginStore::new() };
    let args = ArgumentMap::new();
    assert_eq!(
        registry.run_command(&mut ctx, "two", &args),
        Err(PluginError::CommandNotFound { command: "two".to_string() })
    );
    assert_eq!(
        registry.resume_command(&mut ctx, "two", &args, HostReply::Written),
        Err(PluginError::CommandNotFound { command: "two".to_string() })
    );
}

#[test]
fn run_command_without_a_needed_argument_is_a_missing_argument() {
    let registry = match assemble(vec![plugin("A", &[], &["one"]), create_filesystem()]) {
        Ok(registry) => registry,
        Err(e) => panic!("{:?}", e),
    };
    let mut ctx = CommandContext { plugin_data: PluginStore::new() };
    assert_eq!(
        registry.run_command(&mut ctx, "one", &ArgumentMap::new()),
        Err(PluginError::MissingArgument { family: "fixed".to_string(), parameter: "x".to_string() })
    );
    assert_eq!(
        registry.run_command(&mut ctx, "file-read", &ArgumentMap::new()),
        Err(PluginError::MissingArgument { family: "file".to_string(), parameter: "path".to_string() })
    );
}

#[test]
fn create_store_keeps_what_the_plugins_offer() {
    let browse = plugin("Browse", &[], &[]);
    let registry = match assemble(vec![browse, create_news(), create_filesystem()]) {
        Ok(registry) => registry,
        Err(e) => panic!("{:?}", e),
    };
    let configs = vec![(
        "NewsAPI".to_string(),
        Payload::Record(vec![("api key".to_string(), Payload::Text("k".to_string()))]),
    )];
    let mut store = registry.create_store(&configs);
    assert!(store.has_data("NewsAPI"));
    assert!(!store.has_data("Browse"));
    assert!(!store.has_data("File System"));
    assert_eq!(
        store.get_data("Browse").err(),
        Some(PluginError::PluginNotRegistered { plugin: "Browse".to_string() })
    );
    let key = invoke::<String, bool>(store.get_data("NewsAPI").unwrap(), "get api key", &true);
    assert_eq!(key, Ok("k".to_string()));

    let unconfigured = registry.create_store(&Vec::new());
    assert!(!unconfigured.has_data("NewsAPI"));
}

#[test]
fn a_dependency_without_a_capability_is_registered_and_has_no_data() {
    let registry = match assemble(vec![create_filesystem(), plugin("Notes", &["File System"], &[])]) {
        Ok(registry) => registry,
        Err(e) => panic!("{:?}", e),
    };
    assert!(registry.is_registered("File System"));
    let mut store = registry.create_store(&Vec::new());
    assert!(!store.has_data("File System"));
    assert_eq!(
        store.get_data("File System").err(),
        Some(PluginError::PluginNotRegistered { plugin: "File System".to_string() })
    );
}

#[test]
fn field_in_gives_the_first_configuration_of_a_name() {
    let configs = vec![
        ("A".to_string(), Payload::Bool(true)),
        ("B".to_string(), Payload::Null),
        ("A".to_string(), Payload::Bool(false)),
    ];
    assert_eq!(field_in(&configs, "A"), Some(&Payload::Bool(true)));
    assert_eq!(field_in(&configs, "B"), Some(&Payload::Null));
    assert_eq!(field_in(&configs, "C"), None);
}

#[test]
fn the_store_keeps_one_capability_under_a_name() {
    let mut store = PluginStore::new();
    assert!(!store.has_data("Keys"));
    store.insert("Keys".to_string(), Box::new(NewsData { api_key: "old".to_string() }));
    store.insert("Echo".to_string(), Box::new(Echo));
    store.insert("Keys".to_string(), Box::new(NewsData { api_key: "new".to_string() }));
    assert!(store.has_data("Keys"));
    assert!(store.has_data("Echo"));
    let key = invoke::<String, bool>(store.get_data("Keys").unwrap(), "get api key", &true);
    assert_eq!(key, Ok("new".to_string()));
}

#[test]
fn install_keeps_a_capability_that_is_offered() {
    let mut store = PluginStore::new();
    store.install("None", None);
    assert!(!store.has_data("None"));
    store.install("Echo", Some(Box::new(Echo)));
    assert!(store.has_data("Echo"));
}

#[test]
fn invoke_reads_the_answer_as_the_expected_type() {
    let mut echo: Box<dyn PluginData> = Box::new(Echo);
    assert_eq!(invoke::<String, String>(&mut echo, "any", &"text".to_string()), Ok("text".to_string()));
    assert_eq!(invoke::<bool, bool>(&mut echo, "any", &true), Ok(true));
    assert_eq!(invoke::<bool, bool>(&mut echo, "any", &false), Ok(false));
}

#[test]
fn invoke_of_a_value_of_another_shape_is_a_decode_failure() {
    let mut echo: Box<dyn PluginData> = Box::new(Echo);
    assert_eq!(invoke::<String, bool>(&mut echo, "any", &true), Err(PluginError::DecodeMismatch));
    assert_eq!(
        invoke::<bool, String>(&mut echo, "any", &"true".to_string()),
        Err(PluginError::DecodeMismatch)
    );
}

#[test]
fn invoke_of_an_unsupported_operation_is_not_passed_over() {
    let mut data: Box<dyn PluginData> = Box::new(NewsData { api_key: "k".to_string() });
    assert_eq!(
        invoke::<String, bool>(&mut data, "get key", &true),
        Err(PluginError::OperationNotSupported {
            plugin: "NewsAPI".to_string(),
            operation: "get key".to_string()
        })
    );
}

#[test]
fn decode_reply_keeps_a_failure_as_it_is() {
    let failure = PluginError::Io { detail: "down".to_string() };
    assert_eq!(decode_reply::<String>(Err(failure.clone())), Err(failure));
    assert_eq!(decode_reply::<String>(Ok(Payload::Text("t".to_string()))), Ok("t".to_string()));
    assert_eq!(decode_reply::<String>(Ok(Payload::Null)), Err(PluginError::DecodeMismatch));
    assert_eq!(
        decode_reply::<NewsData>(Ok(Payload::List(vec![Payload::Text("k".to_string())]))),
        Ok(NewsData { api_key: "k".to_string() })
    );
}

#[test]
fn texts_and_booleans_are_written_and_read_back() {
    assert_eq!("a".to_string().encode(), Payload::Text("a".to_string()));
    assert_eq!(true.encode(), Payload::Bool(true));
    assert_eq!(String::decode(&Payload::Text("a".to_string())), Some("a".to_string()));
    assert_eq!(String::decode(&Payload::Number("1".to_string())), None);
    assert_eq!(bool::decode(&Payload::Bool(false)), Some(false));
    assert_eq!(bool::decode(&Payload::Text("false".to_string())), None);
}

#[test]
fn field_gives_the_first_field_of_a_name() {
    let record = Payload::Record(vec![
        ("a".to_string(), Payload::Bool(true)),
        ("b".to_string(), Payload::Null),
        ("a".to_string(), Payload::Bool(false)),
    ]);
    assert_eq!(record.field("a"), Some(&Payload::Bool(true)));
    assert_eq!(record.field("b"), Some(&Payload::Null));
    assert_eq!(record.field("c"), None);
    assert_eq!(Payload::List(Vec::new()).field("a"), None);
    assert_eq!(Payload::Null.field("a"), None);
}

#[test]
fn parameter_pairs_a_name_with_its_description() {
    assert_eq!(parameter("path", "where"), ("path".to_string(), "where".to_string()));
}
