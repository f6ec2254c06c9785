use agent_plugins::args::ArgumentMap;
use agent_plugins::plugins::filesystem::file_argument;
use agent_plugins::plugins::news::news_argument;
use agent_plugins::error::{
    io_failure, missing_argument, not_registered, not_supported, unexpected_reply, AssemblyError,
    PluginError,
};
use agent_plugins::text::{appended, join, same_text, split_prefix, trim_prefix};

fn pair(a: &str, b: &str) -> (String, String) {
    (a.to_string(), b.to_string())
}

#[test]
fn join_puts_the_separator_between_neighbours() {
    let parts = vec!["a".to_string(), "b".to_string(), "c".to_string()];
    assert_eq!(join(&parts, ", "), "a, b, c");
}

#[test]
fn join_of_nothing_is_empty() {
    assert_eq!(join(&Vec::new(), ", "), "");
}

#[test]
fn join_of_one_part_has_no_separator() {
    assert_eq!(join(&vec!["only".to_string()], ", "), "only");
}

#[test]
fn join_keeps_empty_parts() {
    let parts = vec!["".to_string(), "x".to_string(), "".to_string()];
    assert_eq!(join(&parts, "-"), "-x-");
}

#[test]
fn appended_appends() {
    assert_eq!(appended("files/", "notes"), "files/notes");
    assert_eq!(appended("", ""), "");
}

#[test]
fn same_text_compares_characters() {
    assert!(same_text("query", "query"));
    assert!(!same_text("query", "Query"));
    assert!(!same_text("query", "quer"));
    assert!(same_text("", ""));
}

#[test]
fn trim_prefix_drops_a_prefix_that_is_there() {
    assert_eq!(trim_prefix("files/notes", "files/"), "notes");
    assert_eq!(trim_prefix("files/", "files/"), "");
}

#[test]
fn trim_prefix_keeps_a_text_without_the_prefix() {
    assert_eq!(trim_prefix("notes", "files/"), "notes");
    assert_eq!(trim_prefix("file", "files/"), "file");
    assert_eq!(trim_prefix("my/files/notes", "files/"), "my/files/notes");
}

#[test]
fn split_prefix_says_whether_the_prefix_stands_in_front() {
    assert_eq!(split_prefix("./files/notes", "./files/"), Some("notes"));
    assert_eq!(split_prefix("./files/", "./files/"), Some(""));
    assert_eq!(split_prefix("notes", ""), Some("notes"));
    assert_eq!(split_prefix("./notes", "./files/"), None);
    assert_eq!(split_prefix("./file", "./files/"), None);
    assert_eq!(split_prefix("", "files/"), None);
}

#[test]
fn trim_prefix_drops_the_prefix_once() {
    assert_eq!(trim_prefix("files/files/notes", "files/"), "files/notes");
}

#[test]
fn new_argument_map_is_empty() {
    let args = ArgumentMap::new();
    assert!(!args.contains_key("path"));
    assert_eq!(args.get("path"), None);
}

#[test]
fn insert_then_get() {
    let mut args = ArgumentMap::new();
    args.insert("path".to_string(), "notes".to_string());
    args.insert("content".to_string(), "hello".to_string());
    assert_eq!(args.get("path"), Some(&"notes".to_string()));
    assert_eq!(args.get("content"), Some(&"hello".to_string()));
    assert!(args.contains_key("path"));
    assert!(!args.contains_key("query"));
}

#[test]
fn insert_replaces_the_value_of_a_name() {
    let mut args = ArgumentMap::new();
    args.insert("path".to_string(), "old".to_string());
    args.insert("content".to_string(), "c".to_string());
    args.insert("path".to_string(), "new".to_string());
    assert_eq!(args.get("path"), Some(&"new".to_string()));
    assert_eq!(args.get("content"), Some(&"c".to_string()));
}

#[test]
fn from_pairs_lets_the_later_pair_count() {
    let args = ArgumentMap::from_pairs(vec![pair("q", "one"), pair("p", "x"), pair("q", "two")]);
    assert_eq!(args.get("q"), Some(&"two".to_string()));
    assert_eq!(args.get("p"), Some(&"x".to_string()));
    let mut expected = ArgumentMap::new();
    expected.insert("q".to_string(), "two".to_string());
    expected.insert("p".to_string(), "x".to_string());
    assert_eq!(args, expected);
}

#[test]
fn an_argument_is_its_value_or_the_missing_argument() {
    let args = ArgumentMap::from_pairs(vec![pair("path", "notes")]);
    assert_eq!(file_argument(&args, "path"), Ok(&"notes".to_string()));
    assert_eq!(
        file_argument(&args, "content"),
        Err(PluginError::MissingArgument {
            family: "file".to_string(),
            parameter: "content".to_string()
        })
    );
    assert_eq!(news_argument(&args, "path"), Ok(&"notes".to_string()));
    assert_eq!(
        news_argument(&args, "query"),
        Err(PluginError::MissingArgument {
            family: "news".to_string(),
            parameter: "query".to_string()
        })
    );
}

#[test]
fn assembly_faults_read_as_text() {
    assert_eq!(
        AssemblyError::DuplicatePlugin { plugin: "A".to_string() }.message(),
        "two plugins are named 'A'."
    );
    assert_eq!(
        AssemblyError::UnresolvedDependency {
            plugin: "NewsAPI".to_string(),
            dependency: "Browse".to_string()
        }
        .message(),
        "the 'NewsAPI' plugin depends on 'Browse', which no other plugin is named."
    );
    assert_eq!(
        AssemblyError::DuplicateCommand { command: "run".to_string() }.message(),
        "two commands are named 'run'."
    );
}

#[test]
fn error_constructors_fill_the_fields() {
    assert_eq!(
        missing_argument("news", "query"),
        PluginError::MissingArgument { family: "news".to_string(), parameter: "query".to_string() }
    );
    assert_eq!(
        not_registered("Browse"),
        PluginError::PluginNotRegistered { plugin: "Browse".to_string() }
    );
    assert_eq!(
        not_supported("NewsAPI", "fly"),
        PluginError::OperationNotSupported {
            plugin: "NewsAPI".to_string(),
            operation: "fly".to_string()
        }
    );
    assert_eq!(io_failure("disk full"), PluginError::Io { detail: "disk full".to_string() });
    assert_eq!(
        unexpected_reply(),
        PluginError::Io {
            detail: "the host gave a reply of another kind than was asked for.".to_string()
        }
    );
}

#[test]
fn error_messages_read_as_text() {
    assert_eq!(
        missing_argument("file", "path").message(),
        "one of the 'file' commands did not receive enough info."
    );
    assert_eq!(
        not_registered("Browse").message(),
        "the 'Browse' plugin has no registered data."
    );
    assert_eq!(
        not_supported("NewsAPI", "fly").message(),
        "the 'NewsAPI' plugin's data does not have 'fly' invocation."
    );
    assert_eq!(
        PluginError::DecodeMismatch.message(),
        "the plugin's reply does not have the expected shape."
    );
    assert_eq!(io_failure("disk full").message(), "disk full");
    assert_eq!(
        PluginError::CommandNotFound { command: "fly".to_string() }.message(),
        "there is no command named 'fly'."
    );
}

#[test]
fn the_error_kinds_are_told_apart() {
    let kinds = vec![
        missing_argument("file", "path"),
        not_registered("Browse"),
        not_supported("Browse", "fly"),
        PluginError::DecodeMismatch,
        io_failure("x"),
        PluginError::CommandNotFound { command: "fly".to_string() },
    ];
    for (i, a) in kinds.iter().enumerate() {
        for (j, b) in kinds.iter().enumerate() {
            assert_eq!(a == b, i == j);
        }
    }
}
