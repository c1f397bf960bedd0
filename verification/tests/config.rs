use binup::config::{Config, ConfigError, NamedTool};
use binup::github::GithubConfig;
use binup::tool::ToolSpec;
use binup::uninstall::{check_names, uninstalled_message, UninstallError};

fn spec(project: &str, path: Option<&str>) -> ToolSpec {
    ToolSpec {
        project: project.to_owned(),
        prerelease: false,
        changelog: None,
        release_matcher: None,
        binary_matcher: None,
        version_source: None,
        path: path.map(str::to_owned),
        post: None,
    }
}

fn config() -> Config {
    Config {
        path: "/home/user/.local/bin".to_owned(),
        tools: vec![
            NamedTool { name: "b".to_owned(), spec: spec("o/b", None) },
            NamedTool { name: "a".to_owned(), spec: spec("o/a", Some("/opt/bin")) },
        ],
        github: GithubConfig::default(),
    }
}

#[test]
fn tool_path_is_under_the_install_directory() {
    let config = config();
    assert_eq!(config.get_tool_path("b", &config.tools[0].spec), "/home/user/.local/bin/b");
    assert_eq!(config.get_tool_path("a", &config.tools[1].spec), "/opt/bin/a");
    assert_eq!(config.get_tool_path("x", &spec("o/x", Some("/opt/bin/"))), "/opt/bin/x");
}

#[test]
fn tools_are_found_by_name() {
    let config = config();
    assert_eq!(config.find("b"), Some(0));
    assert_eq!(config.find("a"), Some(1));
    assert_eq!(config.find("c"), None);
    assert_eq!(config.names(), ["b", "a"]);
}

#[test]
fn update_replaces_in_place() {
    let mut config = config();
    config.update_tool("b", spec("other/b", None));
    assert_eq!(config.names(), ["b", "a"]);
    assert_eq!(config.tools[0].spec.project, "other/b");
    assert_eq!(config.tools[1].spec.project, "o/a");
    assert_eq!(config.path, "/home/user/.local/bin");
}

#[test]
fn update_puts_a_new_tool_where_its_name_belongs() {
    let mut config = Config {
        path: "/bin".to_owned(),
        tools: Vec::new(),
        github: GithubConfig::default(),
    };
    for name in ["m", "b", "x", "a", "ma", "B", "", "mb", "é", "m"] {
        config.update_tool(name, spec(&format!("o/{name}"), None));
    }
    let names = config.names();
    assert_eq!(names, ["", "B", "a", "b", "m", "ma", "mb", "x", "é"]);
    let mut sorted = names.clone();
    sorted.sort();
    sorted.dedup();
    assert_eq!(names, sorted);
    for tool in &config.tools {
        assert_eq!(tool.spec.project, format!("o/{}", tool.name));
    }
    assert_eq!(config.remove_tool("m"), Ok(()));
    assert_eq!(config.names(), ["", "B", "a", "b", "ma", "mb", "x", "é"]);
}

#[test]
fn update_of_tools_out_of_order_puts_before_the_first_later_name() {
    let mut config = config();
    config.update_tool("c", spec("o/c", None));
    assert_eq!(config.names(), ["b", "a", "c"]);
    config.update_tool("aa", spec("o/aa", None));
    assert_eq!(config.names(), ["aa", "b", "a", "c"]);
}

#[test]
fn remove_takes_the_tool_out() {
    let mut config = config();
    assert_eq!(config.remove_tool("c"), Err(ConfigError::NoSuchTool));
    assert_eq!(config.names(), ["b", "a"]);
    assert_eq!(config.remove_tool("b"), Ok(()));
    assert_eq!(config.names(), ["a"]);
    assert_eq!(config.remove_tool("b"), Err(ConfigError::NoSuchTool));
    assert_eq!(
        ConfigError::NoSuchTool.message(),
        "Unable to find the tool in the configuration file"
    );
}

#[test]
fn uninstall_wants_configured_tools() {
    let configured = config().names();
    assert_eq!(check_names(&configured, &vec!["a".to_owned(), "b".to_owned()]), Ok(()));
    assert_eq!(check_names(&configured, &Vec::new()), Ok(()));
    let error =
        check_names(&configured, &vec!["x".to_owned(), "a".to_owned(), "y".to_owned()]).unwrap_err();
    assert_eq!(
        error,
        UninstallError::UnknownTools { names: vec!["x".to_owned(), "y".to_owned()] }
    );
    assert_eq!(
        error.message(),
        "The following tools aren't specified in the configuration file: x, y"
    );
}

#[test]
fn uninstall_messages() {
    assert_eq!(uninstalled_message("tool", "/bin/tool", true), "tool (/bin/tool) is uninstalled.");
    assert_eq!(uninstalled_message("tool", "/bin/tool", false), "tool is uninstalled.");
}
