use runixeer::config::Configuration;
use runixeer::plugin::{Plugin, PluginConfiguration};
use runixeer::pm::{PluginManager, PluginManagerError};

fn plugin(name: &str, enabled: bool) -> PluginConfiguration {
    PluginConfiguration {
        name: name.to_string(),
        enabled,
        exec_path: format!("/usr/bin/{}", name),
        socket_path: format!("/tmp/{}.sock", name),
        arguments: None,
    }
}

fn manager(default_plugin: Option<&str>, plugins: Vec<PluginConfiguration>) -> PluginManager {
    let configuration =
        Configuration { default_plugin: default_plugin.map(|s| s.to_string()), plugins };
    match PluginManager::from_configuration(configuration) {
        Ok(pm) => pm,
        Err(e) => panic!("no manager: {:?}", e),
    }
}

#[test]
fn default_is_first_enabled_plugin() {
    let pm = manager(None, vec![plugin("a", false), plugin("b", true), plugin("c", true)]);
    assert_eq!(pm.default_plugin, "b");
    assert!(pm.has_default_plugin());
    assert_eq!(pm.get_default_plugin().name, "b");
}

#[test]
fn configured_default_wins_over_first_enabled() {
    let pm = manager(Some("c"), vec![plugin("a", true), plugin("b", true), plugin("c", false)]);
    assert_eq!(pm.default_plugin, "c");
    assert_eq!(pm.get_default_plugin().name, "c");
    assert!(!pm.get_default_plugin().enabled);
}

#[test]
fn configured_default_needs_no_enabled_plugin() {
    let pm = manager(Some("a"), vec![plugin("a", false)]);
    assert_eq!(pm.default_plugin, "a");
}

#[test]
fn configured_default_may_name_no_plugin() {
    let pm = manager(Some("ghost"), vec![plugin("a", true)]);
    assert_eq!(pm.default_plugin, "ghost");
    assert!(!pm.has_default_plugin());
}

#[test]
fn construction_fails_without_default_and_enabled_plugin() {
    let configuration = Configuration {
        default_plugin: None,
        plugins: vec![plugin("a", false), plugin("b", false)],
    };
    let result = PluginManager::from_configuration(configuration);
    assert!(matches!(result, Err(PluginManagerError::NotEvenOneEnabledPlugin)));
}

#[test]
fn construction_fails_on_empty_configuration() {
    let configuration = Configuration { default_plugin: None, plugins: vec![] };
    let result = PluginManager::from_configuration(configuration);
    assert!(matches!(result, Err(PluginManagerError::NotEvenOneEnabledPlugin)));
}

#[test]
fn registry_holds_every_plugin_not_loaded() {
    let pm = manager(None, vec![plugin("a", true), plugin("b", false)]);
    assert_eq!(pm.plugins.len(), 2);
    assert_eq!(pm.plugins[0].name, "a");
    assert_eq!(pm.plugins[1].name, "b");
    assert!(pm.plugins.iter().all(|p| !p.loaded));
    assert_eq!(pm.plugins[0].exec_path, "/usr/bin/a");
    assert_eq!(pm.plugins[1].socket_path, "/tmp/b.sock");
}

#[test]
fn later_description_replaces_earlier_one_of_same_name() {
    let mut second = plugin("a", false);
    second.exec_path = "/opt/a".to_string();
    let pm = manager(None, vec![plugin("a", true), plugin("b", true), second]);
    assert_eq!(pm.plugins.len(), 2);
    assert_eq!(pm.plugins[0].name, "a");
    assert_eq!(pm.plugins[0].exec_path, "/opt/a");
    assert!(!pm.plugins[0].enabled);
    assert_eq!(pm.plugins[1].name, "b");
    assert_eq!(pm.default_plugin, "a");
}

#[test]
fn find_gives_the_position() {
    let pm = manager(None, vec![plugin("a", true), plugin("b", false)]);
    assert_eq!(pm.find(&"b".to_string()), Some(1));
    assert_eq!(pm.find(&"z".to_string()), None);
    assert!(pm.has_plugin(&"a".to_string()));
    assert!(!pm.has_plugin(&"z".to_string()));
}

#[test]
fn start_plugin_missing_name_changes_nothing() {
    let mut pm = manager(None, vec![plugin("a", true)]);
    let result = pm.start_plugin("missing".to_string(), true);
    match result {
        Err(PluginManagerError::PluginNotFoundInConfiguration(name)) => assert_eq!(name, "missing"),
        other => panic!("unexpected: {:?}", other),
    }
    assert_eq!(pm.plugins.len(), 1);
    assert!(!pm.plugins[0].loaded);
    assert_eq!(pm.default_plugin, "a");
}

#[test]
fn start_plugin_missing_executable_does_not_load() {
    let mut pm = manager(None, vec![plugin("a", true), plugin("b", true)]);
    let result = pm.start_plugin("b".to_string(), false);
    match result {
        Err(PluginManagerError::ExecNotFound(name)) => assert_eq!(name, "b"),
        other => panic!("unexpected: {:?}", other),
    }
    assert!(!pm.plugins[0].loaded);
    assert!(!pm.plugins[1].loaded);
}

#[test]
fn start_plugin_marks_loaded_and_hands_back_the_launch() {
    let mut with_arguments = plugin("b", false);
    with_arguments.arguments = Some(vec!["--fast".to_string(), "x".to_string()]);
    let mut pm = manager(None, vec![plugin("a", true), with_arguments]);
    let request = match pm.start_plugin("b".to_string(), true) {
        Ok(request) => request,
        Err(e) => panic!("unexpected: {:?}", e),
    };
    assert_eq!(request.name, "b");
    assert_eq!(request.exec_path, "/usr/bin/b");
    assert_eq!(request.arguments, Some(vec!["--fast".to_string(), "x".to_string()]));
    assert!(!pm.plugins[0].loaded);
    assert!(pm.plugins[1].loaded);
    assert_eq!(pm.plugins[1].name, "b");
    assert_eq!(pm.plugins[1].arguments, Some(vec!["--fast".to_string(), "x".to_string()]));
}

#[test]
fn batch_start_gives_one_error_per_missing_executable() {
    let mut pm = manager(
        None,
        vec![plugin("a", true), plugin("b", false), plugin("c", true), plugin("d", true)],
    );
    let batch = pm.start_enabled_plugins(&vec![true, true, false, true]);
    assert!(!batch.is_success());
    assert_eq!(batch.errors.len(), 1);
    match &batch.errors[0] {
        PluginManagerError::ExecNotFound(name) => assert_eq!(name, "c"),
        other => panic!("unexpected: {:?}", other),
    }
    assert_eq!(batch.launches.len(), 2);
    assert_eq!(batch.launches[0].name, "a");
    assert_eq!(batch.launches[0].exec_path, "/usr/bin/a");
    assert_eq!(batch.launches[1].name, "d");
    let loaded: Vec<bool> = pm.plugins.iter().map(|p| p.loaded).collect();
    assert_eq!(loaded, vec![true, false, false, true]);
}

#[test]
fn batch_start_without_failures_is_success() {
    let mut pm = manager(None, vec![plugin("a", true), plugin("b", true)]);
    let batch = pm.start_enabled_plugins(&vec![true, true]);
    assert!(batch.is_success());
    assert_eq!(batch.errors.len(), 0);
    assert_eq!(batch.launches.len(), 2);
    assert!(pm.plugins.iter().all(|p| p.loaded));
}

#[test]
fn batch_start_counts_an_unprobed_plugin_as_missing() {
    let mut pm = manager(None, vec![plugin("a", true), plugin("b", true)]);
    let batch = pm.start_enabled_plugins(&vec![true]);
    assert_eq!(batch.launches.len(), 1);
    assert_eq!(batch.errors.len(), 1);
    match &batch.errors[0] {
        PluginManagerError::ExecNotFound(name) => assert_eq!(name, "b"),
        other => panic!("unexpected: {:?}", other),
    }
    assert!(pm.plugins[0].loaded);
    assert!(!pm.plugins[1].loaded);
}

#[test]
fn batch_start_skips_disabled_plugins() {
    let mut pm = manager(Some("a"), vec![plugin("a", false), plugin("b", false)]);
    let batch = pm.start_enabled_plugins(&vec![false, true]);
    assert!(batch.is_success());
    assert_eq!(batch.launches.len(), 0);
    assert!(pm.plugins.iter().all(|p| !p.loaded));
}

#[test]
fn exit_one_asks_to_send_terminate() {
    let mut pm = manager(None, vec![plugin("a", true), plugin("b", true)]);
    let request = match pm.exit_one("b".to_string()) {
        Ok(request) => request,
        Err(e) => panic!("unexpected: {:?}", e),
    };
    assert_eq!(request.name, "b");
    assert_eq!(request.socket_path, "/tmp/b.sock");
    assert_eq!(request.payload, "Terminate");
}

#[test]
fn exit_one_of_unknown_plugin_fails() {
    let mut pm = manager(None, vec![plugin("a", true)]);
    match pm.exit_one("missing".to_string()) {
        Err(PluginManagerError::PluginNotFoundInConfiguration(name)) => assert_eq!(name, "missing"),
        other => panic!("unexpected: {:?}", other),
    }
    assert_eq!(pm.plugins.len(), 1);
}

#[test]
fn exit_requests_cover_loaded_plugins_only() {
    let mut pm = manager(None, vec![plugin("a", true), plugin("b", false), plugin("c", true)]);
    let _ = pm.start_enabled_plugins(&vec![true, true, true]);
    let requests = pm.exit_requests();
    assert_eq!(requests.len(), 3);
    assert_eq!(requests[0].as_ref().map(|r| r.socket_path.as_str()), Some("/tmp/a.sock"));
    assert_eq!(requests[0].as_ref().map(|r| r.payload.as_str()), Some("Terminate"));
    assert!(requests[1].is_none());
    assert_eq!(requests[2].as_ref().map(|r| r.name.as_str()), Some("c"));
}

#[test]
fn exit_all_gives_one_error_per_unreachable_loaded_plugin() {
    let mut pm = manager(
        None,
        vec![plugin("a", true), plugin("b", false), plugin("c", true), plugin("d", true)],
    );
    let _ = pm.start_enabled_plugins(&vec![true, true, true, true]);
    let outcomes = vec![
        None,
        Some("ignored: not loaded".to_string()),
        Some("connection refused".to_string()),
        Some("no such file".to_string()),
    ];
    match pm.exit_all(&outcomes) {
        Err(errors) => {
            assert_eq!(errors.len(), 2);
            match &errors[0] {
                PluginManagerError::SocketError(name, cause) => {
                    assert_eq!(name, "c");
                    assert_eq!(cause, "connection refused");
                },
                other => panic!("unexpected: {:?}", other),
            }
            match &errors[1] {
                PluginManagerError::SocketError(name, cause) => {
                    assert_eq!(name, "d");
                    assert_eq!(cause, "no such file");
                },
                other => panic!("unexpected: {:?}", other),
            }
        },
        Ok(()) => panic!("two plugins were unreachable"),
    }
}

#[test]
fn exit_all_with_nothing_loaded_is_success() {
    let pm = manager(None, vec![plugin("a", true)]);
    assert!(pm.exit_all(&vec![Some("unreachable".to_string())]).is_ok());
}

#[test]
fn exit_all_with_every_send_delivered_is_success() {
    let mut pm = manager(None, vec![plugin("a", true), plugin("b", true)]);
    let _ = pm.start_enabled_plugins(&vec![true, true]);
    assert!(pm.exit_all(&vec![None, None]).is_ok());
    assert!(pm.exit_all(&vec![]).is_ok());
}

#[test]
fn plugin_from_configuration_is_not_loaded() {
    let mut config = plugin("a", true);
    config.arguments = Some(vec!["-v".to_string()]);
    let made = Plugin::from(config);
    assert_eq!(made.name, "a");
    assert!(made.enabled);
    assert!(!made.loaded);
    assert_eq!(made.exec_path, "/usr/bin/a");
    assert_eq!(made.socket_path, "/tmp/a.sock");
    assert_eq!(made.arguments, Some(vec!["-v".to_string()]));
}

#[test]
fn configuration_from_plugin_keeps_the_description() {
    let mut made = Plugin::from(plugin("a", true));
    made.mark_loaded();
    assert!(made.loaded);
    made.mark_unloaded();
    assert!(!made.loaded);
    made.mark_loaded();
    let config = PluginConfiguration::from(made);
    assert_eq!(config.name, "a");
    assert!(config.enabled);
    assert_eq!(config.exec_path, "/usr/bin/a");
    assert_eq!(config.socket_path, "/tmp/a.sock");
    assert_eq!(config.arguments, None);
}

#[test]
fn plugin_from_borrowed_configuration_copies_every_field() {
    let mut config = plugin("a", false);
    config.arguments = Some(vec!["one".to_string(), "two".to_string()]);
    let made = Plugin::from_configuration(&config);
    assert_eq!(made.name, config.name);
    assert_eq!(made.enabled, config.enabled);
    assert!(!made.loaded);
    assert_eq!(made.exec_path, config.exec_path);
    assert_eq!(made.socket_path, config.socket_path);
    assert_eq!(made.arguments, config.arguments);
}

#[test]
fn plugin_exited_marks_the_plugin_unloaded() {
    let mut pm = manager(None, vec![plugin("a", true), plugin("b", true)]);
    let _ = pm.start_enabled_plugins(&vec![true, true]);
    assert!(pm.plugin_exited(&"a".to_string()));
    assert!(!pm.plugins[0].loaded);
    assert!(pm.plugins[1].loaded);
    assert!(!pm.plugin_exited(&"missing".to_string()));
    assert!(pm.plugins[1].loaded);
    let requests = pm.exit_requests();
    assert!(requests[0].is_none());
    assert!(requests[1].is_some());
}
