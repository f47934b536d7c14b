//! Configuration, request fields and workspaces.
use agent_daemon::adjacent_sessions::SessionWorkspace;
use agent_daemon::artifacts::workspace;
use agent_daemon::codec::{
    invalid_params, map_transcript_store_error, required_string, required_uuid,
    TranscriptStoreFailure,
};
use agent_daemon::config::{
    config_root_from_env, Config, DaemonConfig, DaemonConfigFile, DaemonStartupPolicy,
    ProviderConfig, ProviderKind, ReasoningEffort, DEFAULT_BIND, DEFAULT_RUNTIME_BIND,
};
use agent_daemon::interop::parse_json;

fn file(database_url: Option<&str>) -> DaemonConfigFile {
    DaemonConfigFile {
        database_url: database_url.map(str::to_string),
        bind: None,
        runtime_bind: None,
        default_parent_model: None,
    }
}

fn provider(model: &str) -> ProviderConfig {
    ProviderConfig {
        kind: ProviderKind::Claude,
        model: model.to_string(),
        reasoning_effort: ReasoningEffort::Medium,
        max_tokens: Some(123),
        prompt_cache: None,
    }
}

#[test]
fn resolves_component_scoped_xdg_config_root() {
    assert_eq!(
        config_root_from_env(Some("/tmp/xdg"), Some("/home/test")).expect("config root"),
        "/tmp/xdg/pi-relay/agentd"
    );
    assert_eq!(
        config_root_from_env(None, Some("/home/test")).expect("config root"),
        "/home/test/.config/pi-relay/agentd"
    );
    assert!(config_root_from_env(Some("relative"), None).is_err());
    assert!(config_root_from_env(None, Some("relative")).is_err());
}

#[test]
fn daemon_accepts_no_arguments() {
    let error = Config::locate(
        None,
        Some("/home/test"),
        &vec!["old-config.toml".to_string()],
    )
    .expect_err("daemon rejects arguments");
    assert!(error.message.contains("pi-agentd accepts no arguments"));
}

#[test]
fn roots_tell_what_is_missing() {
    let refused = |xdg, home| config_root_from_env(xdg, home).unwrap_err().message;
    assert_eq!(refused(Some("x"), Some("/h")), "XDG_CONFIG_HOME must be an absolute path");
    assert_eq!(refused(Some(""), Some("h")), "HOME must be an absolute path");
    assert_eq!(refused(None, None), "HOME is required when XDG_CONFIG_HOME is unset");
    assert_eq!(refused(None, Some("")), "HOME is required when XDG_CONFIG_HOME is unset");
    assert_eq!(
        config_root_from_env(Some(""), Some("/")).unwrap(),
        "/.config/pi-relay/agentd"
    );
}

#[test]
fn configuration_is_put_together() {
    let root = Config::locate(Some("/x"), None, &Vec::new()).unwrap();
    assert_eq!(Config::file(&root), "/x/pi-relay/agentd/config.toml");
    let error = Config::locate(Some("/x"), None, &vec!["a".to_string(), "b".to_string()])
        .unwrap_err();
    assert_eq!(
        error.message,
        "pi-agentd accepts no arguments; configure it in config.toml (unknown argument: a)"
    );
    let policy = DaemonStartupPolicy::try_from(file(Some("postgres://example"))).unwrap();
    let config = Config::with_policy(root, policy);
    assert_eq!(config.config_root, "/x/pi-relay/agentd");
    assert_eq!(config.database_url, "postgres://example");
    assert_eq!(config.bind, DEFAULT_BIND);
    assert_eq!(config.runtime_bind, DEFAULT_RUNTIME_BIND);
    assert_eq!(config.daemon_config, DaemonConfig::default());
    let model = config.daemon_config.default_parent_model;
    assert_eq!(model.kind, ProviderKind::OpenAi);
    assert_eq!(model.model, "gpt-5.6-sol");
    assert_eq!(model.reasoning_effort, ReasoningEffort::High);
}

#[test]
fn policies_keep_the_configured_provider() {
    let policy = DaemonStartupPolicy::try_from(DaemonConfigFile {
        bind: Some("127.0.0.1:9999".to_string()),
        runtime_bind: Some("127.0.0.1:9998".to_string()),
        default_parent_model: Some(provider("parent")),
        ..file(Some("postgres://example"))
    })
    .unwrap();
    assert_eq!(policy.bind, "127.0.0.1:9999");
    assert_eq!(policy.runtime_bind, "127.0.0.1:9998");
    assert_eq!(policy.daemon_config.default_parent_model, provider("parent"));
}

#[test]
fn policies_refuse_blanks() {
    let refused = |f| DaemonStartupPolicy::try_from(f).unwrap_err().message;
    let url = Some("postgres://example");
    assert_eq!(refused(file(None)), "database_url is required");
    assert_eq!(refused(file(Some(" "))), "database_url must not be blank");
    assert_eq!(
        refused(DaemonConfigFile { bind: Some("\t".to_string()), ..file(url) }),
        "bind must not be blank"
    );
    assert_eq!(
        refused(DaemonConfigFile { runtime_bind: Some(String::new()), ..file(url) }),
        "runtime_bind must not be blank"
    );
    assert_eq!(
        refused(DaemonConfigFile { default_parent_model: Some(provider(" ")), ..file(url) }),
        "default_parent_model.model must not be blank"
    );
}

#[test]
fn required_fields_are_read() {
    let params = parse_json(
        r#"{"name":"n","id":"67E55044-10B1-426F-9247-BB680E5FE0C8","odd":7,"bad":"zz"}"#,
    )
    .unwrap();
    assert_eq!(required_string(&params, "name").unwrap(), "n");
    for key in ["odd", "missing"] {
        let error = required_string(&params, key).unwrap_err();
        assert_eq!(error.code, "invalid_params");
        assert_eq!(error.message, format!("{key} is required"));
    }
    assert_eq!(
        required_uuid(&params, "id").unwrap(),
        0x67e5504410b1426f9247bb680e5fe0c8
    );
    assert_eq!(required_uuid(&params, "missing").unwrap_err().message, "missing is required");
    let error = required_uuid(&params, "bad").unwrap_err();
    assert!(error.message.starts_with("bad must be a UUID: invalid character"));
}

#[test]
fn store_failures_are_mapped() {
    let error = map_transcript_store_error(TranscriptStoreFailure::NotTurnBoundary);
    assert_eq!(error.code, "not_turn_boundary");
    assert_eq!(error.message, "target is not a turn boundary");
    let error = map_transcript_store_error(TranscriptStoreFailure::Other("Gap".to_string()));
    assert_eq!(error.line(), "invalid_transcript: Gap");
    assert_eq!(invalid_params("why".to_string()).line(), "invalid_params: why");
}

#[test]
fn artifacts_are_read_from_own_workspaces() {
    let row = |dir: &str, branch: &str| SessionWorkspace {
        workspace_dir: dir.to_string(),
        remote_branch: Some(branch.to_string()),
    };
    let rows = vec![row("a", "1"), row("b", "2"), row("b", "3")];
    assert_eq!(workspace(&rows, "b").unwrap().remote_branch.as_deref(), Some("2"));
    let error = workspace(&rows, "c").unwrap_err();
    assert_eq!(error.code, "workspace_not_found");
    assert_eq!(error.message, "workspace is not a member of the session");
}
