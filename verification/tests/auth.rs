//! Credentials.
use agent_daemon::auth::{
    claude_code_config_api_key, codex_installation_id, codex_refresh_reply, codex_refresh_token,
    persist_codex_refresh, read_codex_auth, refreshed_credentials, unpersisted_refresh,
    CodexRefreshReply, CodexRefreshResponse, CredentialSnapshot, Credentials,
};

fn credentials(codex_token: &str, account: Option<&str>, anthropic_key: &str) -> Credentials {
    Credentials {
        codex_access_token: Some(codex_token.to_string()),
        codex_account_id: account.map(str::to_string),
        codex_installation_id: Some("installation-secret".to_string()),
        anthropic_api_key: Some(anthropic_key.to_string()),
    }
}

fn response(access: Option<&str>, refresh: Option<&str>) -> CodexRefreshResponse {
    CodexRefreshResponse {
        id_token: Some("id".to_string()),
        access_token: access.map(str::to_string),
        refresh_token: refresh.map(str::to_string),
    }
}

#[test]
fn reads_claude_code_config_primary_api_key() {
    let key = claude_code_config_api_key(&vec![
        Some(r#"{"primaryApiKey":"sk-ant-test-config"}"#.to_string()),
        None,
    ]);

    assert_eq!(key.as_deref(), Some("sk-ant-test-config"));
}

#[test]
fn falls_back_to_root_claude_json() {
    let key = claude_code_config_api_key(&vec![
        None,
        Some(r#"{"primaryApiKey":"sk-ant-test-root"}"#.to_string()),
    ]);

    assert_eq!(key.as_deref(), Some("sk-ant-test-root"));
}

#[test]
fn ignores_non_anthropic_primary_key() {
    let key = claude_code_config_api_key(&vec![
        Some(r#"{"primaryApiKey":"not-an-anthropic-key"}"#.to_string()),
        None,
    ]);

    assert_eq!(key, None);
}

#[test]
fn broken_claude_files_are_passed_over() {
    let key = claude_code_config_api_key(&vec![
        Some("{".to_string()),
        Some(r#"{"primaryApiKey":7}"#.to_string()),
        Some(r#"{"primaryApiKey":" sk-ant-x "}"#.to_string()),
    ]);
    assert_eq!(key.as_deref(), Some("sk-ant-x"));
}

#[test]
fn codex_files_are_read() {
    let auth = read_codex_auth(Some(
        r#"{"tokens":{"access_token":"a","refresh_token":" ","account_id":"acc"}}"#,
    ));
    assert!(auth.found);
    assert_eq!(auth.access_token.as_deref(), Some("a"));
    assert_eq!(auth.refresh_token, None);
    assert_eq!(auth.account_id.as_deref(), Some("acc"));
    for contents in [None, Some("not json")] {
        let auth = read_codex_auth(contents);
        assert!(!auth.found);
        assert_eq!(auth.access_token, None);
    }
    assert_eq!(codex_installation_id(Some(" id\n")).as_deref(), Some("id"));
    assert_eq!(codex_installation_id(Some(" \n")), None);
    assert_eq!(codex_installation_id(None), None);
}

#[test]
fn the_environment_counts_first() {
    let codex = || read_codex_auth(Some(r#"{"tokens":{"access_token":"file","account_id":"acc"}}"#));
    let claude = vec![Some(r#"{"primaryApiKey":"sk-ant-file"}"#.to_string())];
    let loaded = Credentials::assemble(
        Some("env".to_string()),
        codex(),
        Some("inst"),
        Some("env-key".to_string()),
        &claude,
    );
    assert_eq!(loaded.codex_access_token.as_deref(), Some("env"));
    assert_eq!(loaded.anthropic_api_key.as_deref(), Some("env-key"));
    let loaded = Credentials::assemble(None, codex(), None, None, &claude);
    assert_eq!(loaded.codex_access_token.as_deref(), Some("file"));
    assert_eq!(loaded.codex_account_id.as_deref(), Some("acc"));
    assert_eq!(loaded.codex_installation_id, None);
    assert_eq!(loaded.anthropic_api_key.as_deref(), Some("sk-ant-file"));
}

#[test]
fn refreshes_need_a_token() {
    let auth = read_codex_auth(Some(r#"{"tokens":{"refresh_token":"file"}}"#));
    assert_eq!(codex_refresh_token(Some("env".to_string()), &auth).unwrap(), "env");
    assert_eq!(codex_refresh_token(None, &auth).unwrap(), "file");
    assert_eq!(
        codex_refresh_token(None, &read_codex_auth(None)).unwrap_err().message,
        "Codex provider returned 401 and no ChatGPT refresh token was found"
    );
}

#[test]
fn refresh_replies_are_told_apart() {
    let message = |reply| match codex_refresh_reply(reply) {
        Ok(_) => panic!("reply has no tokens"),
        Err(failure) => failure.message,
    };
    assert_eq!(message(CodexRefreshReply::Unsent), "Codex token refresh request failed");
    assert_eq!(
        message(CodexRefreshReply::Refused(401)),
        "Codex token refresh failed with HTTP 401"
    );
    assert_eq!(
        message(CodexRefreshReply::Unreadable),
        "Codex token refresh response was invalid"
    );
    match codex_refresh_reply(CodexRefreshReply::Tokens(response(Some("a"), None))) {
        Ok(tokens) => assert_eq!(tokens.access_token.as_deref(), Some("a")),
        Err(failure) => panic!("{}", failure.message),
    }
}

#[test]
fn refreshed_tokens_are_written_and_read_back() {
    let written = persist_codex_refresh(
        r#"{"kept":1,"tokens":{"access_token":"old","refresh_token":"r0","account_id":"acc"}}"#,
        &response(Some("new"), None),
        "2024-05-06T07:08:09Z",
    )
    .unwrap()
    .unwrap();
    assert_eq!(
        written,
        "{\n  \"kept\": 1,\n  \"last_refresh\": \"2024-05-06T07:08:09Z\",\n  \"tokens\": {\n    \"access_token\": \"new\",\n    \"account_id\": \"acc\",\n    \"id_token\": \"id\",\n    \"refresh_token\": \"r0\"\n  }\n}"
    );
    let auth = read_codex_auth(Some(&written));
    assert_eq!(auth.access_token.as_deref(), Some("new"));
    assert_eq!(auth.refresh_token.as_deref(), Some("r0"));
    assert_eq!(auth.account_id.as_deref(), Some("acc"));
}

#[test]
fn odd_token_files_are_mended_or_refused() {
    let refreshed = response(Some("a"), Some("r"));
    for contents in ["null", "{}", r#"{"tokens":[]}"#] {
        let written = persist_codex_refresh(contents, &refreshed, "now").unwrap().unwrap();
        assert_eq!(read_codex_auth(Some(&written)).refresh_token.as_deref(), Some("r"));
    }
    let failure = persist_codex_refresh("{", &refreshed, "now").unwrap().unwrap_err();
    assert!(failure.message.starts_with("EOF while parsing an object"));
    assert!(persist_codex_refresh("[]", &refreshed, "now").is_none());
    assert!(persist_codex_refresh("7", &refreshed, "now").is_none());
}

#[test]
fn refreshes_keep_the_other_provider() {
    let prior = credentials("old", Some("acc"), "key");
    let auth = unpersisted_refresh(read_codex_auth(None), response(Some("new"), Some("r")));
    let refreshed = match refreshed_credentials(&prior, auth, Some("inst")) {
        Ok(refreshed) => refreshed,
        Err(failure) => panic!("{}", failure.message),
    };
    assert_eq!(refreshed.codex_access_token.as_deref(), Some("new"));
    assert_eq!(refreshed.codex_account_id, None);
    assert_eq!(refreshed.codex_installation_id.as_deref(), Some("inst"));
    assert_eq!(refreshed.anthropic_api_key.as_deref(), Some("key"));
    let auth = unpersisted_refresh(read_codex_auth(None), response(None, Some("r")));
    assert!(refreshed_credentials(&prior, auth, None).is_err());
}

fn published(result: Result<CredentialSnapshot, agent_daemon::types::Failure>) -> CredentialSnapshot {
    match result {
        Ok(snapshot) => snapshot,
        Err(failure) => panic!("{}", failure.message),
    }
}

fn refused(result: Result<CredentialSnapshot, agent_daemon::types::Failure>) -> String {
    match result {
        Ok(_) => panic!("published"),
        Err(failure) => failure.message,
    }
}

#[test]
fn overlapping_recoveries_both_publish() {
    let first = CredentialSnapshot::for_tests(credentials("old", Some("a0"), "old-key"));
    let key = first
        .new_anthropic_key(credentials("stale", None, "new-key"))
        .unwrap();
    let anthropic = published(first.publish_anthropic_after(first.anthropic_generation(), key));
    assert_eq!(
        (anthropic.generation(), anthropic.codex_generation(), anthropic.anthropic_generation()),
        (2, 1, 2)
    );
    assert_eq!(anthropic.credentials().codex_access_token.as_deref(), Some("old"));
    let codex = published(first.codex_refreshed(&anthropic, credentials("new", Some("a1"), "stale")));
    assert_eq!(
        (codex.generation(), codex.codex_generation(), codex.anthropic_generation()),
        (3, 2, 2)
    );
    assert_eq!(codex.credentials().codex_access_token.as_deref(), Some("new"));
    assert_eq!(codex.credentials().codex_account_id.as_deref(), Some("a1"));
    assert_eq!(codex.credentials().anthropic_api_key.as_deref(), Some("new-key"));
    assert!(codex.codex_moved_on(&first));
    assert!(!anthropic.codex_moved_on(&first));
    assert!(codex.anthropic_moved_on(&first));
}

#[test]
fn outdated_recoveries_are_refused() {
    let first = CredentialSnapshot::first(credentials("old", None, "key"));
    let second = published(first.publish_codex_after(1, credentials("new", None, "x")));
    assert_eq!(
        refused(second.publish_codex_after(1, credentials("late", None, "x"))),
        "Codex credential generation changed while publishing authentication recovery"
    );
    assert_eq!(
        refused(second.publish_anthropic_after(2, "k".to_string())),
        "Anthropic credential generation changed while publishing authentication recovery"
    );
    let mut empty = credentials("", None, "x");
    empty.codex_access_token = None;
    assert_eq!(
        refused(first.codex_refreshed(&first, empty)),
        "Codex token refresh did not produce an access token"
    );
    let mut last = CredentialSnapshot::first(Credentials::default());
    last.generation = u64::MAX;
    assert_eq!(
        refused(last.publish_codex_after(1, Credentials::default())),
        "credential generation overflow"
    );
    last.generation = 1;
    last.codex_generation = u64::MAX;
    last.anthropic_generation = u64::MAX;
    assert_eq!(
        refused(last.publish_codex_after(u64::MAX, Credentials::default())),
        "Codex credential generation overflow"
    );
    assert_eq!(
        refused(last.publish_anthropic_after(u64::MAX, String::new())),
        "Anthropic credential generation overflow"
    );
}

#[test]
fn known_keys_are_not_published_again() {
    let snapshot = CredentialSnapshot::first(credentials("c", None, "key"));
    assert_eq!(snapshot.new_anthropic_key(credentials("c", None, "key")), None);
    assert_eq!(snapshot.new_anthropic_key(Credentials::default()), None);
    assert_eq!(
        snapshot.new_anthropic_key(credentials("c", None, "other")).as_deref(),
        Some("other")
    );
}

#[test]
fn secrets_are_not_shown() {
    let snapshot = CredentialSnapshot::first(credentials("codex-secret", None, "anthropic-secret"));
    assert_eq!(
        snapshot.redacted(),
        "CredentialSnapshot { generation: 1, credentials: Credentials { codex_access_token: Some(\"[REDACTED]\"), codex_account_id: None, codex_installation_id: Some(\"[REDACTED]\"), anthropic_api_key: Some(\"[REDACTED]\") } }"
    );
}
