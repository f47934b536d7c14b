//! Provider credentials: how they are put together, refreshed and published.
//!
//! Credentials are published as snapshots. Each provider has a generation of
//! its own, so that recovering one never disturbs the other, and a recovery
//! that works from an outdated generation is refused.
use std::sync::Arc;

use vstd::prelude::*;

use crate::interop::{self, parse_json, pretty_json};
use crate::json::{self, Json, JsonObject, JsonView};
use crate::records::{self, opt_clone};
use crate::text::{self, decimal_u64, same, strip_prefix};
use crate::types::Failure;

verus! {

pub const CODEX_CLIENT_ID: &'static str = "app_EMoamEEZ73f0CkXaXp7hrann";

pub const CODEX_REFRESH_TOKEN_URL: &'static str = "https://auth.openai.com/oauth/token";

pub const CODEX_REFRESH_TIMEOUT_SECONDS: u64 = 30;

/// The credentials of all providers.
pub struct Credentials {
    pub codex_access_token: Option<String>,
    pub codex_account_id: Option<String>,
    pub codex_installation_id: Option<String>,
    pub anthropic_api_key: Option<String>,
}

/// The view of credentials.
pub ghost struct CredentialsView {
    pub codex_access_token: Option<Seq<char>>,
    pub codex_account_id: Option<Seq<char>>,
    pub codex_installation_id: Option<Seq<char>>,
    pub anthropic_api_key: Option<Seq<char>>,
}

impl View for Credentials {
    type V = CredentialsView;

    open spec fn view(&self) -> CredentialsView {
        CredentialsView {
            codex_access_token: records::opt_view(self.codex_access_token),
            codex_account_id: records::opt_view(self.codex_account_id),
            codex_installation_id: records::opt_view(self.codex_installation_id),
            anthropic_api_key: records::opt_view(self.anthropic_api_key),
        }
    }
}

impl Clone for Credentials {
    fn clone(&self) -> (r: Credentials)
        ensures
            r@ == self@,
    {
        Credentials {
            codex_access_token: opt_clone(&self.codex_access_token),
            codex_account_id: opt_clone(&self.codex_account_id),
            codex_installation_id: opt_clone(&self.codex_installation_id),
            anthropic_api_key: opt_clone(&self.anthropic_api_key),
        }
    }
}

impl Default for Credentials {
    fn default() -> (r: Credentials)
        ensures
            r.codex_access_token is None,
            r.codex_account_id is None,
            r.codex_installation_id is None,
            r.anthropic_api_key is None,
    {
        Credentials {
            codex_access_token: None,
            codex_account_id: None,
            codex_installation_id: None,
            anthropic_api_key: None,
        }
    }
}

/// How a secret is shown: whether there is one, and nothing else.
pub open spec fn redacted_field(secret: Option<Seq<char>>) -> Seq<char> {
    if secret is Some {
        "Some(\"[REDACTED]\")"@
    } else {
        "None"@
    }
}

/// Credentials as they are shown.
pub open spec fn redacted_text(c: CredentialsView) -> Seq<char> {
    "Credentials { codex_access_token: "@ + redacted_field(c.codex_access_token)
        + ", codex_account_id: "@ + redacted_field(c.codex_account_id)
        + ", codex_installation_id: "@ + redacted_field(c.codex_installation_id)
        + ", anthropic_api_key: "@ + redacted_field(c.anthropic_api_key) + " }"@
}

fn redact(secret: &Option<String>) -> (r: &'static str)
    ensures
        r@ == redacted_field(records::opt_view(*secret)),
{
    if secret.is_some() {
        "Some(\"[REDACTED]\")"
    } else {
        "None"
    }
}

impl Credentials {
    /// The credentials for a log, with every secret left out.
    pub fn redacted(&self) -> (r: String)
        ensures
            r@ == redacted_text(self@),
    {
        "Credentials { codex_access_token: ".to_owned().concat(
            redact(&self.codex_access_token),
        ).concat(", codex_account_id: ").concat(redact(&self.codex_account_id)).concat(
            ", codex_installation_id: ",
        ).concat(redact(&self.codex_installation_id)).concat(", anthropic_api_key: ").concat(
            redact(&self.anthropic_api_key),
        ).concat(" }")
    }

    /// Puts credentials together: what the environment names counts first, then
    /// what the providers' own files hold.
    pub fn assemble(
        codex_token_from_env: Option<String>,
        codex: CodexAuthSnapshot,
        installation_file: Option<&str>,
        anthropic_key_from_env: Option<String>,
        claude_files: &Vec<Option<String>>,
    ) -> (r: Credentials)
        ensures
            r@ == (CredentialsView {
                codex_access_token: first_of(
                    records::opt_view(codex_token_from_env),
                    records::opt_view(codex.access_token),
                ),
                codex_account_id: records::opt_view(codex.account_id),
                codex_installation_id: installation_id(records::opt_str_view(installation_file)),
                anthropic_api_key: first_of(
                    records::opt_view(anthropic_key_from_env),
                    first_claude_key(claude_files@),
                ),
            }),
    {
        let codex_access_token = match codex_token_from_env {
            Some(token) => Some(token),
            None => codex.access_token,
        };
        let anthropic_api_key = match anthropic_key_from_env {
            Some(key) => Some(key),
            None => claude_code_config_api_key(claude_files),
        };
        Credentials {
            codex_access_token,
            codex_account_id: codex.account_id,
            codex_installation_id: codex_installation_id(installation_file),
            anthropic_api_key,
        }
    }
}

/// Nothing of a secret is shown: credentials that have the same fields set read
/// alike.
pub proof fn law_secrets_are_redacted(a: CredentialsView, b: CredentialsView)
    requires
        a.codex_access_token is Some <==> b.codex_access_token is Some,
        a.codex_account_id is Some <==> b.codex_account_id is Some,
        a.codex_installation_id is Some <==> b.codex_installation_id is Some,
        a.anthropic_api_key is Some <==> b.anthropic_api_key is Some,
    ensures
        redacted_text(a) == redacted_text(b),
{
}

// ---------------------------------------------------------------------------
// The providers' files

pub open spec fn first_of(a: Option<Seq<char>>, b: Option<Seq<char>>) -> Option<Seq<char>> {
    match a {
        Some(s) => Some(s),
        None => b,
    }
}

/// The installation id that a file holds, without the white space around it.
pub open spec fn installation_id(contents: Option<Seq<char>>) -> Option<Seq<char>> {
    match contents {
        Some(s) => if text::trimmed(s).len() > 0 {
            Some(text::trimmed(s))
        } else {
            None
        },
        None => None,
    }
}

/// The installation id of a file's contents; none where there is no file.
pub fn codex_installation_id(contents: Option<&str>) -> (r: Option<String>)
    ensures
        records::opt_view(r) == installation_id(records::opt_str_view(contents)),
{
    match contents {
        Some(contents) => {
            let kept = contents.trim();
            if kept.is_empty() {
                None
            } else {
                Some(kept.to_owned())
            }
        },
        None => None,
    }
}

/// The key that a parsed configuration names, where it is one of Anthropic's.
pub open spec fn claude_key_of(config: JsonView) -> Option<Seq<char>> {
    match json::text_view(json::get_view(config, "primaryApiKey"@)) {
        Some(key) => if "sk-ant-"@.is_prefix_of(text::trimmed(key)) {
            Some(text::trimmed(key))
        } else {
            None
        },
        None => None,
    }
}

/// The key of a configuration.
pub fn claude_key(config: &Json) -> (r: Option<String>)
    ensures
        records::opt_view(r) == claude_key_of(config@),
{
    let value = match config.get("primaryApiKey") {
        Some(value) => value,
        None => {
            return None;
        },
    };
    match value.as_str() {
        Some(key) => {
            let key = key.trim();
            if strip_prefix(key, "sk-ant-").is_some() {
                Some(key.to_owned())
            } else {
                None
            }
        },
        None => None,
    }
}

/// The key that a file names; none where the file is missing or is not JSON.
pub open spec fn file_claude_key(contents: Option<Seq<char>>) -> Option<Seq<char>> {
    match contents {
        Some(s) => match interop::parsed_json(s) {
            Ok(config) => claude_key_of(config),
            Err(_) => None,
        },
        None => None,
    }
}

/// The key of the first file that names one.
pub open spec fn first_claude_key(files: Seq<Option<String>>) -> Option<Seq<char>>
    decreases files.len(),
{
    if files.len() == 0 {
        None
    } else {
        first_of(file_claude_key(records::opt_view(files[0])), first_claude_key(files.skip(1)))
    }
}

/// The key of the first configuration file, by its contents, that names one.
pub fn claude_code_config_api_key(files: &Vec<Option<String>>) -> (r: Option<String>)
    ensures
        records::opt_view(r) == first_claude_key(files@),
{
    let mut i: usize = 0;
    assert(files@.skip(0) == files@);
    while i < files.len()
        invariant
            i <= files.len(),
            first_claude_key(files@) == first_claude_key(files@.skip(i as int)),
        decreases files.len() - i,
    {
        let ghost rest = files@.skip(i as int);
        assert(rest[0] == files@[i as int]);
        assert(rest.skip(1) == files@.skip(i + 1));
        if let Some(contents) = &files[i] {
            if let Ok(config) = parse_json(contents.as_str()) {
                if let Some(key) = claude_key(&config) {
                    return Some(key);
                }
            }
        }
        i += 1;
    }
    None
}

/// What the Codex authentication file holds.
pub struct CodexAuthSnapshot {
    /// The file was there and was JSON.
    pub found: bool,
    pub access_token: Option<String>,
    pub refresh_token: Option<String>,
    pub account_id: Option<String>,
}

/// A text below `tokens` that is more than white space.
pub open spec fn token_of(auth: JsonView, key: Seq<char>) -> Option<Seq<char>> {
    match json::get_view(auth, "tokens"@) {
        Some(tokens) => match json::text_view(json::get_view(tokens, key)) {
            Some(token) => if text::trimmed(token).len() > 0 {
                Some(token)
            } else {
                None
            },
            None => None,
        },
        None => None,
    }
}

fn read_token(auth: &Json, key: &str) -> (r: Option<String>)
    ensures
        records::opt_view(r) == token_of(auth@, key@),
{
    let tokens = match auth.get("tokens") {
        Some(tokens) => tokens,
        None => {
            return None;
        },
    };
    let token = match tokens.get(key) {
        Some(token) => token,
        None => {
            return None;
        },
    };
    match token.as_str() {
        Some(token) => if token.trim().is_empty() {
            None
        } else {
            Some(token.to_owned())
        },
        None => None,
    }
}

/// The tokens of a parsed authentication file.
pub open spec fn snapshot_of(s: CodexAuthSnapshot, auth: Option<JsonView>) -> bool {
    match auth {
        Some(auth) => {
            &&& s.found
            &&& records::opt_view(s.access_token) == token_of(auth, "access_token"@)
            &&& records::opt_view(s.refresh_token) == token_of(auth, "refresh_token"@)
            &&& records::opt_view(s.account_id) == token_of(auth, "account_id"@)
        },
        None => !s.found && s.access_token is None && s.refresh_token is None && s.account_id is None,
    }
}

/// The snapshot of a parsed authentication file, or of none.
pub fn codex_auth_of(auth: Option<&Json>) -> (r: CodexAuthSnapshot)
    ensures
        snapshot_of(
            r,
            match auth {
                Some(a) => Some(a@),
                None => None,
            },
        ),
{
    match auth {
        Some(auth) => CodexAuthSnapshot {
            found: true,
            access_token: read_token(auth, "access_token"),
            refresh_token: read_token(auth, "refresh_token"),
            account_id: read_token(auth, "account_id"),
        },
        None => CodexAuthSnapshot {
            found: false,
            access_token: None,
            refresh_token: None,
            account_id: None,
        },
    }
}

/// What a file's contents parse to; nothing where there is no file or no JSON.
pub open spec fn parsed_file(contents: Option<Seq<char>>) -> Option<JsonView> {
    match contents {
        Some(s) => match interop::parsed_json(s) {
            Ok(value) => Some(value),
            Err(_) => None,
        },
        None => None,
    }
}

/// Reads the Codex authentication file by its contents.
pub fn read_codex_auth(contents: Option<&str>) -> (r: CodexAuthSnapshot)
    ensures
        snapshot_of(r, parsed_file(records::opt_str_view(contents))),
{
    match contents {
        Some(contents) => match parse_json(contents) {
            Ok(auth) => codex_auth_of(Some(&auth)),
            Err(_) => codex_auth_of(None),
        },
        None => codex_auth_of(None),
    }
}

// ---------------------------------------------------------------------------
// Refreshing Codex tokens

/// What the token endpoint answers.
pub struct CodexRefreshResponse {
    pub id_token: Option<String>,
    pub access_token: Option<String>,
    pub refresh_token: Option<String>,
}

/// The refresh token to use: the environment's, or the file's.
pub fn codex_refresh_token(from_env: Option<String>, auth: &CodexAuthSnapshot) -> (r: Result<
    String,
    Failure,
>)
    ensures
        match first_of(records::opt_view(from_env), records::opt_view(auth.refresh_token)) {
            Some(token) => r matches Ok(t) && t@ == token,
            None => r matches Err(e) && e@
                == "Codex provider returned 401 and no ChatGPT refresh token was found"@,
        },
{
    match from_env {
        Some(token) => Ok(token),
        None => match &auth.refresh_token {
            Some(token) => Ok(token.clone()),
            None => Err(
                Failure::new("Codex provider returned 401 and no ChatGPT refresh token was found"),
            ),
        },
    }
}

/// How the refresh request came back.
pub enum CodexRefreshReply {
    /// It could not be sent, or nothing came back.
    Unsent,
    /// It was refused with this status.
    Refused(u16),
    /// It succeeded with a body that is no token response.
    Unreadable,
    Tokens(CodexRefreshResponse),
}

/// The tokens of a reply; no failure tells what was sent.
pub fn codex_refresh_reply(reply: CodexRefreshReply) -> (r: Result<CodexRefreshResponse, Failure>)
    ensures
        match reply {
            CodexRefreshReply::Tokens(tokens) => r == Ok::<CodexRefreshResponse, Failure>(tokens),
            CodexRefreshReply::Unsent => r matches Err(e) && e@
                == "Codex token refresh request failed"@,
            CodexRefreshReply::Refused(status) => r matches Err(e) && e@
                == "Codex token refresh failed with HTTP "@ + text::decimal(status as int),
            CodexRefreshReply::Unreadable => r matches Err(e) && e@
                == "Codex token refresh response was invalid"@,
        },
{
    match reply {
        CodexRefreshReply::Tokens(tokens) => Ok(tokens),
        CodexRefreshReply::Unsent => Err(Failure::new("Codex token refresh request failed")),
        CodexRefreshReply::Refused(status) => Err(
            Failure {
                message: "Codex token refresh failed with HTTP ".to_owned().concat(
                    decimal_u64(status as u64).as_str(),
                ),
            },
        ),
        CodexRefreshReply::Unreadable => Err(
            Failure::new("Codex token refresh response was invalid"),
        ),
    }
}

/// The entry replaced where a new value is given.
pub open spec fn replaced(
    tokens: Map<Seq<char>, JsonView>,
    key: Seq<char>,
    value: Option<Seq<char>>,
) -> Map<Seq<char>, JsonView> {
    match value {
        Some(v) => tokens.insert(key, JsonView::Text(v)),
        None => tokens,
    }
}

fn replace(tokens: &mut JsonObject, key: &str, value: &Option<String>)
    ensures
        final(tokens)@ == replaced(old(tokens)@, key@, records::opt_view(*value)),
{
    if let Some(v) = value {
        tokens.insert(key, Json::text(v.as_str()));
    }
}

/// The tokens that stood in the file.
pub open spec fn old_tokens(auth: JsonView) -> Map<Seq<char>, JsonView> {
    match json::get_view(auth, "tokens"@) {
        Some(JsonView::Object(tokens)) => tokens,
        _ => json::no_entries(),
    }
}

/// The authentication file after a refresh: the new tokens in place of the old,
/// the time of the refresh, and all else as it was.
pub open spec fn refreshed_auth(
    auth: JsonView,
    refreshed: CodexRefreshResponse,
    now: Seq<char>,
) -> JsonView {
    let tokens = replaced(
        replaced(
            replaced(old_tokens(auth), "id_token"@, records::opt_view(refreshed.id_token)),
            "access_token"@,
            records::opt_view(refreshed.access_token),
        ),
        "refresh_token"@,
        records::opt_view(refreshed.refresh_token),
    );
    let entries = match auth {
        JsonView::Object(o) => o,
        _ => json::no_entries(),
    };
    JsonView::Object(
        entries.insert("tokens"@, JsonView::Object(tokens)).insert(
            "last_refresh"@,
            JsonView::Text(now),
        ),
    )
}

/// Writes refreshed tokens into an authentication file that is an object or
/// `null`.
pub fn with_refreshed_tokens(auth: Json, refreshed: &CodexRefreshResponse, now: &str) -> (r: Json)
    requires
        auth@ is Object || auth@ is Null,
    ensures
        r@ == refreshed_auth(auth@, *refreshed, now@),
{
    let mut object = match auth {
        Json::Object(object) => object,
        _ => JsonObject::new(),
    };
    let mut tokens = match object.get("tokens") {
        Some(Json::Object(tokens)) => tokens,
        _ => JsonObject::new(),
    };
    replace(&mut tokens, "id_token", &refreshed.id_token);
    replace(&mut tokens, "access_token", &refreshed.access_token);
    replace(&mut tokens, "refresh_token", &refreshed.refresh_token);
    object.insert("tokens", Json::Object(tokens));
    object.insert("last_refresh", Json::text(now));
    Json::Object(object)
}

/// The new contents of the authentication file; a file that is not JSON is
/// refused with the parser's words, and one whose JSON has no place for tokens
/// is left to the caller.
pub fn persist_codex_refresh(contents: &str, refreshed: &CodexRefreshResponse, now: &str) -> (r:
    Option<Result<String, Failure>>)
    ensures
        match interop::parsed_json(contents@) {
            Err(message) => r matches Some(Err(e)) && e@ == message,
            Ok(auth) => if auth is Object || auth is Null {
                r matches Some(Ok(s)) && s@ == interop::pretty_text(
                    refreshed_auth(auth, *refreshed, now@),
                )
            } else {
                r is None
            },
        },
{
    match parse_json(contents) {
        Err(message) => Some(Err(Failure { message })),
        Ok(auth) => {
            let holds_tokens = match &auth {
                Json::Object(_) | Json::Null => true,
                _ => false,
            };
            if holds_tokens {
                Some(Ok(pretty_json(&with_refreshed_tokens(auth, refreshed, now))))
            } else {
                None
            }
        },
    }
}

/// The snapshot that a refresh leaves where there is no file to keep it in.
pub fn unpersisted_refresh(auth: CodexAuthSnapshot, refreshed: CodexRefreshResponse) -> (r:
    CodexAuthSnapshot)
    ensures
        r.found == auth.found,
        r.access_token == refreshed.access_token,
        r.refresh_token == refreshed.refresh_token,
        r.account_id == auth.account_id,
{
    CodexAuthSnapshot {
        found: auth.found,
        access_token: refreshed.access_token,
        refresh_token: refreshed.refresh_token,
        account_id: auth.account_id,
    }
}

pub open spec fn no_access_token() -> Seq<char> {
    "Codex token refresh did not produce an access token"@
}

/// The credentials after a refresh: Codex's from the refreshed snapshot, all
/// others as they were. Without an access token the refresh failed.
pub fn refreshed_credentials(
    prior: &Credentials,
    auth: CodexAuthSnapshot,
    installation_file: Option<&str>,
) -> (r: Result<Credentials, Failure>)
    ensures
        r is Ok <==> auth.access_token is Some,
        r matches Ok(c) ==> c@ == (CredentialsView {
            codex_access_token: records::opt_view(auth.access_token),
            codex_account_id: records::opt_view(auth.account_id),
            codex_installation_id: installation_id(records::opt_str_view(installation_file)),
            anthropic_api_key: prior@.anthropic_api_key,
        }),
        r matches Err(e) ==> e@ == no_access_token(),
{
    if auth.access_token.is_none() {
        return Err(Failure::new("Codex token refresh did not produce an access token"));
    }
    Ok(
        Credentials {
            codex_access_token: auth.access_token,
            codex_account_id: auth.account_id,
            codex_installation_id: codex_installation_id(installation_file),
            anthropic_api_key: opt_clone(&prior.anthropic_api_key),
        },
    )
}

// ---------------------------------------------------------------------------
// Publication

/// Published credentials with their generations.
pub struct CredentialSnapshot {
    pub generation: u64,
    pub codex_generation: u64,
    pub anthropic_generation: u64,
    pub credentials: Arc<Credentials>,
}

/// The view of a snapshot.
pub ghost struct SnapshotView {
    pub generation: u64,
    pub codex_generation: u64,
    pub anthropic_generation: u64,
    pub credentials: CredentialsView,
}

impl View for CredentialSnapshot {
    type V = SnapshotView;

    open spec fn view(&self) -> SnapshotView {
        SnapshotView {
            generation: self.generation,
            codex_generation: self.codex_generation,
            anthropic_generation: self.anthropic_generation,
            credentials: self.credentials@,
        }
    }
}

impl CredentialSnapshot {
    /// The first snapshot of freshly loaded credentials.
    pub fn first(credentials: Credentials) -> (r: CredentialSnapshot)
        ensures
            r@ == (SnapshotView {
                generation: 1,
                codex_generation: 1,
                anthropic_generation: 1,
                credentials: credentials@,
            }),
    {
        CredentialSnapshot {
            generation: 1,
            codex_generation: 1,
            anthropic_generation: 1,
            credentials: Arc::new(credentials),
        }
    }

    /// A snapshot to try things with.
    pub fn for_tests(credentials: Credentials) -> (r: CredentialSnapshot)
        ensures
            r@ == (SnapshotView {
                generation: 1,
                codex_generation: 1,
                anthropic_generation: 1,
                credentials: credentials@,
            }),
    {
        CredentialSnapshot::first(credentials)
    }

    pub fn generation(&self) -> (r: u64)
        ensures
            r == self@.generation,
    {
        self.generation
    }

    pub fn codex_generation(&self) -> (r: u64)
        ensures
            r == self@.codex_generation,
    {
        self.codex_generation
    }

    pub fn anthropic_generation(&self) -> (r: u64)
        ensures
            r == self@.anthropic_generation,
    {
        self.anthropic_generation
    }

    pub fn credentials(&self) -> (r: &Credentials)
        ensures
            r@ == self@.credentials,
    {
        &*self.credentials
    }

    /// The snapshot for a log, with every secret left out.
    pub fn redacted(&self) -> (r: String)
        ensures
            r@ == "CredentialSnapshot { generation: "@ + text::decimal(self@.generation as int)
                + ", credentials: "@ + redacted_text(self@.credentials) + " }"@,
    {
        "CredentialSnapshot { generation: ".to_owned().concat(
            decimal_u64(self.generation).as_str(),
        ).concat(", credentials: ").concat(self.credentials().redacted().as_str()).concat(" }")
    }
}

/// What publishing refreshed Codex credentials comes to: a new snapshot, or why
/// not.
pub open spec fn codex_publication(
    current: SnapshotView,
    expected_codex_generation: u64,
    refreshed: CredentialsView,
) -> Result<SnapshotView, Seq<char>> {
    if current.codex_generation != expected_codex_generation {
        Err("Codex credential generation changed while publishing authentication recovery"@)
    } else if current.generation == u64::MAX {
        Err("credential generation overflow"@)
    } else if current.codex_generation == u64::MAX {
        Err("Codex credential generation overflow"@)
    } else {
        Ok(
            SnapshotView {
                generation: (current.generation + 1) as u64,
                codex_generation: (current.codex_generation + 1) as u64,
                anthropic_generation: current.anthropic_generation,
                credentials: CredentialsView {
                    codex_access_token: refreshed.codex_access_token,
                    codex_account_id: refreshed.codex_account_id,
                    codex_installation_id: refreshed.codex_installation_id,
                    anthropic_api_key: current.credentials.anthropic_api_key,
                },
            },
        )
    }
}

/// What publishing a new Anthropic key comes to.
pub open spec fn anthropic_publication(
    current: SnapshotView,
    expected_anthropic_generation: u64,
    api_key: Seq<char>,
) -> Result<SnapshotView, Seq<char>> {
    if current.anthropic_generation != expected_anthropic_generation {
        Err("Anthropic credential generation changed while publishing authentication recovery"@)
    } else if current.generation == u64::MAX {
        Err("credential generation overflow"@)
    } else if current.anthropic_generation == u64::MAX {
        Err("Anthropic credential generation overflow"@)
    } else {
        Ok(
            SnapshotView {
                generation: (current.generation + 1) as u64,
                codex_generation: current.codex_generation,
                anthropic_generation: (current.anthropic_generation + 1) as u64,
                credentials: CredentialsView {
                    anthropic_api_key: Some(api_key),
                    ..current.credentials
                },
            },
        )
    }
}

pub open spec fn published(
    r: Result<CredentialSnapshot, Failure>,
    outcome: Result<SnapshotView, Seq<char>>,
) -> bool {
    match outcome {
        Ok(view) => r matches Ok(s) && s@ == view,
        Err(message) => r matches Err(e) && e@ == message,
    }
}

impl CredentialSnapshot {
    /// The snapshot that follows this one once Codex's credentials were
    /// refreshed from the expected generation.
    pub fn publish_codex_after(
        &self,
        expected_codex_generation: u64,
        refreshed: Credentials,
    ) -> (r: Result<CredentialSnapshot, Failure>)
        ensures
            published(r, codex_publication(self@, expected_codex_generation, refreshed@)),
    {
        if self.codex_generation != expected_codex_generation {
            return Err(
                Failure::new(
                    "Codex credential generation changed while publishing authentication recovery",
                ),
            );
        }
        let generation: u64 = match self.generation.checked_add(1) {
            Some(generation) => generation,
            None => {
                return Err(Failure::new("credential generation overflow"));
            },
        };
        let codex_generation: u64 = match self.codex_generation.checked_add(1) {
            Some(generation) => generation,
            None => {
                return Err(Failure::new("Codex credential generation overflow"));
            },
        };
        let credentials = Credentials {
            codex_access_token: refreshed.codex_access_token,
            codex_account_id: refreshed.codex_account_id,
            codex_installation_id: refreshed.codex_installation_id,
            anthropic_api_key: opt_clone(&self.credentials().anthropic_api_key),
        };
        Ok(
            CredentialSnapshot {
                generation,
                codex_generation,
                anthropic_generation: self.anthropic_generation,
                credentials: Arc::new(credentials),
            },
        )
    }

    /// The snapshot that follows this one once a new Anthropic key was loaded
    /// under the expected generation.
    pub fn publish_anthropic_after(
        &self,
        expected_anthropic_generation: u64,
        api_key: String,
    ) -> (r: Result<CredentialSnapshot, Failure>)
        ensures
            published(r, anthropic_publication(self@, expected_anthropic_generation, api_key@)),
    {
        if self.anthropic_generation != expected_anthropic_generation {
            return Err(
                Failure::new(
                    "Anthropic credential generation changed while publishing authentication recovery",
                ),
            );
        }
        let generation: u64 = match self.generation.checked_add(1) {
            Some(generation) => generation,
            None => {
                return Err(Failure::new("credential generation overflow"));
            },
        };
        let anthropic_generation: u64 = match self.anthropic_generation.checked_add(1) {
            Some(generation) => generation,
            None => {
                return Err(Failure::new("Anthropic credential generation overflow"));
            },
        };
        let mut credentials = self.credentials().clone();
        credentials.anthropic_api_key = Some(api_key);
        Ok(
            CredentialSnapshot {
                generation,
                codex_generation: self.codex_generation,
                anthropic_generation,
                credentials: Arc::new(credentials),
            },
        )
    }

    /// Whether somebody else refreshed Codex since `observed`, so that this
    /// snapshot can be used as it is.
    pub fn codex_moved_on(&self, observed: &CredentialSnapshot) -> (r: bool)
        ensures
            r == (self@.codex_generation > observed@.codex_generation),
    {
        self.codex_generation > observed.codex_generation
    }

    /// Whether somebody else reloaded Anthropic's key since `observed`.
    pub fn anthropic_moved_on(&self, observed: &CredentialSnapshot) -> (r: bool)
        ensures
            r == (self@.anthropic_generation > observed@.anthropic_generation),
    {
        self.anthropic_generation > observed.anthropic_generation
    }

    /// The outcome of a Codex refresh that started from this snapshot, to be
    /// published over `current`.
    pub fn codex_refreshed(
        &self,
        current: &CredentialSnapshot,
        refreshed: Credentials,
    ) -> (r: Result<CredentialSnapshot, Failure>)
        ensures
            published(
                r,
                if refreshed@.codex_access_token is None {
                    Err(no_access_token())
                } else {
                    codex_publication(current@, self@.codex_generation, refreshed@)
                },
            ),
    {
        if refreshed.codex_access_token.is_none() {
            return Err(Failure::new("Codex token refresh did not produce an access token"));
        }
        current.publish_codex_after(self.codex_generation, refreshed)
    }

    /// The loaded key that is worth publishing: one that is there and is not
    /// the key in use.
    pub fn new_anthropic_key(&self, loaded: Credentials) -> (r: Option<String>)
        ensures
            records::opt_view(r) == (if loaded@.anthropic_api_key
                == self@.credentials.anthropic_api_key {
                None
            } else {
                loaded@.anthropic_api_key
            }),
    {
        match loaded.anthropic_api_key {
            Some(loaded_key) => match &self.credentials().anthropic_api_key {
                Some(key) => if same(key.as_str(), loaded_key.as_str()) {
                    None
                } else {
                    Some(loaded_key)
                },
                None => Some(loaded_key),
            },
            None => None,
        }
    }
}

// ---------------------------------------------------------------------------
// Laws

/// A publication moves the common generation and its own provider's by one and
/// leaves the other provider as it is; an outdated one publishes nothing.
pub proof fn law_publications_are_fenced(
    current: SnapshotView,
    expected: u64,
    refreshed: CredentialsView,
    api_key: Seq<char>,
)
    ensures
        codex_publication(current, expected, refreshed) matches Ok(next) ==> {
            &&& expected == current.codex_generation
            &&& next.generation == current.generation + 1
            &&& next.codex_generation == current.codex_generation + 1
            &&& next.anthropic_generation == current.anthropic_generation
            &&& next.credentials.anthropic_api_key == current.credentials.anthropic_api_key
        },
        anthropic_publication(current, expected, api_key) matches Ok(next) ==> {
            &&& expected == current.anthropic_generation
            &&& next.generation == current.generation + 1
            &&& next.anthropic_generation == current.anthropic_generation + 1
            &&& next.codex_generation == current.codex_generation
            &&& next.credentials.codex_access_token == current.credentials.codex_access_token
            &&& next.credentials.codex_account_id == current.credentials.codex_account_id
            &&& next.credentials.codex_installation_id == current.credentials.codex_installation_id
        },
{
}

/// Recoveries of the two providers that overlap both take effect, in either
/// order and with the same result.
pub proof fn law_overlapping_recoveries_commute(
    current: SnapshotView,
    refreshed: CredentialsView,
    api_key: Seq<char>,
)
    requires
        current.generation < u64::MAX - 1,
        current.codex_generation < u64::MAX,
        current.anthropic_generation < u64::MAX,
    ensures
        ({
            let codex = codex_publication(current, current.codex_generation, refreshed);
            let anthropic = anthropic_publication(current, current.anthropic_generation, api_key);
            let both = anthropic_publication(codex->Ok_0, current.anthropic_generation, api_key);
            &&& codex is Ok
            &&& anthropic is Ok
            &&& both is Ok
            &&& both == codex_publication(
                anthropic->Ok_0,
                current.codex_generation,
                refreshed,
            )
            &&& both->Ok_0.credentials == (CredentialsView {
                anthropic_api_key: Some(api_key),
                ..refreshed
            })
        }),
{
}

/// Of two recoveries of one provider that started from the same generation only
/// the first is published.
pub proof fn law_second_recovery_is_refused(
    current: SnapshotView,
    first: CredentialsView,
    second: CredentialsView,
)
    requires
        codex_publication(current, current.codex_generation, first) is Ok,
    ensures
        codex_publication(
            codex_publication(current, current.codex_generation, first)->Ok_0,
            current.codex_generation,
            second,
        ) is Err,
{
}

/// A refresh that is written down is read back: the new tokens where they were
/// given and are not blank, the old ones otherwise.
pub proof fn law_refreshed_tokens_are_read_back(
    auth: JsonView,
    refreshed: CodexRefreshResponse,
    now: Seq<char>,
)
    requires
        auth is Object || auth is Null,
    ensures
        ({
            let written = refreshed_auth(auth, refreshed, now);
            let access = records::opt_view(refreshed.access_token);
            let refresh = records::opt_view(refreshed.refresh_token);
            &&& token_of(written, "access_token"@) == (match access {
                Some(t) => if text::trimmed(t).len() > 0 {
                    Some(t)
                } else {
                    None
                },
                None => token_of(auth, "access_token"@),
            })
            &&& token_of(written, "refresh_token"@) == (match refresh {
                Some(t) => if text::trimmed(t).len() > 0 {
                    Some(t)
                } else {
                    None
                },
                None => token_of(auth, "refresh_token"@),
            })
            &&& token_of(written, "account_id"@) == token_of(auth, "account_id"@)
        }),
{
    reveal_strlit("tokens");
    reveal_strlit("last_refresh");
    reveal_strlit("id_token");
    reveal_strlit("access_token");
    reveal_strlit("refresh_token");
    reveal_strlit("account_id");
    assert("tokens"@.len() == 6);
    assert("last_refresh"@.len() == 12);
    assert("id_token"@.len() == 8);
    assert("access_token"@.len() == 12);
    assert("refresh_token"@.len() == 13);
    assert("account_id"@.len() == 10);
}

/// Of two sources of a secret the first that has one is taken.
pub proof fn law_first_source_wins(a: Option<Seq<char>>, b: Option<Seq<char>>)
    ensures
        a is Some ==> first_of(a, b) == a,
        a is None ==> first_of(a, b) == b,
{
}

/// An installation id is what its file holds, trimmed; a blank file holds none.
pub proof fn law_installation_ids_are_trimmed(contents: Seq<char>)
    ensures
        installation_id(None) is None,
        text::trimmed(contents).len() == 0 ==> installation_id(Some(contents)) is None,
        text::trimmed(contents).len() > 0 ==> installation_id(Some(contents)) == Some(
            text::trimmed(contents),
        ),
{
}

/// A configured key is taken exactly when, trimmed, it starts as the provider's
/// keys do, and then trimmed.
pub proof fn law_configured_keys_are_recognised(config: JsonView, key: Seq<char>)
    ensures
        claude_key_of(config) == Some(key) <==> {
            &&& json::get_view(config, "primaryApiKey"@) is Some
            &&& json::get_view(config, "primaryApiKey"@)->0 is Text
            &&& text::trimmed(json::get_view(config, "primaryApiKey"@)->0->Text_0) == key
            &&& "sk-ant-"@.is_prefix_of(key)
        },
{
}

/// The key is that of the first file that is there, is JSON and holds one; where
/// no file does, there is none.
pub proof fn law_first_file_with_a_key_wins(files: Seq<Option<String>>, i: int)
    ensures
        0 <= i < files.len() && (files[i] matches Some(s) && interop::parsed_json(s@) is Ok
            && claude_key_of(interop::parsed_json(s@)->Ok_0) is Some) && (forall|j: int|
            0 <= j < i ==> ((#[trigger] files[j]) matches Some(s) ==> interop::parsed_json(s@) is Err
                || claude_key_of(interop::parsed_json(s@)->Ok_0) is None)) ==> first_claude_key(
            files,
        ) == claude_key_of(interop::parsed_json(files[i]->0@)->Ok_0),
        (forall|j: int|
            0 <= j < files.len() ==> ((#[trigger] files[j]) matches Some(s) ==> interop::parsed_json(
                s@,
            ) is Err || claude_key_of(interop::parsed_json(s@)->Ok_0) is None))
            ==> first_claude_key(files) is None,
    decreases files.len(),
{
    if files.len() > 0 {
        let rest = files.skip(1);
        assert forall|j: int| 0 <= j < rest.len() implies #[trigger] rest[j] == files[j + 1] by {
        }
        law_first_file_with_a_key_wins(rest, i - 1);
    }
}

/// A stored token counts exactly when it is a text of more than white space, and
/// it is taken as it stands, untrimmed.
pub proof fn law_stored_tokens_are_taken_verbatim(auth: JsonView, key: Seq<char>, token: Seq<char>)
    ensures
        token_of(auth, key) == Some(token) <==> {
            &&& json::get_view(auth, "tokens"@) is Some
            &&& json::get_view(json::get_view(auth, "tokens"@)->0, key) == Some(
                JsonView::Text(token),
            )
            &&& text::trimmed(token).len() > 0
        },
{
}

/// A snapshot of a stored file holds each of its three tokens under its own key.
pub proof fn law_snapshots_hold_the_stored_tokens(s: CodexAuthSnapshot, auth: JsonView)
    requires
        snapshot_of(s, Some(auth)),
    ensures
        s.found,
        records::opt_view(s.access_token) == token_of(auth, "access_token"@),
        records::opt_view(s.refresh_token) == token_of(auth, "refresh_token"@),
        records::opt_view(s.account_id) == token_of(auth, "account_id"@),
{
}

/// A file counts exactly when it is there and is JSON.
pub proof fn law_only_json_files_count(contents: Seq<char>)
    ensures
        parsed_file(None) is None,
        match interop::parsed_json(contents) {
            Ok(value) => parsed_file(Some(contents)) == Some(value),
            Err(_) => parsed_file(Some(contents)) is None,
        },
{
}

/// A refresh changes the tokens that came back and the time of the refresh, and
/// leaves everything else in the file as it is.
pub proof fn law_refreshes_change_tokens_alone(
    auth: JsonView,
    refreshed: CodexRefreshResponse,
    now: Seq<char>,
    key: Seq<char>,
)
    requires
        auth is Object,
    ensures
        ({
            let written = refreshed_auth(auth, refreshed, now);
            let tokens = json::get_view(written, "tokens"@)->0;
            let before = json::get_view(auth, "tokens"@);
            &&& json::get_view(written, "last_refresh"@) == Some(JsonView::Text(now))
            &&& key != "tokens"@ && key != "last_refresh"@ ==> json::get_view(written, key)
                == json::get_view(auth, key)
            &&& json::get_view(written, "tokens"@) is Some && tokens is Object
            &&& refreshed.id_token matches Some(t) ==> json::get_view(tokens, "id_token"@) == Some(
                JsonView::Text(t@),
            )
            &&& refreshed.access_token matches Some(t) ==> json::get_view(tokens, "access_token"@)
                == Some(JsonView::Text(t@))
            &&& refreshed.refresh_token matches Some(t) ==> json::get_view(
                tokens,
                "refresh_token"@,
            ) == Some(JsonView::Text(t@))
            &&& !(key == "id_token"@ && refreshed.id_token is Some) && !(key == "access_token"@
                && refreshed.access_token is Some) && !(key == "refresh_token"@
                && refreshed.refresh_token is Some) ==> json::get_view(tokens, key) == (
            match before {
                Some(JsonView::Object(o)) => json::get_view(JsonView::Object(o), key),
                _ => None,
            })
        }),
{
    reveal_strlit("tokens");
    reveal_strlit("last_refresh");
    reveal_strlit("id_token");
    reveal_strlit("access_token");
    reveal_strlit("refresh_token");
    assert("tokens"@.len() == 6);
    assert("last_refresh"@.len() == 12);
    assert("id_token"@.len() == 8);
    assert("access_token"@.len() == 12);
    assert("refresh_token"@.len() == 13);
}

/// A recovery is published exactly when its provider's generation is still the
/// observed one and no counter overflows; it is refused otherwise, for a changed
/// generation first. What is published is what was recovered: all three values
/// of the one provider, or the key of the other.
pub proof fn law_recoveries_are_published_whole(
    current: SnapshotView,
    expected: u64,
    refreshed: CredentialsView,
    api_key: Seq<char>,
)
    ensures
        ({
            let codex = codex_publication(current, expected, refreshed);
            &&& codex is Ok <==> current.codex_generation == expected && current.generation
                < u64::MAX && current.codex_generation < u64::MAX
            &&& codex matches Ok(next) ==> {
                &&& next.credentials.codex_access_token == refreshed.codex_access_token
                &&& next.credentials.codex_account_id == refreshed.codex_account_id
                &&& next.credentials.codex_installation_id == refreshed.codex_installation_id
            }
            &&& current.codex_generation != expected ==> codex == Err::<SnapshotView, Seq<char>>(
                "Codex credential generation changed while publishing authentication recovery"@,
            )
            &&& current.codex_generation == expected && current.generation == u64::MAX ==> codex
                == Err::<SnapshotView, Seq<char>>("credential generation overflow"@)
            &&& current.codex_generation == expected && current.generation < u64::MAX
                && current.codex_generation == u64::MAX ==> codex == Err::<
                SnapshotView,
                Seq<char>,
            >("Codex credential generation overflow"@)
        }),
        ({
            let anthropic = anthropic_publication(current, expected, api_key);
            &&& anthropic is Ok <==> current.anthropic_generation == expected && current.generation
                < u64::MAX && current.anthropic_generation < u64::MAX
            &&& anthropic matches Ok(next) ==> next.credentials.anthropic_api_key == Some(api_key)
            &&& current.anthropic_generation != expected ==> anthropic == Err::<
                SnapshotView,
                Seq<char>,
            >("Anthropic credential generation changed while publishing authentication recovery"@)
            &&& current.anthropic_generation == expected && current.generation == u64::MAX
                ==> anthropic == Err::<SnapshotView, Seq<char>>("credential generation overflow"@)
            &&& current.anthropic_generation == expected && current.generation < u64::MAX
                && current.anthropic_generation == u64::MAX ==> anthropic == Err::<
                SnapshotView,
                Seq<char>,
            >("Anthropic credential generation overflow"@)
        }),
{
}

/// Credentials read as the names of their fields, each with whether it is set
/// and with nothing of its value.
pub proof fn law_redaction_tells_what_is_set(c: CredentialsView)
    ensures
        ({
            let shown = |secret: Option<Seq<char>>|
                if secret is Some {
                    "Some(\"[REDACTED]\")"@
                } else {
                    "None"@
                };
            redacted_text(c) == "Credentials { codex_access_token: "@ + shown(c.codex_access_token)
                + ", codex_account_id: "@ + shown(c.codex_account_id)
                + ", codex_installation_id: "@ + shown(c.codex_installation_id)
                + ", anthropic_api_key: "@ + shown(c.anthropic_api_key) + " }"@
        }),
{
}

/// A publication hands out the snapshot it comes to, or fails with its message.
pub proof fn law_publications_hand_out_the_snapshot(
    r: Result<CredentialSnapshot, Failure>,
    outcome: Result<SnapshotView, Seq<char>>,
)
    requires
        published(r, outcome),
    ensures
        r is Ok <==> outcome is Ok,
        outcome matches Ok(next) ==> {
            &&& r->Ok_0.generation == next.generation
            &&& r->Ok_0.codex_generation == next.codex_generation
            &&& r->Ok_0.anthropic_generation == next.anthropic_generation
            &&& records::opt_view(r->Ok_0.credentials.codex_access_token)
                == next.credentials.codex_access_token
            &&& records::opt_view(r->Ok_0.credentials.codex_account_id)
                == next.credentials.codex_account_id
            &&& records::opt_view(r->Ok_0.credentials.codex_installation_id)
                == next.credentials.codex_installation_id
            &&& records::opt_view(r->Ok_0.credentials.anthropic_api_key)
                == next.credentials.anthropic_api_key
        },
        outcome matches Err(message) ==> r->Err_0.message@ == message,
{
}

/// Without a stored file there is nothing to take a token from.
pub proof fn law_no_file_has_no_tokens(s: CodexAuthSnapshot)
    ensures
        snapshot_of(s, None) <==> !s.found && s.access_token is None && s.refresh_token is None
            && s.account_id is None,
{
}

} // verus!
