//! The daemon's configuration: where it is found, and what it must hold.
use vstd::prelude::*;

use crate::json::Json;
use crate::paths::{self, join};
use crate::records;
use crate::text;
use crate::text::chars_of;
use crate::types::Failure;

verus! {

pub const DAEMON_CONFIG_FILE: &'static str = "config.toml";

pub const PRODUCT_CONFIG_DIR: &'static str = "pi-relay";

pub const DAEMON_CONFIG_DIR: &'static str = "agentd";

pub const DEFAULT_BIND: &'static str = "127.0.0.1:8787";

pub const DEFAULT_RUNTIME_BIND: &'static str = "127.0.0.1:8786";

/// The provider of a model; one that the daemon's rules do not name is kept by
/// its name.
#[derive(Debug, PartialEq, Eq)]
pub enum ProviderKind {
    OpenAi,
    Claude,
    Other(String),
}

/// How hard a model is asked to think; a level that the daemon's rules do not
/// name is kept by its name.
#[derive(Debug, PartialEq, Eq)]
pub enum ReasoningEffort {
    Medium,
    High,
    Other(String),
}

/// The model of a session.
#[derive(Debug, PartialEq, Eq)]
pub struct ProviderConfig {
    pub kind: ProviderKind,
    pub model: String,
    pub reasoning_effort: ReasoningEffort,
    pub max_tokens: Option<u32>,
    pub prompt_cache: Option<Json>,
}

/// The model that parents use where none is configured.
pub open spec fn is_stable_default(p: ProviderConfig) -> bool {
    &&& p.kind is OpenAi
    &&& p.model@ == "gpt-5.6-sol"@
    &&& p.reasoning_effort is High
    &&& p.max_tokens is None
    &&& p.prompt_cache is None
}

pub fn stable_default_provider() -> (r: ProviderConfig)
    ensures
        is_stable_default(r),
{
    ProviderConfig {
        kind: ProviderKind::OpenAi,
        model: "gpt-5.6-sol".to_owned(),
        reasoning_effort: ReasoningEffort::High,
        max_tokens: None,
        prompt_cache: None,
    }
}

/// General daemon settings.
#[derive(Debug, PartialEq, Eq)]
pub struct DaemonConfig {
    pub default_parent_model: ProviderConfig,
}

impl Default for DaemonConfig {
    fn default() -> (r: DaemonConfig)
        ensures
            is_stable_default(r.default_parent_model),
    {
        DaemonConfig { default_parent_model: stable_default_provider() }
    }
}

/// The configuration file, field by field.
#[derive(Debug, PartialEq, Eq)]
pub struct DaemonConfigFile {
    pub database_url: Option<String>,
    pub bind: Option<String>,
    pub runtime_bind: Option<String>,
    pub default_parent_model: Option<ProviderConfig>,
}

/// What the daemon starts with.
#[derive(Debug, PartialEq, Eq)]
pub struct DaemonStartupPolicy {
    pub database_url: String,
    pub bind: String,
    pub runtime_bind: String,
    pub daemon_config: DaemonConfig,
}

pub open spec fn blank(s: Seq<char>) -> bool {
    text::trimmed(s).len() == 0
}

/// A setting, or what stands in for it.
pub open spec fn setting(value: Option<String>, default: Seq<char>) -> Seq<char> {
    match value {
        Some(s) => s@,
        None => default,
    }
}

/// Why a configuration file is refused.
pub open spec fn config_refusal(file: DaemonConfigFile) -> Option<Seq<char>> {
    if file.database_url is None {
        Some("database_url is required"@)
    } else if blank(file.database_url->0@) {
        Some("database_url must not be blank"@)
    } else if blank(setting(file.bind, DEFAULT_BIND@)) {
        Some("bind must not be blank"@)
    } else if blank(setting(file.runtime_bind, DEFAULT_RUNTIME_BIND@)) {
        Some("runtime_bind must not be blank"@)
    } else if file.default_parent_model matches Some(p) && blank(p.model@) {
        Some("default_parent_model"@ + ".model must not be blank"@)
    } else {
        None
    }
}

/// A configured provider needs a model.
pub fn provider_from_strict(field: &str, provider: ProviderConfig) -> (r: Result<
    ProviderConfig,
    Failure,
>)
    ensures
        r is Ok <==> !blank(provider.model@),
        r matches Ok(p) ==> p == provider,
        r matches Err(e) ==> e@ == field@ + ".model must not be blank"@,
{
    if provider.model.as_str().trim().is_empty() {
        Err(Failure { message: field.to_owned().concat(".model must not be blank") })
    } else {
        Ok(provider)
    }
}

impl DaemonStartupPolicy {
    /// The policy of a configuration file: the database must be named, the
    /// rest has defaults, and nothing may be blank.
    pub fn try_from(file: DaemonConfigFile) -> (r: Result<DaemonStartupPolicy, Failure>)
        ensures
            r is Ok <==> config_refusal(file) is None,
            r matches Err(e) ==> Some(e@) == config_refusal(file),
            r matches Ok(p) ==> {
                &&& file.database_url == Some(p.database_url)
                &&& p.bind@ == setting(file.bind, DEFAULT_BIND@)
                &&& p.runtime_bind@ == setting(file.runtime_bind, DEFAULT_RUNTIME_BIND@)
                &&& match file.default_parent_model {
                    Some(m) => p.daemon_config.default_parent_model == m,
                    None => is_stable_default(p.daemon_config.default_parent_model),
                }
            },
    {
        let database_url = match file.database_url {
            Some(url) => url,
            None => {
                return Err(Failure::new("database_url is required"));
            },
        };
        if database_url.as_str().trim().is_empty() {
            return Err(Failure::new("database_url must not be blank"));
        }
        let bind = match file.bind {
            Some(bind) => bind,
            None => DEFAULT_BIND.to_owned(),
        };
        if bind.as_str().trim().is_empty() {
            return Err(Failure::new("bind must not be blank"));
        }
        let runtime_bind = match file.runtime_bind {
            Some(bind) => bind,
            None => DEFAULT_RUNTIME_BIND.to_owned(),
        };
        if runtime_bind.as_str().trim().is_empty() {
            return Err(Failure::new("runtime_bind must not be blank"));
        }
        let default_parent_model = match file.default_parent_model {
            Some(provider) => match provider_from_strict("default_parent_model", provider) {
                Ok(provider) => provider,
                Err(e) => {
                    return Err(e);
                },
            },
            None => stable_default_provider(),
        };
        Ok(
            DaemonStartupPolicy {
                database_url,
                bind,
                runtime_bind,
                daemon_config: DaemonConfig { default_parent_model },
            },
        )
    }
}

pub open spec fn absolute(path: Seq<char>) -> bool {
    path.len() > 0 && path[0] == '/'
}

fn is_absolute(path: &str) -> (r: bool)
    ensures
        r == absolute(path@),
{
    let chars = chars_of(path);
    chars.len() > 0 && chars[0] == '/'
}

/// A variable that is set and not empty.
pub open spec fn set_value(value: Option<Seq<char>>) -> Option<Seq<char>> {
    match value {
        Some(v) => if v.len() > 0 {
            Some(v)
        } else {
            None
        },
        None => None,
    }
}

/// Where the configuration is found: below `XDG_CONFIG_HOME` where that is set,
/// else below `.config` in `HOME`. Either must be absolute.
pub open spec fn config_root(xdg_config_home: Option<Seq<char>>, home: Option<Seq<char>>) -> Result<
    Seq<char>,
    Seq<char>,
> {
    match set_value(xdg_config_home) {
        Some(xdg) => if absolute(xdg) {
            Ok(paths::joined(paths::joined(xdg, PRODUCT_CONFIG_DIR@), DAEMON_CONFIG_DIR@))
        } else {
            Err("XDG_CONFIG_HOME must be an absolute path"@)
        },
        None => match set_value(home) {
            Some(home) => if absolute(home) {
                Ok(
                    paths::joined(
                        paths::joined(paths::joined(home, ".config"@), PRODUCT_CONFIG_DIR@),
                        DAEMON_CONFIG_DIR@,
                    ),
                )
            } else {
                Err("HOME must be an absolute path"@)
            },
            None => Err("HOME is required when XDG_CONFIG_HOME is unset"@),
        },
    }
}

/// The outcome is this text, or fails with this message.
pub open spec fn comes_to(r: Result<String, Failure>, outcome: Result<Seq<char>, Seq<char>>) -> bool {
    match outcome {
        Ok(s) => r matches Ok(t) && t@ == s,
        Err(m) => r matches Err(e) && e@ == m,
    }
}

pub fn config_root_from_env(xdg_config_home: Option<&str>, home: Option<&str>) -> (r: Result<
    String,
    Failure,
>)
    ensures
        comes_to(
            r,
            config_root(records::opt_str_view(xdg_config_home), records::opt_str_view(home)),
        ),
{
    if let Some(xdg) = xdg_config_home {
        if !xdg.is_empty() {
            if !is_absolute(xdg) {
                return Err(Failure::new("XDG_CONFIG_HOME must be an absolute path"));
            }
            return Ok(join(join(xdg, PRODUCT_CONFIG_DIR).as_str(), DAEMON_CONFIG_DIR));
        }
    }
    let home = match home {
        Some(home) => home,
        None => {
            return Err(Failure::new("HOME is required when XDG_CONFIG_HOME is unset"));
        },
    };
    if home.is_empty() {
        return Err(Failure::new("HOME is required when XDG_CONFIG_HOME is unset"));
    }
    if !is_absolute(home) {
        return Err(Failure::new("HOME must be an absolute path"));
    }
    Ok(
        join(
            join(join(home, ".config").as_str(), PRODUCT_CONFIG_DIR).as_str(),
            DAEMON_CONFIG_DIR,
        ),
    )
}

/// What the daemon was started with, once its configuration is loaded.
#[derive(Debug, PartialEq, Eq)]
pub struct Config {
    pub database_url: String,
    pub bind: String,
    pub runtime_bind: String,
    pub config_root: String,
    pub daemon_config: DaemonConfig,
}

impl Config {
    /// The directory of the configuration. The daemon takes no arguments.
    pub fn locate(xdg_config_home: Option<&str>, home: Option<&str>, args: &Vec<String>) -> (r:
        Result<String, Failure>)
        ensures
            args@.len() > 0 ==> (r matches Err(e) && e@
                == "pi-agentd accepts no arguments; configure it in "@ + DAEMON_CONFIG_FILE@
                + " (unknown argument: "@ + args@[0]@ + ")"@),
            args@.len() == 0 ==> comes_to(
                r,
                config_root(records::opt_str_view(xdg_config_home), records::opt_str_view(home)),
            ),
    {
        if args.len() > 0 {
            let message = "pi-agentd accepts no arguments; configure it in ".to_owned().concat(
                DAEMON_CONFIG_FILE,
            ).concat(" (unknown argument: ").concat(args[0].as_str()).concat(")");
            return Err(Failure { message });
        }
        config_root_from_env(xdg_config_home, home)
    }

    /// The file in that directory.
    pub fn file(config_root: &str) -> (r: String)
        ensures
            r@ == paths::joined(config_root@, DAEMON_CONFIG_FILE@),
    {
        join(config_root, DAEMON_CONFIG_FILE)
    }

    /// The configuration under the policy that was loaded from there.
    pub fn with_policy(config_root: String, policy: DaemonStartupPolicy) -> (r: Config)
        ensures
            r.config_root == config_root,
            r.database_url == policy.database_url,
            r.bind == policy.bind,
            r.runtime_bind == policy.runtime_bind,
            r.daemon_config == policy.daemon_config,
    {
        Config {
            database_url: policy.database_url,
            bind: policy.bind,
            runtime_bind: policy.runtime_bind,
            config_root,
            daemon_config: policy.daemon_config,
        }
    }
}

/// Nothing that a policy is made of is blank, whatever file it came from.
pub proof fn law_policies_are_filled(file: DaemonConfigFile)
    requires
        config_refusal(file) is None,
    ensures
        file.database_url is Some && !blank(file.database_url->0@),
        !blank(setting(file.bind, DEFAULT_BIND@)),
        !blank(setting(file.runtime_bind, DEFAULT_RUNTIME_BIND@)),
{
}

/// The configuration is always at an absolute path.
pub proof fn law_config_root_is_absolute(
    xdg_config_home: Option<Seq<char>>,
    home: Option<Seq<char>>,
)
    ensures
        config_root(xdg_config_home, home) matches Ok(root) ==> absolute(root),
{
    reveal_strlit("pi-relay");
    reveal_strlit("agentd");
    reveal_strlit(".config");
    assert("pi-relay"@[0] == 'p');
    assert("agentd"@[0] == 'a');
    assert(".config"@[0] == '.');
}

/// A file is refused in exactly these cases, the first that holds: no database;
/// a blank database; a blank address of either kind; or a parent model without a
/// name. What is left out is never blank.
pub proof fn law_files_are_refused_in_order(file: DaemonConfigFile)
    ensures
        ({
            let refusal = config_refusal(file);
            let named = file.database_url is Some && text::trimmed(file.database_url->0@).len() > 0;
            let bind = file.bind matches Some(b) ==> text::trimmed(b@).len() > 0;
            let runtime_bind = file.runtime_bind matches Some(b) ==> text::trimmed(b@).len() > 0;
            let model = file.default_parent_model matches Some(p) ==> text::trimmed(p.model@).len()
                > 0;
            &&& file.database_url is None ==> refusal == Some("database_url is required"@)
            &&& file.database_url is Some && !named ==> refusal == Some(
                "database_url must not be blank"@,
            )
            &&& named && !bind ==> refusal == Some("bind must not be blank"@)
            &&& named && bind && !runtime_bind ==> refusal == Some(
                "runtime_bind must not be blank"@,
            )
            &&& named && bind && runtime_bind && !model ==> refusal == Some(
                "default_parent_model"@ + ".model must not be blank"@,
            )
            &&& refusal is None <==> named && bind && runtime_bind && model
        }),
{
    reveal_strlit("127.0.0.1:8787");
    reveal_strlit("127.0.0.1:8786");
    assert("127.0.0.1:8787"@[0] == '1');
    assert("127.0.0.1:8786"@[0] == '1');
    text::law_trimming("127.0.0.1:8787"@);
    text::law_trimming("127.0.0.1:8786"@);
    assert(!text::is_white('1'));
}

/// A setting that is given is kept as it is; only one that is left out gets its
/// default.
pub proof fn law_given_settings_are_kept(value: String, default: Seq<char>)
    ensures
        setting(Some(value), default) == value@,
        setting(None, default) == default,
        DEFAULT_BIND@ == "127.0.0.1:8787"@,
        DEFAULT_RUNTIME_BIND@ == "127.0.0.1:8786"@,
{
}

/// The configuration is found below `XDG_CONFIG_HOME` exactly when that is set
/// to more than nothing, and below `.config` in `HOME` otherwise; whichever is
/// taken must be absolute, and one of the two must be there.
pub proof fn law_config_root_is_found(xdg: Option<Seq<char>>, home: Option<Seq<char>>)
    ensures
        ({
            let root = config_root(xdg, home);
            let has_xdg = xdg is Some && xdg->0.len() > 0;
            let has_home = home is Some && home->0.len() > 0;
            &&& has_xdg && xdg->0[0] == '/' ==> root == Ok::<Seq<char>, Seq<char>>(
                paths::joined(paths::joined(xdg->0, "pi-relay"@), "agentd"@),
            )
            &&& has_xdg && xdg->0[0] != '/' ==> root == Err::<Seq<char>, Seq<char>>(
                "XDG_CONFIG_HOME must be an absolute path"@,
            )
            &&& !has_xdg && has_home && home->0[0] == '/' ==> root == Ok::<Seq<char>, Seq<char>>(
                paths::joined(
                    paths::joined(paths::joined(home->0, ".config"@), "pi-relay"@),
                    "agentd"@,
                ),
            )
            &&& !has_xdg && has_home && home->0[0] != '/' ==> root == Err::<Seq<char>, Seq<char>>(
                "HOME must be an absolute path"@,
            )
            &&& !has_xdg && !has_home ==> root == Err::<Seq<char>, Seq<char>>(
                "HOME is required when XDG_CONFIG_HOME is unset"@,
            )
        }),
{
}

/// A location that is found is handed out, and one that is refused fails with
/// the reason.
pub proof fn law_locations_are_handed_out(
    r: Result<String, Failure>,
    outcome: Result<Seq<char>, Seq<char>>,
)
    requires
        comes_to(r, outcome),
    ensures
        r is Ok <==> outcome is Ok,
        outcome matches Ok(path) ==> r->Ok_0@ == path,
        outcome matches Err(message) ==> r->Err_0.message@ == message,
{
}

} // verus!
