//! Bootstrap configuration: its shape, its defaults, and the paths it names.
use vstd::prelude::*;
use vstd::string::*;
use crate::text::{chars_of, owned};

verus! {

/// The whole bootstrap configuration.
#[derive(Debug, Clone)]
pub struct Config {
    pub identity: IdentityConfig,
    pub agent: AgentConfig,
    pub provider: ProviderConfig,
    pub memory: MemoryConfig,
    pub channels: ChannelsConfig,
    pub tools: ToolsConfig,
}

/// Where the identity key lives.
#[derive(Debug, Clone)]
pub struct IdentityConfig {
    pub key_path: String,
}

/// Agent settings.
#[derive(Debug, Clone)]
pub struct AgentConfig {
    pub preamble: String,
    pub max_tokens: u64,
    pub streaming: bool,
}

/// Model provider settings.
#[derive(Debug, Clone)]
pub struct ProviderConfig {
    pub provider_type: String,
    pub model: String,
    pub api_key: Option<String>,
    pub base_url: Option<String>,
    pub routstr: Option<RoutstrConfig>,
}

/// Routstr settings.
#[derive(Debug, Clone)]
pub struct RoutstrConfig {
    pub base_url: String,
}

/// Memory service settings.
#[derive(Debug, Clone)]
pub struct MemoryConfig {
    pub enabled: bool,
    pub socket_path: String,
}

/// Which channels are enabled.
#[derive(Debug, Clone)]
pub struct ChannelsConfig {
    pub stdio: bool,
    pub telegram: Option<TelegramConfig>,
    pub nostr: Option<NostrConfig>,
}

/// Telegram settings.
#[derive(Debug, Clone)]
pub struct TelegramConfig {
    pub enabled: bool,
    pub token: Option<String>,
}

/// Nostr settings.
#[derive(Debug, Clone)]
pub struct NostrConfig {
    pub enabled: bool,
    pub relays: Vec<String>,
}

/// Which tools are enabled.
#[derive(Debug, Clone)]
pub struct ToolsConfig {
    pub shell: bool,
    pub filesystem: bool,
    pub http: bool,
    pub web_search: bool,
}

/// The default token budget of an agent turn.
pub fn default_max_tokens() -> (r: u64)
    ensures
        r == 4096,
{
    4096
}

/// The default of switches that are on unless turned off.
pub fn default_true() -> (r: bool)
    ensures
        r,
{
    true
}

/// The default memory socket: under `$XDG_RUNTIME_DIR` when set, else
/// under a per-user directory in `/tmp` when `$USER` is set, else
/// `/tmp/nomen.sock`.
pub open spec fn default_socket_path_spec(xdg_runtime_dir: Option<Seq<char>>, user: Option<Seq<char>>) -> Seq<char> {
    match xdg_runtime_dir {
        Some(xdg) => xdg + "/nomen/nomen.sock"@,
        None => match user {
            Some(u) => "/tmp/nomen-"@ + u + "/nomen.sock"@,
            None => "/tmp/nomen.sock"@,
        },
    }
}

/// The default memory socket path, given the values of `XDG_RUNTIME_DIR`
/// and `USER` (`None` when unset).
pub fn default_socket_path(xdg_runtime_dir: Option<&str>, user: Option<&str>) -> (r: String)
    ensures
        r@ == default_socket_path_spec(
            match xdg_runtime_dir { Some(x) => Some(x@), None => None },
            match user { Some(u) => Some(u@), None => None },
        ),
{
    match xdg_runtime_dir {
        Some(xdg) => {
            let mut r = owned(xdg);
            r.append("/nomen/nomen.sock");
            r
        },
        None => match user {
            Some(u) => {
                let mut r = owned("/tmp/nomen-");
                r.append(u);
                r.append("/nomen.sock");
                r
            },
            None => owned("/tmp/nomen.sock"),
        },
    }
}

impl Default for MemoryConfig {
    /// Memory off, no socket path.
    fn default() -> (c: Self)
        ensures
            !c.enabled,
            c.socket_path@ == Seq::<char>::empty(),
    {
        MemoryConfig { enabled: false, socket_path: String::new() }
    }
}

impl Default for ChannelsConfig {
    /// No channels.
    fn default() -> (c: Self)
        ensures
            !c.stdio,
            c.telegram is None,
            c.nostr is None,
    {
        ChannelsConfig { stdio: false, telegram: None, nostr: None }
    }
}

impl Default for ToolsConfig {
    /// Every tool switched off.
    fn default() -> (c: Self)
        ensures
            !c.shell && !c.filesystem && !c.http && !c.web_search,
    {
        ToolsConfig { shell: false, filesystem: false, http: false, web_search: false }
    }
}

/// `base` joined with `rest` as `PathBuf::join` does on Unix: an absolute
/// `rest` replaces `base`; otherwise `rest` is appended, with a `/` between
/// them unless `base` is empty or already ends in one.
pub open spec fn path_join(base: Seq<char>, rest: Seq<char>) -> Seq<char> {
    if rest.len() > 0 && rest[0] == '/' {
        rest
    } else if base.len() == 0 || base.last() == '/' {
        base + rest
    } else {
        base.push('/') + rest
    }
}

/// Joins two paths as `PathBuf::join` does on Unix.
pub fn join_path(base: &str, rest: &str) -> (r: String)
    ensures
        r@ == path_join(base@, rest@),
{
    let b = chars_of(base);
    let rs = chars_of(rest);
    if rs.len() > 0 && rs[0] == '/' {
        return owned(rest);
    }
    let mut r = owned(base);
    if b.len() > 0 && b[b.len() - 1] != '/' {
        r.push('/');
    }
    r.append(rest);
    r
}

/// The home directory: `$HOME` when set, else the current directory.
pub fn dirs_or_home(home: Option<&str>) -> (r: String)
    ensures
        r@ == match home {
            Some(h) => h@,
            None => "."@,
        },
{
    match home {
        Some(h) => owned(h),
        None => owned("."),
    }
}

/// The key path with a leading `~/` expanded against `home`.
pub open spec fn expanded_key_path_spec(key_path: Seq<char>, home: Seq<char>) -> Seq<char> {
    if key_path.len() >= 2 && key_path[0] == '~' && key_path[1] == '/' {
        path_join(home, key_path.skip(2))
    } else {
        key_path
    }
}

/// The places searched for a configuration file, in order: `nocelium.toml`
/// in the working directory, then `.config/nocelium/config.toml` under home.
pub open spec fn config_candidates_spec(home: Seq<char>) -> Seq<Seq<char>> {
    seq!["nocelium.toml"@, path_join(home, ".config/nocelium/config.toml"@)]
}

impl IdentityConfig {
    /// The key path with `~/` expanded against the home directory `home`.
    pub fn expanded_key_path(&self, home: &str) -> (r: String)
        ensures
            r@ == expanded_key_path_spec(self.key_path@, home@),
    {
        let k = chars_of(self.key_path.as_str());
        if k.len() >= 2 && k[0] == '~' && k[1] == '/' {
            let mut rest = String::new();
            let mut i: usize = 2;
            while i < k.len()
                invariant
                    2 <= i <= k.len(),
                    rest@ == k@.subrange(2, i as int),
                decreases k.len() - i,
            {
                rest.push(k[i]);
                assert(k@.subrange(2, i + 1) =~= k@.subrange(2, i as int).push(k@[i as int]));
                i = i + 1;
            }
            assert(k@.subrange(2, k.len() as int) =~= k@.skip(2));
            join_path(home, rest.as_str())
        } else {
            self.key_path.clone()
        }
    }
}

impl Config {
    /// The configuration files to look for, in order of preference.
    pub fn default_candidates(home: &str) -> (r: Vec<String>)
        ensures
            r@.len() == 2,
            r@[0]@ == config_candidates_spec(home@)[0],
            r@[1]@ == config_candidates_spec(home@)[1],
    {
        vec![owned("nocelium.toml"), join_path(home, ".config/nocelium/config.toml")]
    }

    /// The first candidate that exists, given which of them exist.
    pub fn first_existing(exists: &Vec<bool>) -> (r: Option<usize>)
        ensures
            match r {
                Some(i) => i < exists@.len() && exists@[i as int] && forall|j: int| 0 <= j < i ==> !exists@[j],
                None => forall|j: int| 0 <= j < exists@.len() ==> !exists@[j],
            },
    {
        let mut i: usize = 0;
        while i < exists.len()
            invariant
                i <= exists.len(),
                forall|j: int| 0 <= j < i ==> !exists@[j],
            decreases exists.len() - i,
        {
            if exists[i] {
                return Some(i);
            }
            i = i + 1;
        }
        None
    }

    /// Where the configuration comes from when no path is given: the first
    /// candidate (see `default_candidates`) that exists, given whether each
    /// exists; the defaults when none does.
    pub fn load_default(home: &str, exists: &Vec<bool>) -> (r: ConfigSource)
        requires
            exists@.len() == 2,
        ensures
            exists@[0] ==> (r matches ConfigSource::File(p) && p@ == config_candidates_spec(home@)[0]),
            !exists@[0] && exists@[1] ==> (r matches ConfigSource::File(p) && p@ == config_candidates_spec(home@)[1]),
            !exists@[0] && !exists@[1] ==> (r matches ConfigSource::Defaults(c) && is_default_config(c)),
    {
        let mut candidates = Self::default_candidates(home);
        match Self::first_existing(exists) {
            Some(i) => {
                let path = candidates.remove(i);
                ConfigSource::File(path)
            },
            None => ConfigSource::Defaults(Config::default()),
        }
    }
}

/// Where a configuration comes from.
pub enum ConfigSource {
    /// The file at this path.
    File(String),
    /// No file: the defaults.
    Defaults(Config),
}

/// The key file used when no configuration names one.
pub open spec fn default_key_path() -> Seq<char> {
    "~/.nocelium/identity.json"@
}

/// The configuration used when there is no configuration file: an
/// identity under `~/.nocelium`, the default preamble, OpenRouter's
/// automatic model through the OpenAI-compatible provider (its key from
/// the environment), the default token budget and streaming, memory off,
/// the interactive stdio channel, and the shell, file and HTTP tools.
pub open spec fn is_default_config(c: Config) -> bool {
    &&& c.identity.key_path@ == default_key_path()
    &&& c.agent.preamble@ == "You are Nocelium, a Nostr-native AI agent."@
    &&& c.agent.max_tokens == 4096
    &&& c.agent.streaming
    &&& c.provider.provider_type@ == "openai"@
    &&& c.provider.model@ == "openrouter/auto"@
    &&& c.provider.api_key is None
    &&& c.provider.base_url is None
    &&& c.provider.routstr is None
    &&& !c.memory.enabled
    &&& c.memory.socket_path@ == Seq::<char>::empty()
    &&& c.channels.stdio
    &&& c.channels.telegram is None
    &&& c.channels.nostr is None
    &&& c.tools.shell && c.tools.filesystem && c.tools.http && !c.tools.web_search
}

impl Default for Config {
    /// The configuration used when there is no configuration file.
    fn default() -> (c: Self)
        ensures
            is_default_config(c),
    {
        Config {
            identity: IdentityConfig { key_path: owned("~/.nocelium/identity.json") },
            agent: AgentConfig {
                preamble: owned("You are Nocelium, a Nostr-native AI agent."),
                max_tokens: default_max_tokens(),
                streaming: default_true(),
            },
            provider: ProviderConfig {
                provider_type: owned("openai"),
                model: owned("openrouter/auto"),
                api_key: None,
                base_url: None,
                routstr: None,
            },
            memory: MemoryConfig::default(),
            channels: ChannelsConfig { stdio: true, telegram: None, nostr: None },
            tools: ToolsConfig { shell: true, filesystem: true, http: true, web_search: false },
        }
    }
}

} // verus!
