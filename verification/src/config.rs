//! The configuration: per-host options, the default `Accept` value, and the
//! credentials that go with a host.
//!
//! The configuration is read once and not changed afterwards. Its maps are
//! keyed by hostname; a hostname is always looked up in lowercase, so the
//! maps hold lowercase keys only (`wf`). A missing part of the configuration
//! is an empty map or the built-in `Accept` value, never an error.

use crate::resolve::{list_values, text_values};
use crate::text::is_lowercase;
use vstd::hash_map::StringHashMap;
use vstd::prelude::*;

verus! {

/// The `Accept` value that applies where the configuration names none.
pub open spec fn default_accept_value() -> Seq<char> {
    "application/json, */*"@
}

/// The `Accept` value that applies where the configuration names none.
pub fn default_accept() -> (value: String)
    ensures
        value@ == default_accept_value(),
{
    "application/json, */*".to_owned()
}

/// Options that are injected by host, and the default `Accept` value.
pub struct Opts {
    hosts: StringHashMap<Vec<String>>,
    default_accept: String,
}

/// What an [`Opts`] holds.
pub struct OptsView {
    /// The options to inject, by lowercase hostname.
    pub hosts: Map<Seq<char>, Seq<Seq<char>>>,
    /// The value of the `Accept` header that is sent where the command line
    /// names none.
    pub default_accept: Seq<char>,
}

impl View for Opts {
    type V = OptsView;

    closed spec fn view(&self) -> OptsView {
        OptsView { hosts: list_values(self.hosts@), default_accept: self.default_accept@ }
    }
}

impl Opts {
    /// Every hostname that has options is in lowercase.
    pub open spec fn wf(&self) -> bool {
        forall|host: Seq<char>| #[trigger] self@.hosts.contains_key(host) ==> is_lowercase(host)
    }

    /// The options by hostname.
    pub fn hosts(&self) -> (hosts: &StringHashMap<Vec<String>>)
        ensures
            list_values(hosts@) == self@.hosts,
    {
        &self.hosts
    }

    /// The default `Accept` value.
    pub fn default_accept(&self) -> (value: &String)
        ensures
            value@ == self@.default_accept,
    {
        &self.default_accept
    }

    /// Replaces the default `Accept` value.
    pub fn set_default_accept(&mut self, value: String)
        ensures
            final(self)@.default_accept == value@,
            final(self)@.hosts == old(self)@.hosts,
            old(self).wf() ==> final(self).wf(),
    {
        self.default_accept = value;
    }

    /// Sets the options of `host`, in place of any it had. A hostname that is
    /// not in lowercase can never be looked up: it is not stored, and the
    /// result is `false`.
    pub fn insert_host(&mut self, host: String, options: Vec<String>) -> (stored: bool)
        ensures
            stored == is_lowercase(host@),
            final(self)@.default_accept == old(self)@.default_accept,
            final(self)@.hosts == if stored {
                old(self)@.hosts.insert(host@, options.deep_view())
            } else {
                old(self)@.hosts
            },
            old(self).wf() ==> final(self).wf(),
    {
        let lowered = host.as_str().to_lowercase();
        if lowered == host {
            let ghost before = self.hosts@;
            let ghost key = host@;
            self.hosts.insert(host, options);
            assert(list_values(self.hosts@) =~= list_values(before).insert(
                key,
                options.deep_view(),
            ));
            true
        } else {
            false
        }
    }
}

impl Default for Opts {
    /// No host has options, and the default `Accept` value is the built-in
    /// one.
    fn default() -> (opts: Opts)
        ensures
            opts@.hosts == Map::<Seq<char>, Seq<Seq<char>>>::empty(),
            opts@.default_accept == default_accept_value(),
            opts.wf(),
    {
        let opts = Opts { hosts: StringHashMap::new(), default_accept: default_accept() };
        assert(opts@.hosts =~= Map::<Seq<char>, Seq<Seq<char>>>::empty());
        opts
    }
}

/// The credentials: which auth key a host uses, and which secret a key
/// stands for.
pub struct Auth {
    hosts: StringHashMap<String>,
    keys: StringHashMap<String>,
}

/// What an [`Auth`] holds.
pub struct AuthView {
    /// The auth key, by lowercase hostname.
    pub hosts: Map<Seq<char>, Seq<char>>,
    /// The secret, by auth key. A key without an entry is its own secret.
    pub keys: Map<Seq<char>, Seq<char>>,
}

impl View for Auth {
    type V = AuthView;

    closed spec fn view(&self) -> AuthView {
        AuthView { hosts: text_values(self.hosts@), keys: text_values(self.keys@) }
    }
}

impl Auth {
    /// Every hostname that has an auth key is in lowercase.
    pub open spec fn wf(&self) -> bool {
        forall|host: Seq<char>| #[trigger] self@.hosts.contains_key(host) ==> is_lowercase(host)
    }

    /// The auth keys by hostname.
    pub fn hosts(&self) -> (hosts: &StringHashMap<String>)
        ensures
            text_values(hosts@) == self@.hosts,
    {
        &self.hosts
    }

    /// The secrets by auth key.
    pub fn keys(&self) -> (keys: &StringHashMap<String>)
        ensures
            text_values(keys@) == self@.keys,
    {
        &self.keys
    }

    /// Sets the auth key of `host`, in place of any it had. A hostname that
    /// is not in lowercase can never be looked up: it is not stored, and the
    /// result is `false`.
    pub fn insert_host(&mut self, host: String, key: String) -> (stored: bool)
        ensures
            stored == is_lowercase(host@),
            final(self)@.keys == old(self)@.keys,
            final(self)@.hosts == if stored {
                old(self)@.hosts.insert(host@, key@)
            } else {
                old(self)@.hosts
            },
            old(self).wf() ==> final(self).wf(),
    {
        let lowered = host.as_str().to_lowercase();
        if lowered == host {
            let ghost before = self.hosts@;
            let ghost name = host@;
            let ghost value = key@;
            self.hosts.insert(host, key);
            assert(text_values(self.hosts@) =~= text_values(before).insert(name, value));
            true
        } else {
            false
        }
    }

    /// Makes `key` an alias of `secret`, in place of any secret it stood for.
    pub fn insert_key(&mut self, key: String, secret: String)
        ensures
            final(self)@.hosts == old(self)@.hosts,
            final(self)@.keys == old(self)@.keys.insert(key@, secret@),
            old(self).wf() ==> final(self).wf(),
    {
        let ghost before = self.keys@;
        let ghost name = key@;
        let ghost value = secret@;
        self.keys.insert(key, secret);
        assert(text_values(self.keys@) =~= text_values(before).insert(name, value));
    }
}

impl Default for Auth {
    /// No host has an auth key, and no key has an alias.
    fn default() -> (auth: Auth)
        ensures
            auth@.hosts == Map::<Seq<char>, Seq<char>>::empty(),
            auth@.keys == Map::<Seq<char>, Seq<char>>::empty(),
            auth.wf(),
    {
        let auth = Auth { hosts: StringHashMap::new(), keys: StringHashMap::new() };
        assert(auth@.hosts =~= Map::<Seq<char>, Seq<char>>::empty());
        assert(auth@.keys =~= Map::<Seq<char>, Seq<char>>::empty());
        auth
    }
}

/// The whole configuration.
pub struct Config {
    /// What is injected by host, and the default `Accept` value.
    pub opts: Opts,
    /// The credentials.
    pub auth: Auth,
}

/// What a [`Config`] holds.
pub struct ConfigView {
    /// The options part.
    pub opts: OptsView,
    /// The credentials part.
    pub auth: AuthView,
}

impl View for Config {
    type V = ConfigView;

    open spec fn view(&self) -> ConfigView {
        ConfigView { opts: self.opts@, auth: self.auth@ }
    }
}

impl Config {
    /// Every hostname that the configuration is keyed by is in lowercase.
    pub open spec fn wf(&self) -> bool {
        self.opts.wf() && self.auth.wf()
    }
}

impl Default for Config {
    /// The configuration that applies where there is no configuration file.
    fn default() -> (config: Config)
        ensures
            config@.opts.hosts == Map::<Seq<char>, Seq<Seq<char>>>::empty(),
            config@.opts.default_accept == default_accept_value(),
            config@.auth.hosts == Map::<Seq<char>, Seq<char>>::empty(),
            config@.auth.keys == Map::<Seq<char>, Seq<char>>::empty(),
            config.wf(),
    {
        Config { opts: Opts::default(), auth: Auth::default() }
    }
}

/// What reading the configuration file came to.
pub enum ConfigSource {
    /// There is no configuration file.
    Missing,
    /// There is a file, and it could not be read. The text says why.
    Unreadable(String),
    /// The file was read, and it does not hold a configuration. The text
    /// says why.
    Malformed(String),
    /// The file held this configuration.
    Parsed(Config),
}

/// Why there is no configuration to work with.
pub enum ConfigError {
    /// The configuration file could not be read. The text says why.
    Unreadable(String),
    /// The configuration file does not hold a configuration. The text says
    /// why.
    Malformed(String),
}

impl Config {
    /// Settles on the configuration to work with. Without a file the
    /// defaults apply. A file that cannot be read or does not hold a
    /// configuration is an error, with the reason that was given: the
    /// defaults never stand in for a broken file.
    pub fn from_source(source: ConfigSource) -> (loaded: Result<Config, ConfigError>)
        ensures
            match source {
                ConfigSource::Missing => {
                    &&& loaded matches Ok(config)
                    &&& config@.opts.hosts == Map::<Seq<char>, Seq<Seq<char>>>::empty()
                    &&& config@.opts.default_accept == default_accept_value()
                    &&& config@.auth.hosts == Map::<Seq<char>, Seq<char>>::empty()
                    &&& config@.auth.keys == Map::<Seq<char>, Seq<char>>::empty()
                    &&& config.wf()
                },
                ConfigSource::Unreadable(reason) => loaded == Err::<Config, ConfigError>(
                    ConfigError::Unreadable(reason),
                ),
                ConfigSource::Malformed(reason) => loaded == Err::<Config, ConfigError>(
                    ConfigError::Malformed(reason),
                ),
                ConfigSource::Parsed(config) => loaded == Ok::<Config, ConfigError>(config),
            },
    {
        match source {
            ConfigSource::Missing => Ok(Config::default()),
            ConfigSource::Unreadable(reason) => Err(ConfigError::Unreadable(reason)),
            ConfigSource::Malformed(reason) => Err(ConfigError::Malformed(reason)),
            ConfigSource::Parsed(config) => Ok(config),
        }
    }
}

} // verus!
