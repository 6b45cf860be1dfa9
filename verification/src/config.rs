//! Server configuration: its fields and defaults, where the file is found, and how the
//! listening address and TLS source follow from it.
use vstd::prelude::*;
use crate::text::{decimal, owned, push_char, push_decimal, push_str};

verus! {

pub const DEFAULT_CONFIG_DIR: &'static str = ".humours";

pub const DEFAULT_CONFIG_FILE: &'static str = "config.toml";

/// What a new configuration file holds.
pub const DEFAULT_CONFIG_CONTENT: &'static str = "bind_address = \"0.0.0.0\"\nport = 8443\nauth_token = \"changeme\"\ndefault_refresh_rate_ms = 500\npoll_interval_ms = 50\nbroadcast_buffer = 256\n";

/// The server's configuration. Paths are held as text.
#[derive(Debug, Clone)]
pub struct Config {
    pub bind_address: String,
    pub port: u16,
    pub tls_cert: Option<String>,
    pub tls_key: Option<String>,
    pub auth_token: String,
    pub default_refresh_rate_ms: u64,
    pub poll_interval_ms: u64,
    pub broadcast_buffer: usize,
}

/// Command-line arguments: the configuration file to use, when one is named.
#[derive(Debug, Clone)]
pub struct Cli {
    /// Path to the config file; the default location is used when omitted.
    pub config: Option<String>,
}

/// The refresh rate for a subscription that names none.
pub fn default_refresh() -> (r: u64)
    ensures
        r == 500,
{
    500
}

/// The poll interval when the file gives none.
pub fn default_poll() -> (r: u64)
    ensures
        r == 50,
{
    50
}

/// The broadcast buffer size when the file gives none.
pub fn default_broadcast_buffer() -> (r: usize)
    ensures
        r == 256,
{
    256
}

/// Why the configuration cannot be used.
#[derive(Debug, Clone, Copy, PartialEq, Eq, Structural)]
pub enum ConfigError {
    /// No configuration directory is known and no file was named.
    NoConfigDirectory,
    /// Only one of `tls_cert` and `tls_key` is set.
    IncompleteTlsPair,
}

pub open spec fn config_error_text(e: ConfigError) -> Seq<char> {
    match e {
        ConfigError::NoConfigDirectory => "could not determine home directory"@,
        ConfigError::IncompleteTlsPair => "tls_cert and tls_key must both be set or both be omitted"@,
    }
}

impl ConfigError {
    /// The message reported for this error.
    pub fn message(&self) -> (r: String)
        ensures
            r@ == config_error_text(*self),
    {
        match self {
            ConfigError::NoConfigDirectory => owned("could not determine home directory"),
            ConfigError::IncompleteTlsPair => owned(
                "tls_cert and tls_key must both be set or both be omitted",
            ),
        }
    }
}

/// `base` joined with the relative path `p`, as `Path::join` does with `/` separators:
/// a separator goes between them unless `base` is empty or already ends in one.
pub open spec fn join_path(base: Seq<char>, p: Seq<char>) -> Seq<char> {
    if base.len() == 0 || base.last() == '/' {
        base + p
    } else {
        base + seq!['/'] + p
    }
}

fn push_path_component(s: &mut String, p: &str)
    ensures
        final(s)@ == join_path(old(s)@, p@),
{
    let v = crate::text::chars_of(s.as_str());
    let n = v.len();
    if n > 0 && v[n - 1] != '/' {
        push_char(s, '/');
        push_str(s, p);
        proof {
            assert(old(s)@.push('/') + p@ =~= old(s)@ + seq!['/'] + p@);
        }
    } else {
        push_str(s, p);
    }
}

/// The default location of the configuration file in a home directory:
/// `<home>/.humours/config.toml`.
pub fn default_config_path(home_dir: &str) -> (r: String)
    ensures
        r@ == join_path(join_path(home_dir@, ".humours"@), "config.toml"@),
{
    let mut s = owned(home_dir);
    push_path_component(&mut s, DEFAULT_CONFIG_DIR);
    push_path_component(&mut s, DEFAULT_CONFIG_FILE);
    s
}

/// Where the configuration comes from.
#[derive(Debug, Clone)]
pub enum ConfigPath {
    /// The file named on the command line, used as it is.
    Given(String),
    /// The default file, to be created with the default content when it does not exist.
    Default(String),
}

/// The configuration file to use: the one named on the command line, else
/// `~/.humours/config.toml` in the user's home directory, else an error when the home
/// directory is not known.
pub fn resolve_config_path(cli_config: Option<&str>, home_dir: Option<&str>) -> (r: Result<
    ConfigPath,
    ConfigError,
>)
    ensures
        cli_config matches Some(p) ==> r matches Ok(ConfigPath::Given(g)) && g@ == p@,
        cli_config is None ==> match home_dir {
            Some(d) => r matches Ok(ConfigPath::Default(f)) && f@ == join_path(
                join_path(d@, ".humours"@),
                "config.toml"@,
            ),
            None => r == Err::<ConfigPath, ConfigError>(ConfigError::NoConfigDirectory),
        },
{
    match cli_config {
        Some(p) => Ok(ConfigPath::Given(owned(p))),
        None => match home_dir {
            Some(d) => Ok(ConfigPath::Default(default_config_path(d))),
            None => Err(ConfigError::NoConfigDirectory),
        },
    }
}

/// The `host:port` text the listening address is parsed from.
pub fn bind_address_text(bind_address: &str, port: u16) -> (r: String)
    ensures
        r@ == bind_address@ + ":"@ + decimal(port as nat),
{
    let mut s = owned(bind_address);
    push_str(&mut s, ":");
    push_decimal(&mut s, port as u64);
    s
}

/// Where the server's TLS certificate and key come from.
#[derive(Debug, Clone)]
pub enum TlsSource {
    /// Read from these two files.
    Files { cert: String, key: String },
    /// Generated at start, self-signed.
    SelfSigned,
}

/// The TLS source the configuration asks for: both files when both are set, a
/// self-signed certificate when neither is, and an error when only one is.
pub fn tls_source(tls_cert: &Option<String>, tls_key: &Option<String>) -> (r: Result<
    TlsSource,
    ConfigError,
>)
    ensures
        match (tls_cert, tls_key) {
            (Some(c), Some(k)) => r matches Ok(TlsSource::Files { cert, key }) && cert@ == c@
                && key@ == k@,
            (None, None) => r matches Ok(TlsSource::SelfSigned),
            _ => r == Err::<TlsSource, ConfigError>(ConfigError::IncompleteTlsPair),
        },
{
    match (tls_cert, tls_key) {
        (Some(c), Some(k)) => Ok(TlsSource::Files { cert: owned(c.as_str()), key: owned(k.as_str()) }),
        (None, None) => Ok(TlsSource::SelfSigned),
        _ => Err(ConfigError::IncompleteTlsPair),
    }
}

} // verus!
