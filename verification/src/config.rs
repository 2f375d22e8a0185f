//! The server's settings, the file that may hold them, and what is in force where
//! nobody says anything.

use vstd::prelude::*;

verus! {

pub const DEFAULT_MAX_CONNECTIONS: usize = 500;

pub const DEFAULT_MAX_CONNECTIONS_PER_IP: usize = 10;

pub const DEFAULT_ICE_GATHERING_TIMEOUT_SECS: u64 = 2;

pub const DEFAULT_OVERALL_REQUEST_TIMEOUT_SECS: u64 = 30;

pub const DEFAULT_PERIODIC_CLEANUP_INTERVAL_SECS: u64 = 5;

pub const DEFAULT_STALE_CONNECTION_AGE_SECS: u64 = 120;

pub const DEFAULT_PORT: &'static str = "8080";

pub const DEFAULT_STUN_PORT: &'static str = "3478";

pub const DEFAULT_STUN_URL: &'static str = "auto";

pub const DEFAULT_PLATFORM_MODE: &'static str = "self";

/// The file that settings are read from.
pub const CONFIG_FILE: &'static str = ".env";

/// Who may read and write a new file of settings: its owner, and nobody else.
pub const CONFIG_FILE_MODE: u32 = 0o600;

/// A file of settings that says in full what is in force without it.
pub const DEFAULT_CONFIG_TEMPLATE: &'static str = r#"# WebRTC UDP Test Server Configuration
# All values have sensible defaults

# Mode: 'web' (public/strict) or 'self' (self-hosted/flexible)
PLATFORM_MODE=self

PORT=8080
STUN_PORT=3478

# STUN URL: auto (detect local IP), stun:host:port, or none
STUN_URL=auto

# NAT 1-to-1 Mapping (for Docker/Cloud)
#NAT_1TO1_IP=

# Connection Limits
MAX_CONNECTIONS=500
MAX_CONNECTIONS_PER_IP=10

# ICE Port Range (UDP)
#ICE_PORT_MIN=
#ICE_PORT_MAX=

# Timeouts (seconds)
ICE_GATHERING_TIMEOUT_SECS=2
OVERALL_REQUEST_TIMEOUT_SECS=30
STALE_CONNECTION_AGE_SECS=120
PERIODIC_CLEANUP_INTERVAL_SECS=5

# Logging: trace, debug, info, warn, error
RUST_LOG=info
"#;

/// A file that is to be written.
#[derive(Debug, Clone)]
pub struct NewFile {
    pub contents: String,
    /// The permission bits, where the system has them.
    pub mode: u32,
}

/// The file of settings that is to be written: the default one where there is none yet.
pub fn ensure_config_file(exists: bool) -> (file: Option<NewFile>)
    ensures
        match file {
            Some(f) => !exists && f.contents@ == DEFAULT_CONFIG_TEMPLATE@ && f.mode
                == CONFIG_FILE_MODE && f.mode == 0o600,
            None => exists,
        },
{
    if exists {
        None
    } else {
        Some(NewFile { contents: DEFAULT_CONFIG_TEMPLATE.to_owned(), mode: CONFIG_FILE_MODE })
    }
}

/// Who the server is for, which decides how long it keeps connections.
#[derive(Debug, Clone, Copy, PartialEq, Eq, Structural)]
pub enum PlatformMode {
    /// A public service with stricter limits.
    Web,
    /// A server of one's own, on which a test may run for as long as it likes.
    SelfHosted,
}

/// What the environment says: one field for each variable, `None` where it is unset or
/// not Unicode.
#[derive(Debug, Clone)]
pub struct EnvVars {
    pub port: Option<String>,
    pub stun_port: Option<String>,
    pub stun_url: Option<String>,
    pub platform_mode: Option<String>,
    pub max_connections: Option<String>,
    pub max_connections_per_ip: Option<String>,
    pub ice_gathering_timeout_secs: Option<String>,
    pub overall_request_timeout_secs: Option<String>,
    pub periodic_cleanup_interval_secs: Option<String>,
    pub stale_connection_age_secs: Option<String>,
    pub nat_1to1_ip: Option<String>,
    pub ice_port_min: Option<String>,
    pub ice_port_max: Option<String>,
}

/// The texts of an [`EnvVars`].
pub struct EnvVarsView {
    pub port: Option<Seq<char>>,
    pub stun_port: Option<Seq<char>>,
    pub stun_url: Option<Seq<char>>,
    pub platform_mode: Option<Seq<char>>,
    pub max_connections: Option<Seq<char>>,
    pub max_connections_per_ip: Option<Seq<char>>,
    pub ice_gathering_timeout_secs: Option<Seq<char>>,
    pub overall_request_timeout_secs: Option<Seq<char>>,
    pub periodic_cleanup_interval_secs: Option<Seq<char>>,
    pub stale_connection_age_secs: Option<Seq<char>>,
    pub nat_1to1_ip: Option<Seq<char>>,
    pub ice_port_min: Option<Seq<char>>,
    pub ice_port_max: Option<Seq<char>>,
}

impl View for EnvVars {
    type V = EnvVarsView;

    open spec fn view(&self) -> EnvVarsView {
        EnvVarsView {
            port: self.port.deep_view(),
            stun_port: self.stun_port.deep_view(),
            stun_url: self.stun_url.deep_view(),
            platform_mode: self.platform_mode.deep_view(),
            max_connections: self.max_connections.deep_view(),
            max_connections_per_ip: self.max_connections_per_ip.deep_view(),
            ice_gathering_timeout_secs: self.ice_gathering_timeout_secs.deep_view(),
            overall_request_timeout_secs: self.overall_request_timeout_secs.deep_view(),
            periodic_cleanup_interval_secs: self.periodic_cleanup_interval_secs.deep_view(),
            stale_connection_age_secs: self.stale_connection_age_secs.deep_view(),
            nat_1to1_ip: self.nat_1to1_ip.deep_view(),
            ice_port_min: self.ice_port_min.deep_view(),
            ice_port_max: self.ice_port_max.deep_view(),
        }
    }
}

/// The settings that the server runs with. Times are in whole seconds.
#[derive(Debug, Clone)]
pub struct ServerConfig {
    pub port: String,
    pub stun_port: String,
    pub stun_url: String,
    pub stun_enabled: bool,
    pub platform_mode: PlatformMode,
    pub max_connections: usize,
    pub max_connections_per_ip: usize,
    pub ice_gathering_timeout: u64,
    pub overall_request_timeout: u64,
    pub periodic_cleanup_interval: u64,
    pub stale_connection_age: u64,
    pub nat_1to1_ip: Option<String>,
    pub ice_port_range: Option<(u16, u16)>,
}

/// A [`ServerConfig`] with its texts as character sequences and its numbers unbounded.
pub struct ConfigView {
    pub port: Seq<char>,
    pub stun_port: Seq<char>,
    pub stun_url: Seq<char>,
    pub stun_enabled: bool,
    pub platform_mode: PlatformMode,
    pub max_connections: nat,
    pub max_connections_per_ip: nat,
    pub ice_gathering_timeout: nat,
    pub overall_request_timeout: nat,
    pub periodic_cleanup_interval: nat,
    pub stale_connection_age: nat,
    pub nat_1to1_ip: Option<Seq<char>>,
    pub ice_port_range: Option<(nat, nat)>,
}

impl View for ServerConfig {
    type V = ConfigView;

    open spec fn view(&self) -> ConfigView {
        ConfigView {
            port: self.port@,
            stun_port: self.stun_port@,
            stun_url: self.stun_url@,
            stun_enabled: self.stun_enabled,
            platform_mode: self.platform_mode,
            max_connections: self.max_connections as nat,
            max_connections_per_ip: self.max_connections_per_ip as nat,
            ice_gathering_timeout: self.ice_gathering_timeout as nat,
            overall_request_timeout: self.overall_request_timeout as nat,
            periodic_cleanup_interval: self.periodic_cleanup_interval as nat,
            stale_connection_age: self.stale_connection_age as nat,
            nat_1to1_ip: self.nat_1to1_ip.deep_view(),
            ice_port_range: match self.ice_port_range {
                Some((min, max)) => Some((min as nat, max as nat)),
                None => None,
            },
        }
    }
}

impl ServerConfig {
    /// The address that requests are taken at: the port on every interface.
    pub fn http_addr(&self) -> (addr: String)
        ensures
            addr@ == "0.0.0.0:"@ + self@.port,
    {
        "0.0.0.0:".to_owned().concat(self.port.as_str())
    }

    /// The address of the built-in STUN server, which runs only where STUN is on.
    pub fn stun_addr(&self) -> (addr: Option<String>)
        ensures
            match addr {
                Some(a) => self@.stun_enabled && a@ == "0.0.0.0:"@ + self@.stun_port,
                None => !self@.stun_enabled,
            },
    {
        if self.stun_enabled {
            Some("0.0.0.0:".to_owned().concat(self.stun_port.as_str()))
        } else {
            None
        }
    }
}

/// A configuration is told by all of its fields.
pub proof fn law_config_view(c: ServerConfig)
    ensures
        c@.port == c.port@,
        c@.stun_port == c.stun_port@,
        c@.stun_url == c.stun_url@,
        c@.stun_enabled == c.stun_enabled,
        c@.platform_mode == c.platform_mode,
        c@.max_connections == c.max_connections,
        c@.max_connections_per_ip == c.max_connections_per_ip,
        c@.ice_gathering_timeout == c.ice_gathering_timeout,
        c@.overall_request_timeout == c.overall_request_timeout,
        c@.periodic_cleanup_interval == c.periodic_cleanup_interval,
        c@.stale_connection_age == c.stale_connection_age,
        c.nat_1to1_ip matches Some(ip) ==> c@.nat_1to1_ip == Some(ip@),
        c.nat_1to1_ip is None ==> c@.nat_1to1_ip is None,
        c.ice_port_range matches Some((min, max)) ==> c@.ice_port_range == Some(
            (min as nat, max as nat),
        ),
        c.ice_port_range is None ==> c@.ice_port_range is None,
{
}

/// An environment is told by all of its variables.
pub proof fn law_vars_view(vars: EnvVars)
    ensures
        vars@.port == vars.port.deep_view(),
        vars@.stun_port == vars.stun_port.deep_view(),
        vars@.stun_url == vars.stun_url.deep_view(),
        vars@.platform_mode == vars.platform_mode.deep_view(),
        vars@.max_connections == vars.max_connections.deep_view(),
        vars@.max_connections_per_ip == vars.max_connections_per_ip.deep_view(),
        vars@.ice_gathering_timeout_secs == vars.ice_gathering_timeout_secs.deep_view(),
        vars@.overall_request_timeout_secs == vars.overall_request_timeout_secs.deep_view(),
        vars@.periodic_cleanup_interval_secs == vars.periodic_cleanup_interval_secs.deep_view(),
        vars@.stale_connection_age_secs == vars.stale_connection_age_secs.deep_view(),
        vars@.nat_1to1_ip == vars.nat_1to1_ip.deep_view(),
        vars@.ice_port_min == vars.ice_port_min.deep_view(),
        vars@.ice_port_max == vars.ice_port_max.deep_view(),
{
}

/// The settings are read from the file `.env`, and each has its documented default.
pub proof fn law_documented_defaults()
    ensures
        CONFIG_FILE@ == ".env"@,
        DEFAULT_PORT@ == "8080"@,
        DEFAULT_STUN_PORT@ == "3478"@,
        DEFAULT_STUN_URL@ == "auto"@,
        DEFAULT_PLATFORM_MODE@ == "self"@,
        DEFAULT_MAX_CONNECTIONS == 500,
        DEFAULT_MAX_CONNECTIONS_PER_IP == 10,
        DEFAULT_ICE_GATHERING_TIMEOUT_SECS == 2,
        DEFAULT_OVERALL_REQUEST_TIMEOUT_SECS == 30,
        DEFAULT_PERIODIC_CLEANUP_INTERVAL_SECS == 5,
        DEFAULT_STALE_CONNECTION_AGE_SECS == 120,
{
}

} // verus!
