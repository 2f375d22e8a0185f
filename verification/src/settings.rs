//! How the environment sets up the server: what its variables ask for, and which
//! settings are refused.

use vstd::prelude::*;

use crate::config::{ConfigView, EnvVars, EnvVarsView, PlatformMode, ServerConfig};
use crate::config::{DEFAULT_ICE_GATHERING_TIMEOUT_SECS, DEFAULT_OVERALL_REQUEST_TIMEOUT_SECS};
use crate::config::{DEFAULT_MAX_CONNECTIONS, DEFAULT_MAX_CONNECTIONS_PER_IP};
use crate::config::{DEFAULT_PERIODIC_CLEANUP_INTERVAL_SECS, DEFAULT_STALE_CONNECTION_AGE_SECS};
use crate::config::{DEFAULT_PLATFORM_MODE, DEFAULT_PORT, DEFAULT_STUN_PORT, DEFAULT_STUN_URL};
use crate::config::DEFAULT_CONFIG_TEMPLATE;
use crate::envfile::{file_settings, law_template_changes_nothing, vars_of};
use crate::text::{all_digits, decimal_text, digits_value, has_prefix, lowercase};
use crate::text::{decimal, parse_unsigned, same_text, starts_with, to_lowercase, ParseIntError};
use crate::text::{law_parsed_exactly, law_prefix, parsed, unicode_lowercase};

verus! {

/// The variable's text, or the default where it is unset.
pub open spec fn text_or(var: Option<Seq<char>>, default: Seq<char>) -> Seq<char> {
    match var {
        Some(s) => s,
        None => default,
    }
}

/// The variable's number, or the default where it is unset or holds no number of at
/// most `max`.
pub open spec fn number_or(var: Option<Seq<char>>, max: nat, default: nat) -> nat {
    match var {
        Some(s) => match parsed(s, max) {
            Ok(n) => n,
            Err(_) => default,
        },
        None => default,
    }
}

/// The port number that the variable holds, if it holds one.
pub open spec fn port_number(var: Option<Seq<char>>) -> Option<nat> {
    match var {
        Some(s) => match parsed(s, u16::MAX as nat) {
            Ok(n) => Some(n),
            Err(_) => None,
        },
        None => None,
    }
}

/// A variable that is set but empty counts as unset.
pub open spec fn non_empty(var: Option<Seq<char>>) -> Option<Seq<char>> {
    match var {
        Some(s) => if s.len() == 0 {
            None
        } else {
            Some(s)
        },
        None => None,
    }
}

/// Whether STUN is on, and the URL for the server's own connections. `keyword` is the
/// setting in lower case: `none` turns STUN off, `auto` points at the built-in server,
/// and everything else is a URL as it stands.
pub open spec fn stun_setting(raw: Seq<char>, keyword: Seq<char>, stun_port: Seq<char>) -> (
    bool,
    Seq<char>,
) {
    if keyword == "none"@ {
        (false, Seq::empty())
    } else if keyword == "auto"@ {
        (true, "stun:127.0.0.1:"@ + stun_port)
    } else {
        (true, raw)
    }
}

/// The platform mode that a keyword in lower case asks for: `web` is the public
/// service, and everything else is a self-hosted server.
pub open spec fn mode_setting(keyword: Seq<char>) -> PlatformMode {
    if keyword == "web"@ {
        PlatformMode::Web
    } else {
        PlatformMode::SelfHosted
    }
}

/// The URL names a STUN or a TURN server.
pub open spec fn is_ice_url(url: Seq<char>) -> bool {
    has_prefix(url, "stun:"@) || has_prefix(url, "turn:"@) || has_prefix(url, "turns:"@)
}

/// In words, why a text is no number.
pub open spec fn parse_error_text(e: ParseIntError) -> Seq<char> {
    match e {
        ParseIntError::Empty => "cannot parse integer from empty string"@,
        ParseIntError::InvalidDigit => "invalid digit found in string"@,
        ParseIntError::PosOverflow => "number too large to fit in target type"@,
    }
}

/// How many connections the variables allow in all.
pub open spec fn requested_max(vars: EnvVarsView) -> nat {
    number_or(vars.max_connections, usize::MAX as nat, DEFAULT_MAX_CONNECTIONS as nat)
}

/// How many connections the variables allow from one address.
pub open spec fn requested_per_ip(vars: EnvVarsView) -> nat {
    number_or(vars.max_connections_per_ip, usize::MAX as nat, DEFAULT_MAX_CONNECTIONS_PER_IP as nat)
}

/// How many seconds the variables leave for gathering candidates.
pub open spec fn requested_gathering(vars: EnvVarsView) -> nat {
    number_or(
        vars.ice_gathering_timeout_secs,
        u64::MAX as nat,
        DEFAULT_ICE_GATHERING_TIMEOUT_SECS as nat,
    )
}

/// How many seconds the variables leave for a whole request.
pub open spec fn requested_overall(vars: EnvVarsView) -> nat {
    number_or(
        vars.overall_request_timeout_secs,
        u64::MAX as nat,
        DEFAULT_OVERALL_REQUEST_TIMEOUT_SECS as nat,
    )
}

/// How many seconds the variables put between two cleanups.
pub open spec fn requested_interval(vars: EnvVarsView) -> nat {
    number_or(
        vars.periodic_cleanup_interval_secs,
        u64::MAX as nat,
        DEFAULT_PERIODIC_CLEANUP_INTERVAL_SECS as nat,
    )
}

/// How many seconds the variables let an idle connection last.
pub open spec fn requested_stale_age(vars: EnvVarsView) -> nat {
    number_or(
        vars.stale_connection_age_secs,
        u64::MAX as nat,
        DEFAULT_STALE_CONNECTION_AGE_SECS as nat,
    )
}

/// The text of the port that the variables ask for.
pub open spec fn requested_port(vars: EnvVarsView) -> Seq<char> {
    text_or(vars.port, DEFAULT_PORT@)
}

/// The configuration that the variables ask for, before anything is refused.
pub open spec fn requested_config(
    vars: EnvVarsView,
    stun_keyword: Seq<char>,
    mode_keyword: Seq<char>,
    lan_ip: Option<Seq<char>>,
) -> ConfigView {
    let stun_port = text_or(vars.stun_port, DEFAULT_STUN_PORT@);
    let stun = stun_setting(stun_url_text(vars), stun_keyword, stun_port);
    ConfigView {
        port: requested_port(vars),
        stun_port,
        stun_url: stun.1,
        stun_enabled: stun.0,
        platform_mode: mode_setting(mode_keyword),
        max_connections: requested_max(vars),
        max_connections_per_ip: if requested_per_ip(vars) <= requested_max(vars) {
            requested_per_ip(vars)
        } else {
            requested_max(vars)
        },
        ice_gathering_timeout: requested_gathering(vars),
        overall_request_timeout: requested_overall(vars),
        periodic_cleanup_interval: requested_interval(vars),
        stale_connection_age: requested_stale_age(vars),
        nat_1to1_ip: match non_empty(vars.nat_1to1_ip) {
            Some(ip) => Some(ip),
            None => lan_ip,
        },
        ice_port_range: match (port_number(vars.ice_port_min), port_number(vars.ice_port_max)) {
            (Some(min), Some(max)) => Some((min, max)),
            _ => None,
        },
    }
}

/// Why a requested configuration is refused: the first of the rules that it breaks, in
/// words, or `None` where it breaks none.
pub open spec fn refusal(c: ConfigView) -> Option<Seq<char>> {
    match c.ice_port_range {
        Some((min, max)) if min > max => Some(
            "ICE_PORT_MIN ("@ + decimal_text(min) + ") cannot be greater than ICE_PORT_MAX ("@
                + decimal_text(max) + ")"@,
        ),
        Some((min, max)) if min == 0 || max == 0 => Some("ICE ports must be greater than 0"@),
        _ => if parsed(c.port, u16::MAX as nat) is Err {
            Some(
                "Invalid PORT '"@ + c.port + "': "@ + parse_error_text(
                    parsed(c.port, u16::MAX as nat)->Err_0,
                ),
            )
        } else if c.max_connections == 0 {
            Some("MAX_CONNECTIONS must be greater than 0"@)
        } else if c.max_connections_per_ip == 0 {
            Some("MAX_CONNECTIONS_PER_IP must be greater than 0"@)
        } else if c.ice_gathering_timeout == 0 {
            Some("ICE_GATHERING_TIMEOUT_SECS must be greater than 0"@)
        } else if c.overall_request_timeout == 0 {
            Some("OVERALL_REQUEST_TIMEOUT_SECS must be greater than 0"@)
        } else if c.overall_request_timeout <= c.ice_gathering_timeout {
            Some(
                "OVERALL_REQUEST_TIMEOUT_SECS ("@ + decimal_text(c.overall_request_timeout)
                    + ") must be greater than ICE_GATHERING_TIMEOUT_SECS ("@ + decimal_text(
                    c.ice_gathering_timeout,
                ) + ")"@,
            )
        } else if c.periodic_cleanup_interval == 0 {
            Some("PERIODIC_CLEANUP_INTERVAL_SECS must be greater than 0"@)
        } else if c.stale_connection_age == 0 {
            Some("STALE_CONNECTION_AGE_SECS must be greater than 0"@)
        } else if c.stun_enabled && !is_ice_url(c.stun_url) {
            Some(
                "Invalid STUN/TURN URL format '"@ + c.stun_url
                    + "'. Must start with 'stun:', 'turn:', or 'turns:'"@,
            )
        } else if parsed(c.stun_port, u16::MAX as nat) is Err {
            Some(
                "Invalid STUN_PORT '"@ + c.stun_port + "': "@ + parse_error_text(
                    parsed(c.stun_port, u16::MAX as nat)->Err_0,
                ),
            )
        } else {
            None
        },
    }
}

/// What comes of the variables: the configuration that they ask for, or why it is
/// refused.
pub open spec fn configured(
    vars: EnvVarsView,
    stun_keyword: Seq<char>,
    mode_keyword: Seq<char>,
    lan_ip: Option<Seq<char>>,
) -> Result<ConfigView, Seq<char>> {
    let c = requested_config(vars, stun_keyword, mode_keyword, lan_ip);
    match refusal(c) {
        Some(reason) => Err(reason),
        None => Ok(c),
    }
}

/// The text of the STUN setting.
pub open spec fn stun_url_text(vars: EnvVarsView) -> Seq<char> {
    text_or(vars.stun_url, DEFAULT_STUN_URL@)
}

/// The text of the platform setting.
pub open spec fn platform_mode_text(vars: EnvVarsView) -> Seq<char> {
    text_or(vars.platform_mode, DEFAULT_PLATFORM_MODE@)
}

/// An environment that says nothing.
pub open spec fn unset_vars() -> EnvVarsView {
    EnvVarsView {
        port: None,
        stun_port: None,
        stun_url: None,
        platform_mode: None,
        max_connections: None,
        max_connections_per_ip: None,
        ice_gathering_timeout_secs: None,
        overall_request_timeout_secs: None,
        periodic_cleanup_interval_secs: None,
        stale_connection_age_secs: None,
        nat_1to1_ip: None,
        ice_port_min: None,
        ice_port_max: None,
    }
}

/// The settings in force where the environment says nothing.
pub open spec fn default_config(lan_ip: Option<Seq<char>>) -> ConfigView {
    ConfigView {
        port: "8080"@,
        stun_port: "3478"@,
        stun_url: "stun:127.0.0.1:"@ + "3478"@,
        stun_enabled: true,
        platform_mode: PlatformMode::SelfHosted,
        max_connections: 500,
        max_connections_per_ip: 10,
        ice_gathering_timeout: 2,
        overall_request_timeout: 30,
        periodic_cleanup_interval: 5,
        stale_connection_age: 120,
        nat_1to1_ip: lan_ip,
        ice_port_range: None,
    }
}

/// The settings that the server may run with.
pub open spec fn valid_config(c: ConfigView) -> bool {
    &&& parsed(c.port, u16::MAX as nat) is Ok
    &&& parsed(c.stun_port, u16::MAX as nat) is Ok
    &&& 0 < c.max_connections_per_ip <= c.max_connections
    &&& 0 < c.ice_gathering_timeout < c.overall_request_timeout
    &&& 0 < c.periodic_cleanup_interval
    &&& 0 < c.stale_connection_age
    &&& c.stun_enabled ==> is_ice_url(c.stun_url)
    &&& !c.stun_enabled ==> c.stun_url.len() == 0
    &&& c.ice_port_range matches Some((min, max)) ==> 0 < min <= max <= u16::MAX
}

/// Where the environment says nothing, the default settings are in force. `auto` and
/// `self` are the two keywords that are read then.
pub proof fn law_defaults(lan_ip: Option<Seq<char>>)
    ensures
        configured(unset_vars(), DEFAULT_STUN_URL@, DEFAULT_PLATFORM_MODE@, lan_ip) == Ok::<
            ConfigView,
            Seq<char>,
        >(default_config(lan_ip)),
{
    reveal_strlit("auto");
    reveal_strlit("none");
    reveal_strlit("self");
    reveal_strlit("web");
    reveal_strlit("stun:");
    reveal_strlit("stun:127.0.0.1:");
    reveal_strlit("8080");
    reveal_strlit("3478");
    assert("auto"@[0] != "none"@[0]);
    assert("self"@.len() != "web"@.len());
    let url = "stun:127.0.0.1:"@ + "3478"@;
    assert(url.take(5) =~= "stun:"@);
    lemma_four_digits("8080"@);
    lemma_four_digits("3478"@);
}

proof fn lemma_four_digits(s: Seq<char>)
    requires
        s.len() == 4,
        all_digits(s),
    ensures
        parsed(s, u16::MAX as nat) is Ok,
{
    reveal_with_fuel(digits_value, 5);
    law_parsed_exactly(s, u16::MAX as nat);
}

/// Every configuration that is not refused is one that the server may run with.
pub proof fn law_accepted_is_valid(
    vars: EnvVarsView,
    stun_keyword: Seq<char>,
    mode_keyword: Seq<char>,
    lan_ip: Option<Seq<char>>,
)
    ensures
        configured(vars, stun_keyword, mode_keyword, lan_ip) matches Ok(c) ==> valid_config(c),
{
    let min = vars.ice_port_min;
    let max = vars.ice_port_max;
    if min is Some {
        law_parsed_exactly(min->0, u16::MAX as nat);
    }
    if max is Some {
        law_parsed_exactly(max->0, u16::MAX as nat);
    }
}

/// Every configuration that the server may run with is accepted, whatever the variables
/// that ask for it.
pub proof fn law_valid_is_accepted(
    vars: EnvVarsView,
    stun_keyword: Seq<char>,
    mode_keyword: Seq<char>,
    lan_ip: Option<Seq<char>>,
)
    requires
        valid_config(requested_config(vars, stun_keyword, mode_keyword, lan_ip)),
    ensures
        configured(vars, stun_keyword, mode_keyword, lan_ip) == Ok::<ConfigView, Seq<char>>(
            requested_config(vars, stun_keyword, mode_keyword, lan_ip),
        ),
{
}

/// The outcome, with its text or its configuration by view.
pub open spec fn outcome_view(res: Result<ServerConfig, String>) -> Result<ConfigView, Seq<char>> {
    match res {
        Ok(c) => Ok(c@),
        Err(e) => Err(e@),
    }
}

pub(crate) fn text_setting(var: &Option<String>, default: &str) -> (text: String)
    ensures
        text@ == text_or(var.deep_view(), default@),
{
    match var {
        Some(s) => s.clone(),
        None => default.to_owned(),
    }
}

pub(crate) fn number_setting(var: &Option<String>, max: u64, default: u64) -> (n: u64)
    requires
        default <= max,
    ensures
        n == number_or(var.deep_view(), max as nat, default as nat),
        n <= max,
{
    match var {
        Some(s) => match parse_unsigned(s.as_str(), max) {
            Ok(n) => {
                proof {
                    law_parsed_exactly(s@, max as nat);
                }
                n
            },
            Err(_) => default,
        },
        None => default,
    }
}

pub(crate) fn port_setting(var: &Option<String>) -> (port: Option<u16>)
    ensures
        match port {
            Some(n) => port_number(var.deep_view()) == Some(n as nat),
            None => port_number(var.deep_view()) is None,
        },
{
    match var {
        Some(s) => match parse_unsigned(s.as_str(), u16::MAX as u64) {
            Ok(n) => {
                proof {
                    law_parsed_exactly(s@, u16::MAX as nat);
                }
                Some(n as u16)
            },
            Err(_) => None,
        },
        None => None,
    }
}

fn describe_parse_error(e: ParseIntError) -> (text: &'static str)
    ensures
        text@ == parse_error_text(e),
{
    match e {
        ParseIntError::Empty => "cannot parse integer from empty string",
        ParseIntError::InvalidDigit => "invalid digit found in string",
        ParseIntError::PosOverflow => "number too large to fit in target type",
    }
}

impl ServerConfig {
    /// The first of the rules that the configuration breaks, in words.
    fn refused(&self) -> (reason: Option<String>)
        ensures
            reason.deep_view() == refusal(self@),
    {
        match self.ice_port_range {
            Some((min, max)) => {
                if min > max {
                    let text: String = "ICE_PORT_MIN (".to_owned().concat(
                        decimal(min as u64).as_str(),
                    ).concat(") cannot be greater than ICE_PORT_MAX (").concat(
                        decimal(max as u64).as_str(),
                    ).concat(")");
                    return Some(text);
                }
                if min == 0 || max == 0 {
                    return Some("ICE ports must be greater than 0".to_owned());
                }
            },
            None => {},
        }
        if let Err(e) = parse_unsigned(self.port.as_str(), u16::MAX as u64) {
            let text: String = "Invalid PORT '".to_owned().concat(self.port.as_str()).concat(
                "': ",
            ).concat(describe_parse_error(e));
            return Some(text);
        }
        if self.max_connections == 0 {
            return Some("MAX_CONNECTIONS must be greater than 0".to_owned());
        }
        if self.max_connections_per_ip == 0 {
            return Some("MAX_CONNECTIONS_PER_IP must be greater than 0".to_owned());
        }
        if self.ice_gathering_timeout == 0 {
            return Some("ICE_GATHERING_TIMEOUT_SECS must be greater than 0".to_owned());
        }
        if self.overall_request_timeout == 0 {
            return Some("OVERALL_REQUEST_TIMEOUT_SECS must be greater than 0".to_owned());
        }
        if self.overall_request_timeout <= self.ice_gathering_timeout {
            let text: String = "OVERALL_REQUEST_TIMEOUT_SECS (".to_owned().concat(
                decimal(self.overall_request_timeout).as_str(),
            ).concat(") must be greater than ICE_GATHERING_TIMEOUT_SECS (").concat(
                decimal(self.ice_gathering_timeout).as_str(),
            ).concat(")");
            return Some(text);
        }
        if self.periodic_cleanup_interval == 0 {
            return Some("PERIODIC_CLEANUP_INTERVAL_SECS must be greater than 0".to_owned());
        }
        if self.stale_connection_age == 0 {
            return Some("STALE_CONNECTION_AGE_SECS must be greater than 0".to_owned());
        }
        let url: &str = self.stun_url.as_str();
        if self.stun_enabled && !starts_with(url, "stun:") && !starts_with(url, "turn:")
            && !starts_with(url, "turns:") {
            let text: String = "Invalid STUN/TURN URL format '".to_owned().concat(url).concat(
                "'. Must start with 'stun:', 'turn:', or 'turns:'",
            );
            return Some(text);
        }
        if let Err(e) = parse_unsigned(self.stun_port.as_str(), u16::MAX as u64) {
            let text: String = "Invalid STUN_PORT '".to_owned().concat(
                self.stun_port.as_str(),
            ).concat("': ").concat(describe_parse_error(e));
            return Some(text);
        }
        None
    }

    /// The configuration that the variables ask for, or why it is refused. The two
    /// keywords are the STUN and the platform setting in lower case.
    pub fn from_settings(
        vars: &EnvVars,
        stun_keyword: &str,
        mode_keyword: &str,
        lan_ip: Option<String>,
    ) -> (res: Result<ServerConfig, String>)
        ensures
            outcome_view(res) == configured(
                vars@,
                stun_keyword@,
                mode_keyword@,
                lan_ip.deep_view(),
            ),
    {
        let stun_port: String = text_setting(&vars.stun_port, DEFAULT_STUN_PORT);
        let stun_enabled: bool = !same_text(stun_keyword, "none");
        let stun_url: String = if !stun_enabled {
            String::new()
        } else if same_text(stun_keyword, "auto") {
            "stun:127.0.0.1:".to_owned().concat(stun_port.as_str())
        } else {
            text_setting(&vars.stun_url, DEFAULT_STUN_URL)
        };
        let platform_mode: PlatformMode = if same_text(mode_keyword, "web") {
            PlatformMode::Web
        } else {
            PlatformMode::SelfHosted
        };
        let max_connections: u64 = number_setting(
            &vars.max_connections,
            usize::MAX as u64,
            DEFAULT_MAX_CONNECTIONS as u64,
        );
        let per_ip: u64 = number_setting(
            &vars.max_connections_per_ip,
            usize::MAX as u64,
            DEFAULT_MAX_CONNECTIONS_PER_IP as u64,
        );
        let nat_1to1_ip: Option<String> = if Self::wants_lan_ip(vars) {
            lan_ip
        } else {
            vars.nat_1to1_ip.clone()
        };
        let ice_port_range: Option<(u16, u16)> = match (
            port_setting(&vars.ice_port_min),
            port_setting(&vars.ice_port_max),
        ) {
            (Some(min), Some(max)) => Some((min, max)),
            _ => None,
        };
        let config: ServerConfig = ServerConfig {
            port: text_setting(&vars.port, DEFAULT_PORT),
            stun_port,
            stun_url,
            stun_enabled,
            platform_mode,
            max_connections: max_connections as usize,
            max_connections_per_ip: if per_ip <= max_connections {
                per_ip as usize
            } else {
                max_connections as usize
            },
            ice_gathering_timeout: number_setting(
                &vars.ice_gathering_timeout_secs,
                u64::MAX,
                DEFAULT_ICE_GATHERING_TIMEOUT_SECS,
            ),
            overall_request_timeout: number_setting(
                &vars.overall_request_timeout_secs,
                u64::MAX,
                DEFAULT_OVERALL_REQUEST_TIMEOUT_SECS,
            ),
            periodic_cleanup_interval: number_setting(
                &vars.periodic_cleanup_interval_secs,
                u64::MAX,
                DEFAULT_PERIODIC_CLEANUP_INTERVAL_SECS,
            ),
            stale_connection_age: number_setting(
                &vars.stale_connection_age_secs,
                u64::MAX,
                DEFAULT_STALE_CONNECTION_AGE_SECS,
            ),
            nat_1to1_ip,
            ice_port_range,
        };
        match config.refused() {
            Some(reason) => Err(reason),
            None => Ok(config),
        }
    }

    /// Reads the configuration from the environment. `lan_ip` is the address by which
    /// the machine reaches other networks, where it is known.
    pub fn from_env(vars: &EnvVars, lan_ip: Option<String>) -> (res: Result<ServerConfig, String>)
        ensures
            outcome_view(res) == configured(
                vars@,
                unicode_lowercase(stun_url_text(vars@)),
                unicode_lowercase(platform_mode_text(vars@)),
                lan_ip.deep_view(),
            ),
            outcome_view(res) == configured(
                vars@,
                lowercase(stun_url_text(vars@)),
                lowercase(platform_mode_text(vars@)),
                lan_ip.deep_view(),
            ),
            vars@ == unset_vars() || vars@ == vars_of(file_settings(DEFAULT_CONFIG_TEMPLATE@))
                ==> outcome_view(res) == Ok::<ConfigView, Seq<char>>(
                default_config(lan_ip.deep_view()),
            ),
    {
        let stun_url: String = text_setting(&vars.stun_url, DEFAULT_STUN_URL);
        let platform_mode: String = text_setting(&vars.platform_mode, DEFAULT_PLATFORM_MODE);
        let stun_keyword: String = to_lowercase(stun_url.as_str());
        let mode_keyword: String = to_lowercase(platform_mode.as_str());
        proof {
            if vars@ == unset_vars() {
                reveal_strlit("auto");
                reveal_strlit("self");
                assert(stun_keyword@ =~= "auto"@);
                assert(mode_keyword@ =~= "self"@);
                law_defaults(lan_ip.deep_view());
            }
            law_template_changes_nothing(lan_ip.deep_view());
        }
        Self::from_settings(vars, stun_keyword.as_str(), mode_keyword.as_str(), lan_ip)
    }

    /// The address of the local network has a say only where no address is set.
    pub fn wants_lan_ip(vars: &EnvVars) -> (yes: bool)
        ensures
            yes == (non_empty(vars@.nat_1to1_ip) is None),
            yes == (vars@.nat_1to1_ip is None || vars@.nat_1to1_ip->0.len() == 0),
    {
        match &vars.nat_1to1_ip {
            Some(ip) => ip.as_str().is_empty(),
            None => true,
        }
    }
}

/// Each setting has its say. In whatever the variables ask for, every field is what its
/// own variable says, or the default where that says nothing or, for a number, nothing
/// that can be read; and what is accepted is what was asked for.
pub proof fn law_each_setting_has_its_say(
    vars: EnvVarsView,
    stun_keyword: Seq<char>,
    mode_keyword: Seq<char>,
    lan_ip: Option<Seq<char>>,
)
    ensures
        ({
            let c = requested_config(vars, stun_keyword, mode_keyword, lan_ip);
            &&& configured(vars, stun_keyword, mode_keyword, lan_ip) matches Ok(accepted)
                ==> accepted == c
            &&& vars.port matches Some(s) ==> c.port == s
            &&& vars.port is None ==> c.port == "8080"@
            &&& vars.stun_port matches Some(s) ==> c.stun_port == s
            &&& vars.stun_port is None ==> c.stun_port == "3478"@
            &&& c.stun_enabled <==> stun_keyword != "none"@
            &&& stun_keyword == "none"@ ==> c.stun_url.len() == 0
            &&& stun_keyword == "auto"@ ==> c.stun_url == "stun:127.0.0.1:"@ + c.stun_port
            &&& stun_keyword != "none"@ && stun_keyword != "auto"@ ==> {
                &&& vars.stun_url matches Some(s) ==> c.stun_url == s
                &&& vars.stun_url is None ==> c.stun_url == "auto"@
            }
            &&& c.platform_mode == PlatformMode::Web <==> mode_keyword == "web"@
            &&& vars.max_connections is Some && parsed(vars.max_connections->0, usize::MAX as nat) is Ok ==> c.max_connections
                == parsed(vars.max_connections->0, usize::MAX as nat)->Ok_0
            &&& vars.max_connections is None || parsed(vars.max_connections->0, usize::MAX as nat) is Err ==> c.max_connections
                == 500
            &&& vars.ice_gathering_timeout_secs is Some && parsed(vars.ice_gathering_timeout_secs->0, u64::MAX as nat) is Ok ==> c.ice_gathering_timeout
                == parsed(vars.ice_gathering_timeout_secs->0, u64::MAX as nat)->Ok_0
            &&& vars.ice_gathering_timeout_secs is None || parsed(vars.ice_gathering_timeout_secs->0, u64::MAX as nat) is Err ==> c.ice_gathering_timeout
                == 2
            &&& vars.overall_request_timeout_secs is Some && parsed(vars.overall_request_timeout_secs->0, u64::MAX as nat) is Ok ==> c.overall_request_timeout
                == parsed(vars.overall_request_timeout_secs->0, u64::MAX as nat)->Ok_0
            &&& vars.overall_request_timeout_secs is None || parsed(vars.overall_request_timeout_secs->0, u64::MAX as nat) is Err ==> c.overall_request_timeout
                == 30
            &&& vars.periodic_cleanup_interval_secs is Some && parsed(vars.periodic_cleanup_interval_secs->0, u64::MAX as nat) is Ok ==> c.periodic_cleanup_interval
                == parsed(vars.periodic_cleanup_interval_secs->0, u64::MAX as nat)->Ok_0
            &&& vars.periodic_cleanup_interval_secs is None || parsed(vars.periodic_cleanup_interval_secs->0, u64::MAX as nat) is Err ==> c.periodic_cleanup_interval
                == 5
            &&& vars.stale_connection_age_secs is Some && parsed(vars.stale_connection_age_secs->0, u64::MAX as nat) is Ok ==> c.stale_connection_age
                == parsed(vars.stale_connection_age_secs->0, u64::MAX as nat)->Ok_0
            &&& vars.stale_connection_age_secs is None || parsed(vars.stale_connection_age_secs->0, u64::MAX as nat) is Err ==> c.stale_connection_age
                == 120
            &&& ({
                let asked = if vars.max_connections_per_ip is Some && parsed(
                    vars.max_connections_per_ip->0,
                    usize::MAX as nat,
                ) is Ok {
                    parsed(vars.max_connections_per_ip->0, usize::MAX as nat)->Ok_0
                } else {
                    10
                };
                &&& c.max_connections_per_ip <= c.max_connections
                &&& c.max_connections_per_ip <= asked
                &&& c.max_connections_per_ip == c.max_connections || c.max_connections_per_ip
                    == asked
            })
            &&& vars.nat_1to1_ip matches Some(ip) ==> ip.len() > 0 ==> c.nat_1to1_ip == Some(ip)
            &&& vars.nat_1to1_ip is None || vars.nat_1to1_ip->0.len() == 0 ==> c.nat_1to1_ip
                == lan_ip
            &&& c.ice_port_range is Some <==> {
                &&& vars.ice_port_min is Some
                &&& vars.ice_port_max is Some
                &&& parsed(vars.ice_port_min->0, 65535) is Ok
                &&& parsed(vars.ice_port_max->0, 65535) is Ok
            }
            &&& c.ice_port_range matches Some((min, max)) ==> {
                &&& min == parsed(vars.ice_port_min->0, 65535)->Ok_0
                &&& max == parsed(vars.ice_port_max->0, 65535)->Ok_0
            }
        }),
{
    reveal_strlit("auto");
    reveal_strlit("none");
    assert("auto"@[0] != "none"@[0]);
}

/// The texts that the two keywords are read from.
pub proof fn law_keyword_texts(vars: EnvVarsView)
    ensures
        vars.stun_url matches Some(s) ==> stun_url_text(vars) == s,
        vars.stun_url is None ==> stun_url_text(vars) == "auto"@,
        vars.platform_mode matches Some(s) ==> platform_mode_text(vars) == s,
        vars.platform_mode is None ==> platform_mode_text(vars) == "self"@,
{
}

/// The outcome is told by its configuration or by its text.
pub proof fn law_outcome_view(c: ServerConfig, e: String)
    ensures
        outcome_view(Ok(c)) == Ok::<ConfigView, Seq<char>>(c@),
        outcome_view(Err(e)) == Err::<ConfigView, Seq<char>>(e@),
{
}

/// What is wrong with a configuration is told by the first of the rules that it breaks; one
/// that breaks none is accepted.
pub proof fn law_first_broken_rule(
    vars: EnvVarsView,
    stun_keyword: Seq<char>,
    mode_keyword: Seq<char>,
    lan_ip: Option<Seq<char>>,
)
    ensures
        ({
            let c = requested_config(vars, stun_keyword, mode_keyword, lan_ip);
            let res = configured(vars, stun_keyword, mode_keyword, lan_ip);
            let ports = c.ice_port_range;
            let port = parsed(c.port, 65535);
            let stun_port = parsed(c.stun_port, 65535);
            let range_in_order = ports is Some ==> (ports->0).0 <= (ports->0).1;
            let ports_pass = range_in_order && (ports is Some ==> (ports->0).0 > 0 && (
            ports->0).1 > 0);
            let port_passes = ports_pass && port is Ok;
            let max_passes = port_passes && c.max_connections > 0;
            let per_ip_passes = max_passes && c.max_connections_per_ip > 0;
            let gathering_passes = per_ip_passes && c.ice_gathering_timeout > 0;
            let overall_passes = gathering_passes && c.overall_request_timeout > 0;
            let times_pass = overall_passes && c.overall_request_timeout > c.ice_gathering_timeout;
            let interval_passes = times_pass && c.periodic_cleanup_interval > 0;
            let age_passes = interval_passes && c.stale_connection_age > 0;
            let is_url = exists|rest: Seq<char>|
                c.stun_url == #[trigger] ("stun:"@ + rest) || c.stun_url == "turn:"@ + rest
                    || c.stun_url == "turns:"@ + rest;
            let url_passes = age_passes && (!c.stun_enabled || is_url);
            &&& !range_in_order ==> res == Err::<ConfigView, Seq<char>>(
                "ICE_PORT_MIN ("@ + decimal_text((ports->0).0)
                    + ") cannot be greater than ICE_PORT_MAX ("@ + decimal_text((ports->0).1)
                    + ")"@,
            )
            &&& range_in_order && !ports_pass ==> res == Err::<ConfigView, Seq<char>>(
                "ICE ports must be greater than 0"@,
            )
            &&& ports_pass && port == Err::<nat, ParseIntError>(ParseIntError::Empty) ==> res
                == Err::<ConfigView, Seq<char>>(
                "Invalid PORT '"@ + c.port + "': "@ + "cannot parse integer from empty string"@,
            )
            &&& ports_pass && port == Err::<nat, ParseIntError>(ParseIntError::InvalidDigit) ==> res
                == Err::<ConfigView, Seq<char>>(
                "Invalid PORT '"@ + c.port + "': "@ + "invalid digit found in string"@,
            )
            &&& ports_pass && port == Err::<nat, ParseIntError>(ParseIntError::PosOverflow) ==> res
                == Err::<ConfigView, Seq<char>>(
                "Invalid PORT '"@ + c.port + "': "@ + "number too large to fit in target type"@,
            )
            &&& port_passes && !max_passes ==> res == Err::<ConfigView, Seq<char>>(
                "MAX_CONNECTIONS must be greater than 0"@,
            )
            &&& max_passes && !per_ip_passes ==> res == Err::<ConfigView, Seq<char>>(
                "MAX_CONNECTIONS_PER_IP must be greater than 0"@,
            )
            &&& per_ip_passes && !gathering_passes ==> res == Err::<ConfigView, Seq<char>>(
                "ICE_GATHERING_TIMEOUT_SECS must be greater than 0"@,
            )
            &&& gathering_passes && !overall_passes ==> res == Err::<ConfigView, Seq<char>>(
                "OVERALL_REQUEST_TIMEOUT_SECS must be greater than 0"@,
            )
            &&& overall_passes && !times_pass ==> res == Err::<ConfigView, Seq<char>>(
                "OVERALL_REQUEST_TIMEOUT_SECS ("@ + decimal_text(c.overall_request_timeout)
                    + ") must be greater than ICE_GATHERING_TIMEOUT_SECS ("@ + decimal_text(
                    c.ice_gathering_timeout,
                ) + ")"@,
            )
            &&& times_pass && !interval_passes ==> res == Err::<ConfigView, Seq<char>>(
                "PERIODIC_CLEANUP_INTERVAL_SECS must be greater than 0"@,
            )
            &&& interval_passes && !age_passes ==> res == Err::<ConfigView, Seq<char>>(
                "STALE_CONNECTION_AGE_SECS must be greater than 0"@,
            )
            &&& age_passes && !url_passes ==> res == Err::<ConfigView, Seq<char>>(
                "Invalid STUN/TURN URL format '"@ + c.stun_url
                    + "'. Must start with 'stun:', 'turn:', or 'turns:'"@,
            )
            &&& url_passes && stun_port == Err::<nat, ParseIntError>(ParseIntError::Empty) ==> res
                == Err::<ConfigView, Seq<char>>(
                "Invalid STUN_PORT '"@ + c.stun_port + "': "@
                    + "cannot parse integer from empty string"@,
            )
            &&& url_passes && stun_port == Err::<nat, ParseIntError>(ParseIntError::InvalidDigit)
                ==> res == Err::<ConfigView, Seq<char>>(
                "Invalid STUN_PORT '"@ + c.stun_port + "': "@ + "invalid digit found in string"@,
            )
            &&& url_passes && stun_port == Err::<nat, ParseIntError>(ParseIntError::PosOverflow)
                ==> res == Err::<ConfigView, Seq<char>>(
                "Invalid STUN_PORT '"@ + c.stun_port + "': "@
                    + "number too large to fit in target type"@,
            )
            &&& url_passes && stun_port is Ok ==> res == Ok::<ConfigView, Seq<char>>(c)
        }),
{
    let url = requested_config(vars, stun_keyword, mode_keyword, lan_ip).stun_url;
    law_prefix(url, "stun:"@);
    law_prefix(url, "turn:"@);
    law_prefix(url, "turns:"@);
    if is_ice_url(url) {
        let rest = if has_prefix(url, "stun:"@) {
            choose|rest: Seq<char>| url == #[trigger] ("stun:"@ + rest)
        } else if has_prefix(url, "turn:"@) {
            choose|rest: Seq<char>| url == #[trigger] ("turn:"@ + rest)
        } else {
            choose|rest: Seq<char>| url == #[trigger] ("turns:"@ + rest)
        };
        let candidate = "stun:"@ + rest;
        assert(candidate == "stun:"@ + rest);
    }
}

} // verus!
