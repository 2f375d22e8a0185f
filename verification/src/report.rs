//! What is said about the settings: the remarks they give rise to, and the settings in
//! words.

use vstd::prelude::*;

use crate::config::{ConfigView, EnvVars, EnvVarsView, PlatformMode, ServerConfig};
use crate::config::{DEFAULT_ICE_GATHERING_TIMEOUT_SECS, DEFAULT_OVERALL_REQUEST_TIMEOUT_SECS};
use crate::config::{DEFAULT_MAX_CONNECTIONS, DEFAULT_MAX_CONNECTIONS_PER_IP};
use crate::config::{DEFAULT_PERIODIC_CLEANUP_INTERVAL_SECS, DEFAULT_STALE_CONNECTION_AGE_SECS};
use crate::config::{DEFAULT_PLATFORM_MODE, DEFAULT_PORT, DEFAULT_STUN_PORT, DEFAULT_STUN_URL};
use crate::settings::{number_setting, port_setting, text_setting};
use crate::settings::law_each_setting_has_its_say;
use crate::settings::{platform_mode_text, port_number, requested_gathering, requested_interval};
use crate::settings::{requested_config, requested_max, requested_overall, requested_per_ip, requested_port};
use crate::settings::{non_empty, requested_stale_age, stun_url_text, text_or, unset_vars};
use crate::text::{decimal_text, lowercase, parsed, unicode_lowercase};
use crate::text::{decimal, parse_unsigned, same_text, to_lowercase};

verus! {

/// Texts as character sequences.
pub open spec fn texts(list: Seq<String>) -> Seq<Seq<char>> {
    list.map_values(|s: String| s@)
}

/// How much a remark matters.
#[derive(Debug, Clone, Copy, PartialEq, Eq, Structural)]
pub enum RemarkLevel {
    /// It is good to know.
    Notice,
    /// Something may be wrong.
    Warning,
}

/// A remark on the settings.
#[derive(Debug, Clone)]
pub struct Remark {
    pub level: RemarkLevel,
    pub text: String,
}

/// A [`Remark`] with its text as a character sequence.
pub struct RemarkView {
    pub level: RemarkLevel,
    pub text: Seq<char>,
}

impl View for Remark {
    type V = RemarkView;

    open spec fn view(&self) -> RemarkView {
        RemarkView { level: self.level, text: self.text@ }
    }
}

/// Remarks by view.
pub open spec fn remark_views(list: Seq<Remark>) -> Seq<RemarkView> {
    list.map_values(|r: Remark| r@)
}

/// The notice, where the condition holds.
pub open spec fn notice_if(condition: bool, text: Seq<char>) -> Seq<RemarkView> {
    if condition {
        seq![RemarkView { level: RemarkLevel::Notice, text }]
    } else {
        seq![]
    }
}

/// The warning, where the condition holds.
pub open spec fn warning_if(condition: bool, text: Seq<char>) -> Seq<RemarkView> {
    if condition {
        seq![RemarkView { level: RemarkLevel::Warning, text }]
    } else {
        seq![]
    }
}

/// The remarks that the settings give rise to, in order: where the built-in STUN server
/// is, if the server uses it; the address of the local network, if it stands in for one
/// that is not set; and what looks wrong. A setting that is refused silences the warnings
/// about those that are looked at after it. The keywords are the STUN and the platform
/// setting in lower case.
pub open spec fn setting_remarks(
    vars: EnvVarsView,
    stun_keyword: Seq<char>,
    mode_keyword: Seq<char>,
    lan_ip: Option<Seq<char>>,
) -> Seq<RemarkView> {
    let auto = stun_keyword == "auto"@;
    let stun_port = text_or(vars.stun_port, DEFAULT_STUN_PORT@);
    let min = port_number(vars.ice_port_min);
    let max = port_number(vars.ice_port_max);
    let total = requested_max(vars);
    let per_ip = requested_per_ip(vars);
    let gathering = requested_gathering(vars);
    let stale_age = requested_stale_age(vars);
    let ports_pass = !(min is Some && max is Some && (min->0 > max->0 || min->0 == 0 || max->0
        == 0)) && parsed(requested_port(vars), u16::MAX as nat) is Ok;
    let total_passes = ports_pass && total > 0;
    let per_ip_passes = total_passes && per_ip > 0;
    let gathering_passes = per_ip_passes && gathering > 0;
    let times_pass = gathering_passes && requested_overall(vars) > gathering && requested_interval(
        vars,
    ) > 0 && stale_age > 0;
    notice_if(
        auto,
        "STUN auto mode: Server will listen on all interfaces (0.0.0.0:"@ + stun_port + ")"@,
    ) + notice_if(
        auto,
        "Server's peer connection will use: stun:127.0.0.1:"@ + stun_port,
    ) + notice_if(
        auto,
        "Clients will auto-detect STUN URL from the server hostname they use to connect"@,
    ) + warning_if(
        mode_keyword != "web"@ && mode_keyword != "self"@,
        "Invalid PLATFORM_MODE '"@ + mode_keyword + "', defaulting to 'self'"@,
    ) + notice_if(
        non_empty(vars.nat_1to1_ip) is None && lan_ip is Some,
        "NAT_1TO1_IP not set, auto-detected IP: "@ + lan_ip->0,
    ) + warning_if(
        min is Some && max is None,
        "ICE_PORT_MIN provided without ICE_PORT_MAX. Port range restriction will be disabled."@,
    ) + warning_if(
        min is None && max is Some,
        "ICE_PORT_MAX provided without ICE_PORT_MIN. Port range restriction will be disabled."@,
    ) + warning_if(
        total_passes && total > 100000,
        "MAX_CONNECTIONS ("@ + decimal_text(total)
            + ") is very high, ensure server has adequate resources"@,
    ) + warning_if(
        per_ip_passes && per_ip > total,
        "MAX_CONNECTIONS_PER_IP ("@ + decimal_text(per_ip) + ") exceeds MAX_CONNECTIONS ("@
            + decimal_text(total) + "), capping to "@ + decimal_text(total),
    ) + warning_if(
        gathering_passes && gathering > 60,
        "ICE_GATHERING_TIMEOUT_SECS ("@ + decimal_text(gathering)
            + ") is very high, may cause slow responses"@,
    ) + warning_if(
        times_pass && stale_age < 30,
        "STALE_CONNECTION_AGE_SECS ("@ + decimal_text(stale_age)
            + ") is very low, may prematurely close active connections"@,
    )
}

/// A setting in seconds, in words. No time at all is given in nanoseconds.
pub open spec fn seconds_text(label: Seq<char>, secs: nat) -> Seq<char> {
    if secs == 0 {
        label + "0ns"@
    } else {
        label + decimal_text(secs) + "s"@
    }
}

/// The lines that say what the configuration is.
pub open spec fn log_lines(c: ConfigView) -> Seq<Seq<char>> {
    seq![
        "=== Server Configuration ==="@,
        match c.platform_mode {
            PlatformMode::Web => "Platform Mode: Web (Public web service with stricter limits)"@,
            PlatformMode::SelfHosted =>
            "Platform Mode: SelfHosted (Self-hosted with infinite test support)"@,
        },
        "HTTP Port: "@ + c.port,
    ] + (if c.stun_enabled {
        seq![
            "STUN Server: Enabled on port "@ + c.stun_port + " (UDP)"@,
            "STUN URL for clients: "@ + c.stun_url,
        ]
    } else {
        seq!["STUN Server: Disabled (LAN-only mode)"@]
    }) + seq![
        "Max Connections: "@ + decimal_text(c.max_connections),
        "Max Connections Per IP: "@ + decimal_text(c.max_connections_per_ip),
        seconds_text("ICE Gathering Timeout: "@, c.ice_gathering_timeout),
        seconds_text("Overall Request Timeout: "@, c.overall_request_timeout),
        seconds_text("Periodic Cleanup Interval: "@, c.periodic_cleanup_interval),
        seconds_text("Stale Connection Age: "@, c.stale_connection_age),
    ] + (match c.nat_1to1_ip {
        Some(ip) => seq!["NAT 1-to-1 Mapping: "@ + ip],
        None => seq![],
    }) + seq![
        match c.ice_port_range {
            Some((min, max)) => "ICE Port Range: "@ + decimal_text(min) + " - "@ + decimal_text(max)
                + " (UDP)"@,
            None => "ICE Port Range: Unlimited (OS-managed)"@,
        },
        "============================"@,
    ]
}

/// The default settings give rise to no warning.
pub proof fn law_defaults_pass_without_warning(lan_ip: Option<Seq<char>>, i: int)
    requires
        0 <= i < setting_remarks(
            unset_vars(),
            DEFAULT_STUN_URL@,
            DEFAULT_PLATFORM_MODE@,
            lan_ip,
        ).len(),
    ensures
        setting_remarks(unset_vars(), DEFAULT_STUN_URL@, DEFAULT_PLATFORM_MODE@, lan_ip)[i].level
            == RemarkLevel::Notice,
{
}

impl ServerConfig {
    /// What there is to say about the settings. `lan_ip` is the address of the local
    /// network, where it is known.
    pub fn remarks(vars: &EnvVars, lan_ip: &Option<String>) -> (remarks: Vec<Remark>)
        ensures
            remark_views(remarks@) == setting_remarks(
                vars@,
                unicode_lowercase(stun_url_text(vars@)),
                unicode_lowercase(platform_mode_text(vars@)),
                lan_ip.deep_view(),
            ),
            remark_views(remarks@) == setting_remarks(
                vars@,
                lowercase(stun_url_text(vars@)),
                lowercase(platform_mode_text(vars@)),
                lan_ip.deep_view(),
            ),
    {
        let stun_url: String = text_setting(&vars.stun_url, DEFAULT_STUN_URL);
        let platform_mode: String = text_setting(&vars.platform_mode, DEFAULT_PLATFORM_MODE);
        let stun_keyword: String = to_lowercase(stun_url.as_str());
        let mode_keyword: String = to_lowercase(platform_mode.as_str());
        Self::remarks_for(vars, stun_keyword.as_str(), mode_keyword.as_str(), lan_ip)
    }

    /// What there is to say about the settings. The two keywords are the STUN and the
    /// platform setting in lower case.
    pub fn remarks_for(
        vars: &EnvVars,
        stun_keyword: &str,
        mode_keyword: &str,
        lan_ip: &Option<String>,
    ) -> (remarks: Vec<Remark>)
        ensures
            remark_views(remarks@) == setting_remarks(
                vars@,
                stun_keyword@,
                mode_keyword@,
                lan_ip.deep_view(),
            ),
    {
        let mut remarks: Vec<Remark> = Vec::new();
        assert(remark_views(remarks@) =~= seq![]);
        if same_text(stun_keyword, "auto") {
            let stun_port: String = text_setting(&vars.stun_port, DEFAULT_STUN_PORT);
            notice(
                &mut remarks,
                "STUN auto mode: Server will listen on all interfaces (0.0.0.0:".to_owned().concat(
                    stun_port.as_str(),
                ).concat(")"),
            );
            notice(
                &mut remarks,
                "Server's peer connection will use: stun:127.0.0.1:".to_owned().concat(
                    stun_port.as_str(),
                ),
            );
            notice(
                &mut remarks,
                "Clients will auto-detect STUN URL from the server hostname they use to connect".to_owned(),
            );
        }
        if !same_text(mode_keyword, "web") && !same_text(mode_keyword, "self") {
            warn(
                &mut remarks,
                "Invalid PLATFORM_MODE '".to_owned().concat(mode_keyword).concat(
                    "', defaulting to 'self'",
                ),
            );
        }
        if let Some(ip) = lan_ip {
            if Self::wants_lan_ip(vars) {
                notice(
                    &mut remarks,
                    "NAT_1TO1_IP not set, auto-detected IP: ".to_owned().concat(ip.as_str()),
                );
            }
        }
        match (port_setting(&vars.ice_port_min), port_setting(&vars.ice_port_max)) {
            (Some(min), Some(max)) => {
                if min > max || min == 0 || max == 0 {
                    return remarks;
                }
            },
            (Some(_), None) => warn(
                &mut remarks,
                "ICE_PORT_MIN provided without ICE_PORT_MAX. Port range restriction will be disabled.".to_owned(),
            ),
            (None, Some(_)) => warn(
                &mut remarks,
                "ICE_PORT_MAX provided without ICE_PORT_MIN. Port range restriction will be disabled.".to_owned(),
            ),
            (None, None) => {},
        }
        let port: String = text_setting(&vars.port, DEFAULT_PORT);
        if parse_unsigned(port.as_str(), u16::MAX as u64).is_err() {
            return remarks;
        }
        let max_connections: u64 = number_setting(
            &vars.max_connections,
            usize::MAX as u64,
            DEFAULT_MAX_CONNECTIONS as u64,
        );
        if max_connections == 0 {
            return remarks;
        }
        if max_connections > 100000 {
            warn(
                &mut remarks,
                "MAX_CONNECTIONS (".to_owned().concat(decimal(max_connections).as_str()).concat(
                    ") is very high, ensure server has adequate resources",
                ),
            );
        }
        let per_ip: u64 = number_setting(
            &vars.max_connections_per_ip,
            usize::MAX as u64,
            DEFAULT_MAX_CONNECTIONS_PER_IP as u64,
        );
        if per_ip == 0 {
            return remarks;
        }
        if per_ip > max_connections {
            warn(
                &mut remarks,
                "MAX_CONNECTIONS_PER_IP (".to_owned().concat(decimal(per_ip).as_str()).concat(
                    ") exceeds MAX_CONNECTIONS (",
                ).concat(decimal(max_connections).as_str()).concat("), capping to ").concat(
                    decimal(max_connections).as_str(),
                ),
            );
        }
        let ice: u64 = number_setting(
            &vars.ice_gathering_timeout_secs,
            u64::MAX,
            DEFAULT_ICE_GATHERING_TIMEOUT_SECS,
        );
        if ice == 0 {
            return remarks;
        }
        if ice > 60 {
            warn(
                &mut remarks,
                "ICE_GATHERING_TIMEOUT_SECS (".to_owned().concat(decimal(ice).as_str()).concat(
                    ") is very high, may cause slow responses",
                ),
            );
        }
        let overall: u64 = number_setting(
            &vars.overall_request_timeout_secs,
            u64::MAX,
            DEFAULT_OVERALL_REQUEST_TIMEOUT_SECS,
        );
        let interval: u64 = number_setting(
            &vars.periodic_cleanup_interval_secs,
            u64::MAX,
            DEFAULT_PERIODIC_CLEANUP_INTERVAL_SECS,
        );
        let stale: u64 = number_setting(
            &vars.stale_connection_age_secs,
            u64::MAX,
            DEFAULT_STALE_CONNECTION_AGE_SECS,
        );
        if overall <= ice || interval == 0 || stale == 0 {
            return remarks;
        }
        if stale < 30 {
            warn(
                &mut remarks,
                "STALE_CONNECTION_AGE_SECS (".to_owned().concat(decimal(stale).as_str()).concat(
                    ") is very low, may prematurely close active connections",
                ),
            );
        }
        remarks
    }

    /// The configuration in words, a line for each setting.
    pub fn log(&self) -> (lines: Vec<String>)
        ensures
            texts(lines@) == log_lines(self@),
    {
        let mut lines: Vec<String> = Vec::new();
        assert(texts(lines@) =~= seq![]);
        push_text(&mut lines, "=== Server Configuration ===".to_owned());
        push_text(
            &mut lines,
            match self.platform_mode {
                PlatformMode::Web =>
                "Platform Mode: Web (Public web service with stricter limits)".to_owned(),
                PlatformMode::SelfHosted =>
                "Platform Mode: SelfHosted (Self-hosted with infinite test support)".to_owned(),
            },
        );
        push_text(&mut lines, "HTTP Port: ".to_owned().concat(self.port.as_str()));
        if self.stun_enabled {
            push_text(
                &mut lines,
                "STUN Server: Enabled on port ".to_owned().concat(self.stun_port.as_str()).concat(
                    " (UDP)",
                ),
            );
            push_text(
                &mut lines,
                "STUN URL for clients: ".to_owned().concat(self.stun_url.as_str()),
            );
        } else {
            push_text(&mut lines, "STUN Server: Disabled (LAN-only mode)".to_owned());
        }
        push_text(
            &mut lines,
            "Max Connections: ".to_owned().concat(decimal(self.max_connections as u64).as_str()),
        );
        push_text(
            &mut lines,
            "Max Connections Per IP: ".to_owned().concat(
                decimal(self.max_connections_per_ip as u64).as_str(),
            ),
        );
        push_text(&mut lines, seconds_line("ICE Gathering Timeout: ", self.ice_gathering_timeout));
        push_text(
            &mut lines,
            seconds_line("Overall Request Timeout: ", self.overall_request_timeout),
        );
        push_text(
            &mut lines,
            seconds_line("Periodic Cleanup Interval: ", self.periodic_cleanup_interval),
        );
        push_text(&mut lines, seconds_line("Stale Connection Age: ", self.stale_connection_age));
        if let Some(ip) = &self.nat_1to1_ip {
            push_text(&mut lines, "NAT 1-to-1 Mapping: ".to_owned().concat(ip.as_str()));
        }
        match self.ice_port_range {
            Some((min, max)) => push_text(
                &mut lines,
                "ICE Port Range: ".to_owned().concat(decimal(min as u64).as_str()).concat(
                    " - ",
                ).concat(decimal(max as u64).as_str()).concat(" (UDP)"),
            ),
            None => push_text(&mut lines, "ICE Port Range: Unlimited (OS-managed)".to_owned()),
        }
        push_text(&mut lines, "============================".to_owned());
        assert(texts(lines@) =~= log_lines(self@));
        lines
    }
}

fn notice(list: &mut Vec<Remark>, text: String)
    ensures
        remark_views(final(list)@) == remark_views(old(list)@) + notice_if(true, text@),
{
    list.push(Remark { level: RemarkLevel::Notice, text });
    assert(remark_views(list@) =~= remark_views(old(list)@) + notice_if(true, text@));
}

fn warn(list: &mut Vec<Remark>, text: String)
    ensures
        remark_views(final(list)@) == remark_views(old(list)@) + warning_if(true, text@),
{
    list.push(Remark { level: RemarkLevel::Warning, text });
    assert(remark_views(list@) =~= remark_views(old(list)@) + warning_if(true, text@));
}

fn push_text(list: &mut Vec<String>, text: String)
    ensures
        texts(final(list)@) == texts(old(list)@).push(text@),
{
    list.push(text);
    assert(texts(list@) =~= texts(old(list)@).push(text@));
}

fn seconds_line(label: &str, secs: u64) -> (line: String)
    ensures
        line@ == seconds_text(label@, secs as nat),
{
    if secs == 0 {
        label.to_owned().concat("0ns")
    } else {
        label.to_owned().concat(decimal(secs).as_str()).concat("s")
    }
}

/// What is logged of a configuration: a line for each setting, in a fixed order, that says
/// its value. The lines on STUN are two where it is on and one where it is off, and the
/// address of the server has a line where there is one.
pub proof fn law_log(c: ConfigView)
    ensures
        ({
            let lines = log_lines(c);
            let k: int = if c.stun_enabled {
                5
            } else {
                4
            };
            let m: int = if c.nat_1to1_ip is Some {
                k + 7
            } else {
                k + 6
            };
            &&& lines.len() == m + 2
            &&& lines[0] == "=== Server Configuration ==="@
            &&& c.platform_mode == PlatformMode::Web ==> lines[1]
                == "Platform Mode: Web (Public web service with stricter limits)"@
            &&& c.platform_mode == PlatformMode::SelfHosted ==> lines[1]
                == "Platform Mode: SelfHosted (Self-hosted with infinite test support)"@
            &&& lines[2] == "HTTP Port: "@ + c.port
            &&& c.stun_enabled ==> lines[3] == "STUN Server: Enabled on port "@ + c.stun_port
                + " (UDP)"@
            &&& c.stun_enabled ==> lines[4] == "STUN URL for clients: "@ + c.stun_url
            &&& !c.stun_enabled ==> lines[3] == "STUN Server: Disabled (LAN-only mode)"@
            &&& lines[k] == "Max Connections: "@ + decimal_text(c.max_connections)
            &&& lines[k + 1] == "Max Connections Per IP: "@ + decimal_text(
                c.max_connections_per_ip,
            )
            &&& lines[k + 2] == seconds_text("ICE Gathering Timeout: "@, c.ice_gathering_timeout)
            &&& lines[k + 3] == seconds_text(
                "Overall Request Timeout: "@,
                c.overall_request_timeout,
            )
            &&& lines[k + 4] == seconds_text(
                "Periodic Cleanup Interval: "@,
                c.periodic_cleanup_interval,
            )
            &&& lines[k + 5] == seconds_text("Stale Connection Age: "@, c.stale_connection_age)
            &&& c.nat_1to1_ip matches Some(ip) ==> lines[k + 6] == "NAT 1-to-1 Mapping: "@ + ip
            &&& c.ice_port_range matches Some((min, max)) ==> lines[m] == "ICE Port Range: "@
                + decimal_text(min) + " - "@ + decimal_text(max) + " (UDP)"@
            &&& c.ice_port_range is None ==> lines[m] == "ICE Port Range: Unlimited (OS-managed)"@
            &&& lines[m + 1] == "============================"@
        }),
{
}

/// A time is logged in whole seconds, and as no nanoseconds where it is none.
pub proof fn law_seconds(label: Seq<char>, secs: nat, list: Seq<String>, i: int)
    ensures
        secs > 0 ==> seconds_text(label, secs) == label + decimal_text(secs) + "s"@,
        secs == 0 ==> seconds_text(label, secs) == label + "0ns"@,
        texts(list).len() == list.len(),
        0 <= i < list.len() ==> texts(list)[i] == list[i]@,
{
}

/// Remarks are told by their level and their text.
pub proof fn law_remark_view(list: Seq<Remark>, i: int)
    requires
        0 <= i < list.len(),
    ensures
        remark_views(list).len() == list.len(),
        remark_views(list)[i].level == list[i].level,
        remark_views(list)[i].text == list[i].text@,
{
}

/// The remarks on the settings, counted off in order: which of them are made, and in
/// which words.
#[verifier::rlimit(100)]
pub proof fn law_remarks(
    vars: EnvVarsView,
    stun_keyword: Seq<char>,
    mode_keyword: Seq<char>,
    lan_ip: Option<Seq<char>>,
)
    ensures
        ({
            let c = requested_config(vars, stun_keyword, mode_keyword, lan_ip);
            let has_min = vars.ice_port_min is Some && parsed(vars.ice_port_min->0, 65535) is Ok;
            let has_max = vars.ice_port_max is Some && parsed(vars.ice_port_max->0, 65535) is Ok;
            let asked_per_ip: nat = if vars.max_connections_per_ip is Some && parsed(
                vars.max_connections_per_ip->0,
                usize::MAX as nat,
            ) is Ok {
                parsed(vars.max_connections_per_ip->0, usize::MAX as nat)->Ok_0
            } else {
                10
            };
            let ports_pass = (c.ice_port_range matches Some((min, max)) ==> 0 < min <= max)
                && parsed(c.port, 65535) is Ok;
            let limits_pass = ports_pass && c.max_connections > 0 && asked_per_ip > 0;
            let times_pass = limits_pass && 0 < c.ice_gathering_timeout
                < c.overall_request_timeout && c.periodic_cleanup_interval > 0;
            let auto = stun_keyword == "auto"@;
            let detected = lan_ip is Some && (vars.nat_1to1_ip is None || vars.nat_1to1_ip->0.len()
                == 0);
            let remarks = setting_remarks(vars, stun_keyword, mode_keyword, lan_ip);
            let n0: int = if auto { 3 } else { 0 };
            let odd_mode = mode_keyword != "web"@ && mode_keyword != "self"@;
            let n1: int = n0 + if odd_mode { 1int } else { 0 };
            let n2: int = n1 + if detected { 1int } else { 0 };
            let n3: int = n2 + if has_min != has_max { 1int } else { 0 };
            let many = ports_pass && c.max_connections > 100000;
            let n4: int = n3 + if many { 1int } else { 0 };
            let capped = limits_pass && asked_per_ip > c.max_connections;
            let n5: int = n4 + if capped { 1int } else { 0 };
            let slow = limits_pass && c.ice_gathering_timeout > 60;
            let n6: int = n5 + if slow { 1int } else { 0 };
            let short = times_pass && 0 < c.stale_connection_age < 30;
            let n7: int = n6 + if short { 1int } else { 0 };
            &&& remarks.len() == n7
            &&& forall|i: int|
                0 <= i < n7 ==> ((#[trigger] remarks[i]).level == RemarkLevel::Notice <==> i < n0
                    || n1 <= i < n2)
            &&& auto ==> remarks[0].text
                == "STUN auto mode: Server will listen on all interfaces (0.0.0.0:"@ + c.stun_port
                + ")"@
            &&& auto ==> remarks[1].text == "Server's peer connection will use: stun:127.0.0.1:"@
                + c.stun_port
            &&& auto ==> remarks[2].text
                == "Clients will auto-detect STUN URL from the server hostname they use to connect"@
            &&& odd_mode ==> remarks[n0].text == "Invalid PLATFORM_MODE '"@ + mode_keyword
                + "', defaulting to 'self'"@
            &&& detected ==> remarks[n1].text == "NAT_1TO1_IP not set, auto-detected IP: "@
                + lan_ip->0
            &&& has_min && !has_max ==> remarks[n2].text
                == "ICE_PORT_MIN provided without ICE_PORT_MAX. Port range restriction will be disabled."@
            &&& has_max && !has_min ==> remarks[n2].text
                == "ICE_PORT_MAX provided without ICE_PORT_MIN. Port range restriction will be disabled."@
            &&& many ==> remarks[n3].text == "MAX_CONNECTIONS ("@ + decimal_text(c.max_connections)
                + ") is very high, ensure server has adequate resources"@
            &&& capped ==> remarks[n4].text == "MAX_CONNECTIONS_PER_IP ("@ + decimal_text(
                asked_per_ip,
            ) + ") exceeds MAX_CONNECTIONS ("@ + decimal_text(c.max_connections)
                + "), capping to "@ + decimal_text(c.max_connections)
            &&& slow ==> remarks[n5].text == "ICE_GATHERING_TIMEOUT_SECS ("@ + decimal_text(
                c.ice_gathering_timeout,
            ) + ") is very high, may cause slow responses"@
            &&& short ==> remarks[n6].text == "STALE_CONNECTION_AGE_SECS ("@ + decimal_text(
                c.stale_connection_age,
            ) + ") is very low, may prematurely close active connections"@
        }),
{
    law_each_setting_has_its_say(vars, stun_keyword, mode_keyword, lan_ip);
    let auto = stun_keyword == "auto"@;
    let stun_port = text_or(vars.stun_port, DEFAULT_STUN_PORT@);
    let min = port_number(vars.ice_port_min);
    let max = port_number(vars.ice_port_max);
    let total = requested_max(vars);
    let per_ip = requested_per_ip(vars);
    let gathering = requested_gathering(vars);
    let stale_age = requested_stale_age(vars);
    let ports_pass = !(min is Some && max is Some && (min->0 > max->0 || min->0 == 0 || max->0
        == 0)) && parsed(requested_port(vars), u16::MAX as nat) is Ok;
    let total_passes = ports_pass && total > 0;
    let per_ip_passes = total_passes && per_ip > 0;
    let gathering_passes = per_ip_passes && gathering > 0;
    let times_pass = gathering_passes && requested_overall(vars) > gathering && requested_interval(
        vars,
    ) > 0 && stale_age > 0;
    let row = lemma_remarks(
        auto,
        "STUN auto mode: Server will listen on all interfaces (0.0.0.0:"@ + stun_port + ")"@,
        "Server's peer connection will use: stun:127.0.0.1:"@ + stun_port,
        "Clients will auto-detect STUN URL from the server hostname they use to connect"@,
        mode_keyword != "web"@ && mode_keyword != "self"@,
        "Invalid PLATFORM_MODE '"@ + mode_keyword + "', defaulting to 'self'"@,
        non_empty(vars.nat_1to1_ip) is None && lan_ip is Some,
        "NAT_1TO1_IP not set, auto-detected IP: "@ + lan_ip->0,
        min is Some && max is None,
        "ICE_PORT_MIN provided without ICE_PORT_MAX. Port range restriction will be disabled."@,
        min is None && max is Some,
        "ICE_PORT_MAX provided without ICE_PORT_MIN. Port range restriction will be disabled."@,
        total_passes && total > 100000,
        "MAX_CONNECTIONS ("@ + decimal_text(total)
            + ") is very high, ensure server has adequate resources"@,
        per_ip_passes && per_ip > total,
        "MAX_CONNECTIONS_PER_IP ("@ + decimal_text(per_ip) + ") exceeds MAX_CONNECTIONS ("@
            + decimal_text(total) + "), capping to "@ + decimal_text(total),
        gathering_passes && gathering > 60,
        "ICE_GATHERING_TIMEOUT_SECS ("@ + decimal_text(gathering)
            + ") is very high, may cause slow responses"@,
        times_pass && stale_age < 30,
        "STALE_CONNECTION_AGE_SECS ("@ + decimal_text(stale_age)
            + ") is very low, may prematurely close active connections"@,
    );
    assert(setting_remarks(vars, stun_keyword, mode_keyword, lan_ip) == row) by {
        reveal(remark_row);
    }
}

/// Remarks in a row, each where its condition holds.
#[verifier::opaque]
spec fn remark_row(
    auto: bool,
    t0: Seq<char>,
    t1: Seq<char>,
    t2: Seq<char>,
    odd: bool,
    t3: Seq<char>,
    detected: bool,
    t4: Seq<char>,
    low: bool,
    t5: Seq<char>,
    high: bool,
    t6: Seq<char>,
    many: bool,
    t7: Seq<char>,
    capped: bool,
    t8: Seq<char>,
    slow: bool,
    t9: Seq<char>,
    short: bool,
    t10: Seq<char>,
) -> Seq<RemarkView> {
    notice_if(auto, t0)
        + notice_if(auto, t1)
        + notice_if(auto, t2)
        + warning_if(odd, t3)
        + notice_if(detected, t4)
        + warning_if(low, t5)
        + warning_if(high, t6)
        + warning_if(many, t7)
        + warning_if(capped, t8)
        + warning_if(slow, t9)
        + warning_if(short, t10)
}

/// Remarks in a row, and where each of them stands.
#[verifier::rlimit(100)]
proof fn lemma_remarks(
    auto: bool,
    t0: Seq<char>,
    t1: Seq<char>,
    t2: Seq<char>,
    odd: bool,
    t3: Seq<char>,
    detected: bool,
    t4: Seq<char>,
    low: bool,
    t5: Seq<char>,
    high: bool,
    t6: Seq<char>,
    many: bool,
    t7: Seq<char>,
    capped: bool,
    t8: Seq<char>,
    slow: bool,
    t9: Seq<char>,
    short: bool,
    t10: Seq<char>,
) -> (remarks: Seq<RemarkView>)
    requires
        !(low && high),
    ensures
        remarks == remark_row(
        auto,
        t0,
        t1,
        t2,
        odd,
        t3,
        detected,
        t4,
        low,
        t5,
        high,
        t6,
        many,
        t7,
        capped,
        t8,
        slow,
        t9,
        short,
        t10,
        ),
        ({
            let n0: int = if auto { 3 } else { 0 };
            let n1: int = n0 + if odd { 1int } else { 0 };
            let n2: int = n1 + if detected { 1int } else { 0 };
            let n3: int = n2 + if low != high { 1int } else { 0 };
            let n4: int = n3 + if many { 1int } else { 0 };
            let n5: int = n4 + if capped { 1int } else { 0 };
            let n6: int = n5 + if slow { 1int } else { 0 };
            let n7: int = n6 + if short { 1int } else { 0 };
            &&& remarks.len() == n7
            &&& forall|i: int|
                0 <= i < n7 ==> ((#[trigger] remarks[i]).level == RemarkLevel::Notice <==> i < n0
                    || n1 <= i < n2)
            &&& auto ==> remarks[0].text == t0 && remarks[1].text == t1 && remarks[2].text == t2
            &&& odd ==> remarks[n0].text == t3
            &&& detected ==> remarks[n1].text == t4
            &&& low ==> remarks[n2].text == t5
            &&& high ==> remarks[n2].text == t6
            &&& many ==> remarks[n3].text == t7
            &&& capped ==> remarks[n4].text == t8
            &&& slow ==> remarks[n5].text == t9
            &&& short ==> remarks[n6].text == t10
        }),
{
    let r0 = lemma_remark(Seq::empty(), auto, RemarkLevel::Notice, t0);
    let r1 = lemma_remark(r0, auto, RemarkLevel::Notice, t1);
    let r2 = lemma_remark(r1, auto, RemarkLevel::Notice, t2);
    let r3 = lemma_remark(r2, odd, RemarkLevel::Warning, t3);
    let r4 = lemma_remark(r3, detected, RemarkLevel::Notice, t4);
    let r5 = lemma_remark(r4, low, RemarkLevel::Warning, t5);
    let r6 = lemma_remark(r5, high, RemarkLevel::Warning, t6);
    let r7 = lemma_remark(r6, many, RemarkLevel::Warning, t7);
    let r8 = lemma_remark(r7, capped, RemarkLevel::Warning, t8);
    let r9 = lemma_remark(r8, slow, RemarkLevel::Warning, t9);
    let r10 = lemma_remark(r9, short, RemarkLevel::Warning, t10);
    assert(r0 =~= notice_if(auto, t0));
    reveal(remark_row);
    r10
}

/// A remark is put behind the others, where its condition holds.
proof fn lemma_remark(
    before: Seq<RemarkView>,
    condition: bool,
    level: RemarkLevel,
    text: Seq<char>,
) -> (after: Seq<RemarkView>)
    ensures
        after == before + if level == RemarkLevel::Notice {
            notice_if(condition, text)
        } else {
            warning_if(condition, text)
        },
        after.len() == before.len() + if condition {
            1int
        } else {
            0int
        },
        forall|i: int| 0 <= i < before.len() ==> #[trigger] after[i] == before[i],
        condition ==> after[before.len() as int] == (RemarkView { level, text }),
{
    before + if level == RemarkLevel::Notice {
        notice_if(condition, text)
    } else {
        warning_if(condition, text)
    }
}

} // verus!
