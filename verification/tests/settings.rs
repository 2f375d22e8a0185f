use openpacketloss_server::{EnvVars, PlatformMode, Remark, RemarkLevel, ServerConfig};
use openpacketloss_server::{ensure_config_file, CONFIG_FILE, DEFAULT_CONFIG_TEMPLATE};

fn unset() -> EnvVars {
    EnvVars {
        port: None,
        stun_port: None,
        stun_url: None,
        platform_mode: None,
        max_connections: None,
        max_connections_per_ip: None,
        ice_gathering_timeout_secs: None,
        overall_request_timeout_secs: None,
        periodic_cleanup_interval_secs: None,
        stale_connection_age_secs: None,
        nat_1to1_ip: None,
        ice_port_min: None,
        ice_port_max: None,
    }
}

fn some(text: &str) -> Option<String> {
    Some(text.to_string())
}

fn error_of(vars: &EnvVars) -> String {
    ServerConfig::from_env(vars, None).unwrap_err()
}

fn texts(remarks: Vec<Remark>, level: RemarkLevel) -> Vec<String> {
    remarks.into_iter().filter(|r| r.level == level).map(|r| r.text).collect()
}

fn warnings(vars: &EnvVars) -> Vec<String> {
    texts(ServerConfig::remarks(vars, &None), RemarkLevel::Warning)
}

fn notices(vars: &EnvVars, lan_ip: Option<String>) -> Vec<String> {
    texts(ServerConfig::remarks(vars, &lan_ip), RemarkLevel::Notice)
}

fn assert_defaults(config: &ServerConfig) {
    assert_eq!(config.port, "8080");
    assert_eq!(config.stun_port, "3478");
    assert_eq!(config.stun_url, "stun:127.0.0.1:3478");
    assert!(config.stun_enabled);
    assert_eq!(config.platform_mode, PlatformMode::SelfHosted);
    assert_eq!(config.max_connections, 500);
    assert_eq!(config.max_connections_per_ip, 10);
    assert_eq!(config.ice_gathering_timeout, 2);
    assert_eq!(config.overall_request_timeout, 30);
    assert_eq!(config.periodic_cleanup_interval, 5);
    assert_eq!(config.stale_connection_age, 120);
    assert_eq!(config.ice_port_range, None);
}

#[test]
fn unset_environment_gives_the_defaults() {
    let config = ServerConfig::from_env(&unset(), some("192.168.1.7")).unwrap();
    assert_defaults(&config);
    assert_eq!(config.nat_1to1_ip.as_deref(), Some("192.168.1.7"));
    assert_eq!(ServerConfig::from_env(&unset(), None).unwrap().nat_1to1_ip, None);
}

#[test]
fn template_holds_the_defaults() {
    let mut vars = unset();
    for item in dotenvy::from_read_iter(DEFAULT_CONFIG_TEMPLATE.as_bytes()) {
        let (name, value) = item.unwrap();
        let value = Some(value);
        match name.as_str() {
            "PORT" => vars.port = value,
            "STUN_PORT" => vars.stun_port = value,
            "STUN_URL" => vars.stun_url = value,
            "PLATFORM_MODE" => vars.platform_mode = value,
            "MAX_CONNECTIONS" => vars.max_connections = value,
            "MAX_CONNECTIONS_PER_IP" => vars.max_connections_per_ip = value,
            "ICE_GATHERING_TIMEOUT_SECS" => vars.ice_gathering_timeout_secs = value,
            "OVERALL_REQUEST_TIMEOUT_SECS" => vars.overall_request_timeout_secs = value,
            "PERIODIC_CLEANUP_INTERVAL_SECS" => vars.periodic_cleanup_interval_secs = value,
            "STALE_CONNECTION_AGE_SECS" => vars.stale_connection_age_secs = value,
            "RUST_LOG" => assert_eq!(value.as_deref(), Some("info")),
            other => panic!("unexpected variable {}", other),
        }
    }
    assert!(vars.port.is_some() && vars.stale_connection_age_secs.is_some());
    assert_defaults(&ServerConfig::from_env(&vars, None).unwrap());
    assert!(warnings(&vars).is_empty());
}

#[test]
fn config_file_is_written_only_where_there_is_none() {
    assert_eq!(CONFIG_FILE, ".env");
    assert!(ensure_config_file(true).is_none());
    let file = ensure_config_file(false).unwrap();
    assert_eq!(file.contents, DEFAULT_CONFIG_TEMPLATE);
    assert_eq!(file.mode, 0o600);
}

#[test]
fn keywords_are_read_in_any_case() {
    let mut vars = unset();
    vars.stun_url = some("NoNe");
    vars.platform_mode = some("WEB");
    let config = ServerConfig::from_env(&vars, None).unwrap();
    assert!(!config.stun_enabled);
    assert_eq!(config.stun_url, "");
    assert_eq!(config.platform_mode, PlatformMode::Web);

    vars.stun_url = some("AUTO");
    vars.stun_port = some("9999");
    vars.platform_mode = some("Self");
    let config = ServerConfig::from_env(&vars, None).unwrap();
    assert_eq!(config.stun_url, "stun:127.0.0.1:9999");
    assert_eq!(config.platform_mode, PlatformMode::SelfHosted);
}

#[test]
fn unknown_mode_is_self_hosted() {
    let mut vars = unset();
    vars.platform_mode = some("ÖFFENTLICH");
    assert_eq!(
        ServerConfig::from_env(&vars, None).unwrap().platform_mode,
        PlatformMode::SelfHosted
    );
    assert_eq!(
        warnings(&vars),
        vec!["Invalid PLATFORM_MODE 'öffentlich', defaulting to 'self'".to_string()]
    );
}

#[test]
fn settings_take_keywords_as_they_are() {
    let vars = unset();
    let config = ServerConfig::from_settings(&vars, "none", "web", None).unwrap();
    assert!(!config.stun_enabled);
    assert_eq!(config.platform_mode, PlatformMode::Web);
    let config = ServerConfig::from_settings(&vars, "auto", "WEB", None).unwrap();
    assert_eq!(config.platform_mode, PlatformMode::SelfHosted);
}

#[test]
fn explicit_urls_stay_as_they_are() {
    for url in ["stun:stun.Example.com:3478", "turn:host", "turns:host:443"] {
        let mut vars = unset();
        vars.stun_url = some(url);
        let config = ServerConfig::from_env(&vars, None).unwrap();
        assert!(config.stun_enabled);
        assert_eq!(config.stun_url, url);
    }
}

#[test]
fn unreadable_numbers_fall_back_to_the_defaults() {
    let mut vars = unset();
    vars.max_connections = some("many");
    vars.max_connections_per_ip = some("-1");
    vars.ice_gathering_timeout_secs = some("");
    vars.overall_request_timeout_secs = some("30s");
    vars.periodic_cleanup_interval_secs = some("18446744073709551616");
    vars.stale_connection_age_secs = some("1.5");
    vars.ice_port_min = some("70000");
    vars.ice_port_max = some("80000");
    assert_defaults(&ServerConfig::from_env(&vars, None).unwrap());
}

#[test]
fn numbers_are_taken_and_the_address_limit_is_capped() {
    let mut vars = unset();
    vars.max_connections = some("7");
    vars.max_connections_per_ip = some("9");
    vars.ice_gathering_timeout_secs = some("3");
    vars.overall_request_timeout_secs = some("4");
    vars.periodic_cleanup_interval_secs = some("1");
    vars.stale_connection_age_secs = some("+40");
    vars.ice_port_min = some("5000");
    vars.ice_port_max = some("5000");
    let config = ServerConfig::from_env(&vars, None).unwrap();
    assert_eq!(config.max_connections, 7);
    assert_eq!(config.max_connections_per_ip, 7);
    assert_eq!(config.ice_gathering_timeout, 3);
    assert_eq!(config.overall_request_timeout, 4);
    assert_eq!(config.periodic_cleanup_interval, 1);
    assert_eq!(config.stale_connection_age, 40);
    assert_eq!(config.ice_port_range, Some((5000, 5000)));
    assert_eq!(
        warnings(&vars),
        vec!["MAX_CONNECTIONS_PER_IP (9) exceeds MAX_CONNECTIONS (7), capping to 7".to_string()]
    );
}

#[test]
fn set_address_goes_before_the_detected_one() {
    let mut vars = unset();
    vars.nat_1to1_ip = some("203.0.113.9");
    assert!(!ServerConfig::wants_lan_ip(&vars));
    let config = ServerConfig::from_env(&vars, some("10.0.0.1")).unwrap();
    assert_eq!(config.nat_1to1_ip.as_deref(), Some("203.0.113.9"));
    vars.nat_1to1_ip = some("");
    assert!(ServerConfig::wants_lan_ip(&vars));
    let config = ServerConfig::from_env(&vars, some("10.0.0.1")).unwrap();
    assert_eq!(config.nat_1to1_ip.as_deref(), Some("10.0.0.1"));
}

#[test]
fn one_sided_port_range_is_no_range() {
    let mut vars = unset();
    vars.ice_port_min = some("5000");
    assert_eq!(ServerConfig::from_env(&vars, None).unwrap().ice_port_range, None);
    assert_eq!(
        warnings(&vars),
        vec!["ICE_PORT_MIN provided without ICE_PORT_MAX. Port range restriction will be disabled."
            .to_string()]
    );
    vars.ice_port_min = None;
    vars.ice_port_max = some("5000");
    assert_eq!(ServerConfig::from_env(&vars, None).unwrap().ice_port_range, None);
    assert_eq!(
        warnings(&vars),
        vec!["ICE_PORT_MAX provided without ICE_PORT_MIN. Port range restriction will be disabled."
            .to_string()]
    );
}

#[test]
fn port_range_errors() {
    let mut vars = unset();
    vars.ice_port_min = some("6000");
    vars.ice_port_max = some("5000");
    vars.port = some("nonsense");
    assert_eq!(
        error_of(&vars),
        "ICE_PORT_MIN (6000) cannot be greater than ICE_PORT_MAX (5000)"
    );
    vars.ice_port_min = some("0");
    assert_eq!(error_of(&vars), "ICE ports must be greater than 0");
    assert!(warnings(&vars).is_empty());
}

#[test]
fn port_errors_say_what_std_says() {
    for text in ["", "http", "65536", "-1"] {
        let reason = text.parse::<u16>().unwrap_err();
        let mut vars = unset();
        vars.port = some(text);
        assert_eq!(error_of(&vars), format!("Invalid PORT '{}': {}", text, reason));
        let mut vars = unset();
        vars.stun_port = some(text);
        assert_eq!(error_of(&vars), format!("Invalid STUN_PORT '{}': {}", text, reason));
    }
}

#[test]
fn zero_settings_are_refused() {
    let mut vars = unset();
    vars.max_connections = some("0");
    assert_eq!(error_of(&vars), "MAX_CONNECTIONS must be greater than 0");
    let mut vars = unset();
    vars.max_connections_per_ip = some("0");
    assert_eq!(error_of(&vars), "MAX_CONNECTIONS_PER_IP must be greater than 0");
    let mut vars = unset();
    vars.ice_gathering_timeout_secs = some("0");
    assert_eq!(error_of(&vars), "ICE_GATHERING_TIMEOUT_SECS must be greater than 0");
    let mut vars = unset();
    vars.overall_request_timeout_secs = some("0");
    assert_eq!(error_of(&vars), "OVERALL_REQUEST_TIMEOUT_SECS must be greater than 0");
    let mut vars = unset();
    vars.periodic_cleanup_interval_secs = some("0");
    assert_eq!(error_of(&vars), "PERIODIC_CLEANUP_INTERVAL_SECS must be greater than 0");
    let mut vars = unset();
    vars.stale_connection_age_secs = some("0");
    assert_eq!(error_of(&vars), "STALE_CONNECTION_AGE_SECS must be greater than 0");
}

#[test]
fn request_must_outlast_gathering() {
    let mut vars = unset();
    vars.ice_gathering_timeout_secs = some("30");
    assert_eq!(
        error_of(&vars),
        "OVERALL_REQUEST_TIMEOUT_SECS (30) must be greater than ICE_GATHERING_TIMEOUT_SECS (30)"
    );
}

#[test]
fn strange_urls_are_refused() {
    let mut vars = unset();
    vars.stun_url = some("http://example.com");
    assert_eq!(
        error_of(&vars),
        "Invalid STUN/TURN URL format 'http://example.com'. Must start with 'stun:', 'turn:', or 'turns:'"
    );
    vars.stun_url = some("STUN:host");
    assert!(error_of(&vars).starts_with("Invalid STUN/TURN URL format 'STUN:host'"));
    vars.stun_url = some("");
    assert!(error_of(&vars).starts_with("Invalid STUN/TURN URL format ''"));
}

#[test]
fn stun_port_matters_even_with_stun_off() {
    let mut vars = unset();
    vars.stun_url = some("none");
    vars.stun_port = some("x");
    assert_eq!(error_of(&vars), "Invalid STUN_PORT 'x': invalid digit found in string");
}

#[test]
fn warnings_are_given_up_to_the_first_refusal() {
    let mut vars = unset();
    vars.platform_mode = some("cloud");
    vars.max_connections = some("100001");
    vars.ice_gathering_timeout_secs = some("61");
    vars.overall_request_timeout_secs = some("62");
    vars.stale_connection_age_secs = some("29");
    assert_eq!(
        warnings(&vars),
        vec![
            "Invalid PLATFORM_MODE 'cloud', defaulting to 'self'".to_string(),
            "MAX_CONNECTIONS (100001) is very high, ensure server has adequate resources"
                .to_string(),
            "ICE_GATHERING_TIMEOUT_SECS (61) is very high, may cause slow responses".to_string(),
            "STALE_CONNECTION_AGE_SECS (29) is very low, may prematurely close active connections"
                .to_string(),
        ]
    );
    vars.overall_request_timeout_secs = some("61");
    assert_eq!(warnings(&vars).len(), 3);
    vars.max_connections = some("0");
    assert_eq!(warnings(&vars).len(), 1);
    assert!(warnings(&unset()).is_empty());
    assert_eq!(ServerConfig::remarks_for(&unset(), "none", "web", &None).len(), 0);
    assert_eq!(ServerConfig::remarks_for(&unset(), "none", "WEB", &None).len(), 1);
    assert_eq!(ServerConfig::remarks_for(&unset(), "NONE", "web", &None).len(), 0);
}

#[test]
fn log_tells_every_setting() {
    let config = ServerConfig::from_env(&unset(), some("10.0.0.1")).unwrap();
    assert_eq!(
        config.log(),
        vec![
            "=== Server Configuration ===",
            "Platform Mode: SelfHosted (Self-hosted with infinite test support)",
            "HTTP Port: 8080",
            "STUN Server: Enabled on port 3478 (UDP)",
            "STUN URL for clients: stun:127.0.0.1:3478",
            "Max Connections: 500",
            "Max Connections Per IP: 10",
            "ICE Gathering Timeout: 2s",
            "Overall Request Timeout: 30s",
            "Periodic Cleanup Interval: 5s",
            "Stale Connection Age: 120s",
            "NAT 1-to-1 Mapping: 10.0.0.1",
            "ICE Port Range: Unlimited (OS-managed)",
            "============================",
        ]
    );
    let timeout = std::time::Duration::from_secs(config.ice_gathering_timeout);
    assert_eq!(config.log()[7], format!("ICE Gathering Timeout: {:?}", timeout));
}

#[test]
fn log_of_times_of_zero() {
    let mut config = ServerConfig::from_env(&unset(), None).unwrap();
    config.ice_gathering_timeout = 0;
    config.overall_request_timeout = u64::MAX;
    config.periodic_cleanup_interval = 1;
    config.stale_connection_age = 0;
    let duration = std::time::Duration::from_secs;
    let lines = config.log();
    assert_eq!(lines[7], "ICE Gathering Timeout: 0ns");
    assert_eq!(lines[7], format!("ICE Gathering Timeout: {:?}", duration(0)));
    assert_eq!(lines[8], format!("Overall Request Timeout: {:?}", duration(u64::MAX)));
    assert_eq!(lines[9], format!("Periodic Cleanup Interval: {:?}", duration(1)));
    assert_eq!(lines[10], "Stale Connection Age: 0ns");
}

#[test]
fn notices_about_stun_and_the_local_network() {
    let mut vars = unset();
    assert_eq!(
        notices(&vars, some("192.168.1.7")),
        vec![
            "STUN auto mode: Server will listen on all interfaces (0.0.0.0:3478)",
            "Server's peer connection will use: stun:127.0.0.1:3478",
            "Clients will auto-detect STUN URL from the server hostname they use to connect",
            "NAT_1TO1_IP not set, auto-detected IP: 192.168.1.7",
        ]
    );
    vars.stun_url = some("AUTO");
    vars.stun_port = some("9999");
    let found = notices(&vars, None);
    assert_eq!(found.len(), 3);
    assert_eq!(found[1], "Server's peer connection will use: stun:127.0.0.1:9999");
    vars.stun_url = some("none");
    vars.nat_1to1_ip = some("1.2.3.4");
    assert!(notices(&vars, some("192.168.1.7")).is_empty());
}

#[test]
fn remarks_come_in_the_order_of_the_settings() {
    let mut vars = unset();
    vars.platform_mode = some("cloud");
    vars.ice_port_min = some("5000");
    let remarks = ServerConfig::remarks(&vars, &some("192.168.1.7"));
    let starts = ["STUN auto", "Server's", "Clients", "Invalid", "NAT_1TO1_IP", "ICE_PORT_MIN"];
    assert_eq!(remarks.len(), starts.len());
    for (remark, start) in remarks.iter().zip(starts) {
        assert!(remark.text.starts_with(start), "{}", remark.text);
        let warning = start == "Invalid" || start == "ICE_PORT_MIN";
        assert_eq!(remark.level == RemarkLevel::Warning, warning);
    }
}

#[test]
fn each_keyword_is_read_by_itself() {
    let mut vars = unset();
    vars.stun_url = some("NONE");
    vars.platform_mode = some("ÖFFENTLICH");
    let config = ServerConfig::from_env(&vars, None).unwrap();
    assert!(!config.stun_enabled);
    assert_eq!(config.stun_url, "");
    assert_eq!(config.platform_mode, PlatformMode::SelfHosted);
    vars.stun_url = some("stun:höst");
    vars.platform_mode = some("WEB");
    let config = ServerConfig::from_env(&vars, None).unwrap();
    assert_eq!(config.stun_url, "stun:höst");
    assert_eq!(config.platform_mode, PlatformMode::Web);
}

#[test]
fn log_of_a_public_server_without_stun() {
    let mut vars = unset();
    vars.platform_mode = some("web");
    vars.stun_url = some("none");
    vars.ice_port_min = some("1");
    vars.ice_port_max = some("2");
    let lines = ServerConfig::from_env(&vars, None).unwrap().log();
    assert_eq!(lines[1], "Platform Mode: Web (Public web service with stricter limits)");
    assert_eq!(lines[3], "STUN Server: Disabled (LAN-only mode)");
    assert_eq!(lines[10], "ICE Port Range: 1 - 2 (UDP)");
    assert_eq!(lines.len(), 12);
}

#[test]
fn addresses_to_listen_at() {
    let mut vars = unset();
    let config = ServerConfig::from_env(&vars, None).unwrap();
    assert_eq!(config.http_addr(), "0.0.0.0:8080");
    assert_eq!(config.stun_addr().as_deref(), Some("0.0.0.0:3478"));
    vars.stun_url = some("none");
    assert_eq!(ServerConfig::from_env(&vars, None).unwrap().stun_addr(), None);
}
