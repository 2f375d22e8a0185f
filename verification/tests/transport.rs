use openpacketloss_server::{build_webrtc_api, create_peer_connection, detect_lan_ip, wants_lan_ip};
use openpacketloss_server::{LanProbeEvent, LanProbeStep, PlatformMode, ServerConfig};

fn base() -> ServerConfig {
    ServerConfig {
        port: "8080".to_string(),
        stun_port: "3478".to_string(),
        stun_url: "stun:127.0.0.1:3478".to_string(),
        stun_enabled: true,
        platform_mode: PlatformMode::SelfHosted,
        max_connections: 500,
        max_connections_per_ip: 10,
        ice_gathering_timeout: 2,
        overall_request_timeout: 30,
        periodic_cleanup_interval: 5,
        stale_connection_age: 120,
        nat_1to1_ip: None,
        ice_port_range: None,
    }
}

#[test]
fn connections_use_stun_unless_mapped() {
    let mut config = base();
    let servers = create_peer_connection(&config);
    assert_eq!(servers.len(), 1);
    assert_eq!(servers[0].urls, vec!["stun:127.0.0.1:3478".to_string()]);
    assert!(build_webrtc_api(&config, None).nat_1to1_ips.is_empty());

    config.nat_1to1_ip = Some("203.0.113.9".to_string());
    assert!(create_peer_connection(&config).is_empty());
    config.nat_1to1_ip = None;
    config.stun_enabled = false;
    assert!(create_peer_connection(&config).is_empty());
}

#[test]
fn mapped_address_is_the_one_that_is_set() {
    let mut config = base();
    config.nat_1to1_ip = Some("203.0.113.9".to_string());
    assert!(!wants_lan_ip(&config));
    let settings = build_webrtc_api(&config, Some("10.0.0.1".to_string()));
    assert_eq!(settings.nat_1to1_ips, vec!["203.0.113.9".to_string()]);
    assert!(settings.ipv4_only);
    assert!(!settings.multicast_dns);
}

#[test]
fn mapped_address_is_found_for_auto() {
    let mut config = base();
    config.nat_1to1_ip = Some("auto".to_string());
    assert!(wants_lan_ip(&config));
    let settings = build_webrtc_api(&config, Some("10.0.0.1".to_string()));
    assert_eq!(settings.nat_1to1_ips, vec!["10.0.0.1".to_string()]);
    let settings = build_webrtc_api(&config, None);
    assert!(settings.nat_1to1_ips.is_empty());
    assert!(!settings.ipv4_only);
}

#[test]
fn no_address_is_mapped_unless_set() {
    let settings = build_webrtc_api(&base(), Some("10.0.0.1".to_string()));
    assert!(settings.nat_1to1_ips.is_empty());
    assert!(!settings.ipv4_only);
    assert!(!settings.multicast_dns);
}

#[test]
fn port_range_is_used_where_it_is_one() {
    let mut config = base();
    assert_eq!(build_webrtc_api(&config, None).udp_ports, None);
    config.ice_port_range = Some((50000, 50100));
    assert_eq!(build_webrtc_api(&config, None).udp_ports, Some((50000, 50100)));
    config.ice_port_range = Some((7, 7));
    assert_eq!(build_webrtc_api(&config, None).udp_ports, Some((7, 7)));
    config.ice_port_range = Some((8, 7));
    assert_eq!(build_webrtc_api(&config, None).udp_ports, None);
}

#[test]
fn lan_address_is_found_in_steps() {
    assert!(matches!(detect_lan_ip(LanProbeEvent::Started), LanProbeStep::Bind("0.0.0.0:0")));
    assert!(matches!(
        detect_lan_ip(LanProbeEvent::Bound { ok: true }),
        LanProbeStep::Connect("8.8.8.8:80")
    ));
    assert!(matches!(
        detect_lan_ip(LanProbeEvent::Connected { ok: true }),
        LanProbeStep::ReadLocalAddress
    ));
    let found = detect_lan_ip(LanProbeEvent::LocalAddress(Some("10.0.0.1".to_string())));
    assert!(matches!(found, LanProbeStep::Done(Some(ip)) if ip == "10.0.0.1"));
}

#[test]
fn lan_address_is_not_found_after_a_failure() {
    for event in [
        LanProbeEvent::Bound { ok: false },
        LanProbeEvent::Connected { ok: false },
        LanProbeEvent::LocalAddress(None),
    ] {
        assert!(matches!(detect_lan_ip(event), LanProbeStep::Done(None)));
    }
}
