use std::sync::{Arc, Mutex};

use openpacketloss_server::{should_remove, AppState, ConnectionMetadata, Connections};
use openpacketloss_server::{ChannelCounter, SharedCounter};
use openpacketloss_server::{PeerConnectionState, PlatformMode, ServerConfig, StatusCode};

const SECOND: u128 = 1_000_000_000;

fn config(mode: PlatformMode, total: usize, per_ip: usize) -> ServerConfig {
    ServerConfig {
        port: "8080".to_string(),
        stun_port: "3478".to_string(),
        stun_url: "stun:127.0.0.1:3478".to_string(),
        stun_enabled: true,
        platform_mode: mode,
        max_connections: total,
        max_connections_per_ip: per_ip,
        ice_gathering_timeout: 2,
        overall_request_timeout: 30,
        periodic_cleanup_interval: 5,
        stale_connection_age: 120,
        nat_1to1_ip: None,
        ice_port_range: None,
    }
}

fn share(counter: ChannelCounter) -> SharedCounter {
    Arc::new(Mutex::new(counter))
}

fn server(total: usize, per_ip: usize) -> AppState<PeerConnectionState> {
    AppState::new(config(PlatformMode::SelfHosted, total, per_ip), 0)
}

fn reserve(state: &mut AppState<PeerConnectionState>, id: &str, ip: &str, now: u128) -> Option<u16> {
    state.reserve(id.to_string(), ip, now, share).err().map(|e| e.status.as_u16())
}

#[test]
fn total_limit_is_kept() {
    let mut state = server(2, 2);
    assert_eq!(reserve(&mut state, "a", "1.1.1.1", 0), None);
    assert_eq!(reserve(&mut state, "b", "2.2.2.2", 0), None);
    let refused = state.reserve("c".to_string(), "3.3.3.3", 0, share).unwrap_err();
    assert_eq!(refused.status, StatusCode::ServiceUnavailable);
    assert_eq!(refused.message, "Server at capacity, try again later");
    assert_eq!(state.health_check(0).total_connections, 2);
}

#[test]
fn address_limit_is_kept() {
    let mut state = server(10, 2);
    assert_eq!(reserve(&mut state, "a", "1.1.1.1", 0), None);
    assert_eq!(reserve(&mut state, "b", "1.1.1.1", 0), None);
    let refused = state.reserve("c".to_string(), "1.1.1.1", 0, share).unwrap_err();
    assert_eq!(refused.status, StatusCode::TooManyRequests);
    assert_eq!(refused.message, "Too many connections from your IP");
    assert_eq!(reserve(&mut state, "d", "2.2.2.2", 0), None);
}

#[test]
fn cleanup_makes_room_for_the_client() {
    let mut state = server(10, 1);
    assert_eq!(reserve(&mut state, "a", "1.1.1.1", 0), None);
    assert_eq!(reserve(&mut state, "b", "1.1.1.1", 0), Some(429));
    let gone = state.cleanup_connection("a").unwrap();
    assert_eq!(gone.client_ip, "1.1.1.1");
    assert!(state.cleanup_connection("a").is_none());
    assert_eq!(state.health_check(0).total_connections, 0);
    assert_eq!(reserve(&mut state, "b", "1.1.1.1", 0), None);
}

#[test]
fn health_reports_counts_and_uptime() {
    let mut state: AppState<u8> =
        AppState::new(config(PlatformMode::Web, 5, 2), 100 * SECOND);
    state.reserve("a".to_string(), "1.1.1.1", 0, share).unwrap();
    let health = state.health_check(163 * SECOND + SECOND - 1);
    assert_eq!(health.status, "healthy");
    assert_eq!(health.total_connections, 1);
    assert_eq!(health.max_connections, 5);
    assert_eq!(health.uptime_seconds, 63);
    assert_eq!(state.health_check(99 * SECOND).uptime_seconds, 0);
    assert_eq!(state.config().max_connections_per_ip, 2);
}

#[test]
fn attached_connection_shares_the_counter() {
    let mut state: AppState<u8> = AppState::new(config(PlatformMode::Web, 5, 2), 0);
    state.reserve("a".to_string(), "1.1.1.1", 7, share).unwrap();
    state.reserve("c".to_string(), "1.1.1.1", 7, share).unwrap();
    let handed_out = state.attach("a", 42).unwrap();
    assert_eq!(handed_out.lock().unwrap().served(), 0);
    handed_out.lock().unwrap().opened();
    handed_out.lock().unwrap().opened();
    let other = state.cleanup_connection("c").unwrap().data_channel_count;
    assert_eq!(other.lock().unwrap().served(), 0);
    assert!(state.attach("b", 43).is_none());
    assert_eq!(state.health_check(0).total_connections, 1);
    let entry = state.cleanup_connection("a").unwrap();
    assert_eq!(entry.data_channel_count.lock().unwrap().served(), 2);
    assert_eq!(entry.peer_connection, Some(42));
    assert_eq!(entry.created_at, 7);
}

#[test]
fn failed_and_closed_connections_are_forgotten() {
    for (change, forgotten) in [
        (PeerConnectionState::Unspecified, false),
        (PeerConnectionState::New, false),
        (PeerConnectionState::Connecting, false),
        (PeerConnectionState::Connected, false),
        (PeerConnectionState::Disconnected, false),
        (PeerConnectionState::Failed, true),
        (PeerConnectionState::Closed, true),
    ] {
        let mut state = server(5, 5);
        reserve(&mut state, "a", "1.1.1.1", 0);
        reserve(&mut state, "b", "1.1.1.1", 0);
        assert_eq!(state.on_state_change("a", change), forgotten);
        assert_eq!(state.health_check(0).total_connections, if forgotten { 1 } else { 2 });
    }
}

#[test]
fn held_places_last_thirty_seconds() {
    for mode in [PlatformMode::Web, PlatformMode::SelfHosted] {
        assert!(!should_remove(mode, 1, 31 * SECOND - 1, None));
        assert!(should_remove(mode, 1, 31 * SECOND, None));
    }
}

#[test]
fn ended_connections_are_removed_at_once() {
    for mode in [PlatformMode::Web, PlatformMode::SelfHosted] {
        for state in [
            PeerConnectionState::Disconnected,
            PeerConnectionState::Failed,
            PeerConnectionState::Closed,
        ] {
            assert!(should_remove(mode, 120, 0, Some(state)));
        }
    }
}

#[test]
fn age_counts_for_public_servers() {
    let limit = 120 * SECOND;
    for state in [
        PeerConnectionState::Unspecified,
        PeerConnectionState::New,
        PeerConnectionState::Connecting,
        PeerConnectionState::Connected,
    ] {
        assert!(!should_remove(PlatformMode::Web, 120, limit, Some(state)));
        assert!(should_remove(PlatformMode::Web, 120, limit + 1, Some(state)));
    }
}

#[test]
fn connected_tests_may_last_on_a_self_hosted_server() {
    let mode = PlatformMode::SelfHosted;
    let limit = 120 * SECOND;
    assert!(!should_remove(mode, 120, 1000 * limit, Some(PeerConnectionState::Connected)));
    assert!(!should_remove(mode, 120, limit, Some(PeerConnectionState::Connecting)));
    assert!(should_remove(mode, 120, limit + 1, Some(PeerConnectionState::Connecting)));
    assert!(should_remove(mode, 120, limit + 1, Some(PeerConnectionState::New)));
}

#[test]
fn what_is_due_stays_due_and_public_servers_are_stricter() {
    let states = [
        None,
        Some(PeerConnectionState::New),
        Some(PeerConnectionState::Connected),
        Some(PeerConnectionState::Failed),
    ];
    for state in states {
        for mode in [PlatformMode::Web, PlatformMode::SelfHosted] {
            let mut due = false;
            for secs in 0..200u128 {
                let now_due = should_remove(mode, 100, secs * SECOND, state);
                assert!(now_due || !due);
                due = now_due;
                if due {
                    assert!(should_remove(PlatformMode::Web, 100, secs * SECOND, state));
                }
            }
        }
    }
}

#[test]
fn longest_stale_age_does_not_overflow() {
    let mode = PlatformMode::Web;
    assert!(!should_remove(mode, u64::MAX, u64::MAX as u128 * SECOND, Some(PeerConnectionState::New)));
    assert!(should_remove(mode, u64::MAX, u128::MAX, Some(PeerConnectionState::New)));
}

#[test]
fn cleanup_hands_out_what_is_due_and_keeps_the_rest() {
    let mut state = server(10, 10);
    let now = 200 * SECOND;
    reserve(&mut state, "old place", "1.1.1.1", now - 31 * SECOND);
    reserve(&mut state, "new place", "1.1.1.1", now - 30 * SECOND);
    reserve(&mut state, "future place", "1.1.1.1", now + SECOND);
    reserve(&mut state, "connected", "1.1.1.1", 0);
    reserve(&mut state, "connecting", "1.1.1.1", 0);
    reserve(&mut state, "failed", "1.1.1.1", now);
    state.attach("connected", PeerConnectionState::Connected);
    state.attach("connecting", PeerConnectionState::Connecting);
    state.attach("failed", PeerConnectionState::Failed);

    let removed = state.periodic_cleanup(now, |pc: &PeerConnectionState| *pc);
    let mut ids: Vec<String> = removed.into_iter().map(|(id, _)| id).collect();
    ids.sort();
    assert_eq!(ids, ["connecting", "failed", "old place"]);
    assert_eq!(state.health_check(now).total_connections, 3);
    for id in ["new place", "future place", "connected"] {
        assert!(state.cleanup_connection(id).is_some(), "{}", id);
    }
    assert!(state.periodic_cleanup(now, |pc: &PeerConnectionState| *pc).is_empty());
}

#[test]
fn table_replaces_an_entry_with_the_same_identifier() {
    let entry = |ip: &str, pc: Option<u8>| ConnectionMetadata {
        peer_connection: pc,
        created_at: 1,
        client_ip: ip.to_string(),
        data_channel_count: share(ChannelCounter::new()),
    };
    let mut table: Connections<u8> = Connections::new();
    table.insert("a".to_string(), entry("1.1.1.1", None));
    table.insert("b".to_string(), entry("1.1.1.1", None));
    table.insert("a".to_string(), entry("2.2.2.2", Some(9)));
    assert_eq!(table.len(), 2);
    assert_eq!(table.count_ip("1.1.1.1"), 1);
    assert_eq!(table.count_ip("2.2.2.2"), 1);
    assert_eq!(table.count_ip("3.3.3.3"), 0);
    assert_eq!(table.remove("a").unwrap().peer_connection, Some(9));
    assert!(table.remove("a").is_none());
    assert_eq!(table.len(), 1);
}

#[test]
fn limits_hold_through_many_operations() {
    let mut state = server(4, 2);
    let ips = ["1.1.1.1", "2.2.2.2", "3.3.3.3"];
    for round in 0..60usize {
        let id = format!("c{}", round % 7);
        let _ = reserve(&mut state, &id, ips[round % 3], round as u128);
        if round % 5 == 0 {
            state.cleanup_connection(&format!("c{}", (round / 5) % 7));
        }
        assert!(state.health_check(0).total_connections <= 4);
    }
}
