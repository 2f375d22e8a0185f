//! How the WebRTC stack is set up.

use vstd::prelude::*;
use webrtc::ice::udp_network::EphemeralUDP;

use crate::config::{ConfigView, ServerConfig};
use crate::settings::valid_config;
use crate::text::same_text;

verus! {

/// A server that helps connections to find a path, by its URLs.
#[derive(Debug, Clone)]
pub struct IceServer {
    pub urls: Vec<String>,
}

/// The URLs of some servers, as character sequences.
pub open spec fn server_urls(servers: Seq<IceServer>) -> Seq<Seq<Seq<char>>> {
    servers.map_values(|s: IceServer| s.urls@.map_values(|u: String| u@))
}

/// The URLs of the servers that a new connection uses: the STUN server, unless STUN is
/// off or the server's address is mapped anyway.
pub open spec fn ice_server_urls(config: ConfigView) -> Seq<Seq<Seq<char>>> {
    if config.stun_enabled && config.nat_1to1_ip is None {
        seq![seq![config.stun_url]]
    } else {
        seq![]
    }
}

/// The servers that a new connection uses.
pub fn create_peer_connection(config: &ServerConfig) -> (servers: Vec<IceServer>)
    ensures
        server_urls(servers@) == ice_server_urls(config@),
{
    let mut servers: Vec<IceServer> = Vec::new();
    if config.stun_enabled && config.nat_1to1_ip.is_none() {
        let mut urls: Vec<String> = Vec::new();
        urls.push(config.stun_url.clone());
        assert(urls@.map_values(|u: String| u@) =~= seq![config@.stun_url]);
        servers.push(IceServer { urls });
    }
    assert(server_urls(servers@) =~= ice_server_urls(config@));
    servers
}

/// What the WebRTC stack is told about the network.
#[derive(Debug, Clone)]
pub struct ApiSettings {
    /// Whether candidates may be named by multicast DNS.
    pub multicast_dns: bool,
    /// The addresses that stand for the server's own in its host candidates.
    pub nat_1to1_ips: Vec<String>,
    /// Whether only IPv4 addresses are gathered.
    pub ipv4_only: bool,
    /// The ports to which candidates are bound, first and last; any port where `None`.
    pub udp_ports: Option<(u16, u16)>,
}

/// The address that stands for the server's own: the one that is set, or the address of
/// the local network where the setting is the word `auto`.
pub open spec fn mapped_ip(config: ConfigView, lan_ip: Option<Seq<char>>) -> Option<Seq<char>> {
    match config.nat_1to1_ip {
        Some(ip) => if ip == "auto"@ {
            lan_ip
        } else {
            Some(ip)
        },
        None => None,
    }
}

/// An optional item as a sequence of at most one.
pub open spec fn at_most_one(item: Option<Seq<char>>) -> Seq<Seq<char>> {
    match item {
        Some(s) => seq![s],
        None => seq![],
    }
}

/// A range of ports, if it is one: a range whose last port is below its first is not.
pub open spec fn usable_ports(range: Option<(u16, u16)>) -> Option<(u16, u16)> {
    match range {
        Some((min, max)) => if min <= max {
            Some((min, max))
        } else {
            None
        },
        None => None,
    }
}

/// Calls `webrtc::ice::udp_network::EphemeralUDP::set_ports` on a default value, and
/// reads the range back with `port_min` and `port_max`. Claimed of it: a range whose
/// last port is below its first is an error, and every other range is what is read back.
#[verifier::external_body]
fn ephemeral_ports(min: u16, max: u16) -> (range: Option<(u16, u16)>)
    ensures
        range == usable_ports(Some((min, max))),
{
    let mut udp = EphemeralUDP::default();
    match udp.set_ports(min, max) {
        Ok(()) => Some((udp.port_min(), udp.port_max())),
        Err(_) => None,
    }
}

/// Tells whether the address of the local network is needed to set up the stack.
pub fn wants_lan_ip(config: &ServerConfig) -> (yes: bool)
    ensures
        yes == (config@.nat_1to1_ip == Some("auto"@)),
{
    match &config.nat_1to1_ip {
        Some(ip) => same_text(ip.as_str(), "auto"),
        None => false,
    }
}

/// How the WebRTC stack is set up. `lan_ip` is the address of the local network, where it
/// is known.
pub fn build_webrtc_api(config: &ServerConfig, lan_ip: Option<String>) -> (settings: ApiSettings)
    ensures
        !settings.multicast_dns,
        settings.nat_1to1_ips@.map_values(|ip: String| ip@) == at_most_one(
            mapped_ip(config@, lan_ip.deep_view()),
        ),
        settings.ipv4_only == (mapped_ip(config@, lan_ip.deep_view()) is Some),
        settings.udp_ports == usable_ports(config.ice_port_range),
{
    let ip: Option<String> = if wants_lan_ip(config) {
        lan_ip
    } else {
        config.nat_1to1_ip.clone()
    };
    let ipv4_only: bool = ip.is_some();
    let mut nat_1to1_ips: Vec<String> = Vec::new();
    if let Some(ip) = ip {
        nat_1to1_ips.push(ip);
    }
    assert(nat_1to1_ips@.map_values(|ip: String| ip@) =~= at_most_one(
        mapped_ip(config@, lan_ip.deep_view()),
    ));
    let udp_ports: Option<(u16, u16)> = match config.ice_port_range {
        Some((min, max)) => ephemeral_ports(min, max),
        None => None,
    };
    ApiSettings { multicast_dns: false, nat_1to1_ips, ipv4_only, udp_ports }
}

/// A connection never uses a STUN server while the server's address is mapped.
pub proof fn law_stun_or_mapping(config: ConfigView, lan_ip: Option<Seq<char>>)
    ensures
        ice_server_urls(config).len() == 0 || at_most_one(mapped_ip(config, lan_ip)).len() == 0,
{
}

/// The range of ports in a configuration that the server may run with is the range that
/// candidates are bound to.
pub proof fn law_valid_ports_are_used(config: ServerConfig)
    requires
        valid_config(config@),
    ensures
        usable_ports(config.ice_port_range) == config.ice_port_range,
{
}

/// Whatever has come of a step in finding the address of the local network.
pub enum LanProbeEvent {
    /// Nothing has been done yet.
    Started,
    /// A UDP socket was bound, or could not be.
    Bound { ok: bool },
    /// The socket was connected, or could not be.
    Connected { ok: bool },
    /// The address of the socket's own end, if it could be had.
    LocalAddress(Option<String>),
}

/// The next step in finding the address of the local network.
pub enum LanProbeStep {
    /// Bind a UDP socket to this address.
    Bind(&'static str),
    /// Connect the socket to this address, which sends nothing.
    Connect(&'static str),
    /// Read the address of the socket's own end.
    ReadLocalAddress,
    /// Done: the address, if there is one.
    Done(Option<String>),
}

/// Finds the address by which the machine reaches other networks: a socket that is
/// connected to a public address has it as its own.
pub fn detect_lan_ip(event: LanProbeEvent) -> (step: LanProbeStep)
    ensures
        match event {
            LanProbeEvent::Started => step matches LanProbeStep::Bind(a) && a@ == "0.0.0.0:0"@,
            LanProbeEvent::Bound { ok: true } => step matches LanProbeStep::Connect(a) && a@
                == "8.8.8.8:80"@,
            LanProbeEvent::Connected { ok: true } => step is ReadLocalAddress,
            LanProbeEvent::LocalAddress(ip) => step == LanProbeStep::Done(ip),
            _ => step == LanProbeStep::Done(None),
        },
{
    match event {
        LanProbeEvent::Started => LanProbeStep::Bind("0.0.0.0:0"),
        LanProbeEvent::Bound { ok } => if ok {
            LanProbeStep::Connect("8.8.8.8:80")
        } else {
            LanProbeStep::Done(None)
        },
        LanProbeEvent::Connected { ok } => if ok {
            LanProbeStep::ReadLocalAddress
        } else {
            LanProbeStep::Done(None)
        },
        LanProbeEvent::LocalAddress(ip) => LanProbeStep::Done(ip),
    }
}

/// A new connection uses the STUN server exactly where STUN is on and no address is set or
/// found for the server; otherwise it uses none.
pub proof fn law_ice_servers(config: ConfigView, servers: Seq<IceServer>)
    ensures
        config.stun_enabled && config.nat_1to1_ip is None ==> ice_server_urls(config) == seq![
            seq![config.stun_url],
        ],
        !config.stun_enabled || config.nat_1to1_ip is Some ==> ice_server_urls(config).len() == 0,
        server_urls(servers).len() == servers.len(),
        forall|i: int|
            0 <= i < servers.len() ==> (#[trigger] server_urls(servers)[i]).len()
                == servers[i].urls@.len(),
        forall|i: int, j: int|
            0 <= i < servers.len() && 0 <= j < servers[i].urls@.len()
                ==> #[trigger] server_urls(servers)[i][j] == servers[i].urls@[j]@,
{
}

/// The address that stands for the server's own is the one that is set, unless that is the
/// word `auto`, which asks for the address of the local network; none is where none is set.
pub proof fn law_mapped_address(config: ConfigView, lan_ip: Option<Seq<char>>)
    ensures
        config.nat_1to1_ip is None ==> mapped_ip(config, lan_ip) is None,
        config.nat_1to1_ip == Some("auto"@) ==> mapped_ip(config, lan_ip) == lan_ip,
        config.nat_1to1_ip matches Some(ip) ==> ip != "auto"@ ==> mapped_ip(config, lan_ip)
            == Some(ip),
        at_most_one(lan_ip).len() == (if lan_ip is Some {
            1int
        } else {
            0int
        }),
        lan_ip is Some ==> at_most_one(lan_ip)[0] == lan_ip->0,
{
}

/// A range of ports is used as it is, unless it ends before it begins.
pub proof fn law_usable_ports(min: u16, max: u16)
    ensures
        min <= max ==> usable_ports(Some((min, max))) == Some((min, max)),
        min > max ==> usable_ports(Some((min, max))) is None,
        usable_ports(None) is None,
{
}

} // verus!
