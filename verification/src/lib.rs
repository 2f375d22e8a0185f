//! The decisions of a WebRTC packet loss test server.
//!
//! The server takes a client's offer, negotiates a connection, and sends back the packets
//! that the client puts on its data channels, each with a count. This crate says what is
//! to be done and when: which settings are accepted ([`settings`]), which offers are taken
//! up ([`offer`]) and how a negotiation goes on ([`negotiation`]), which connections are
//! kept ([`state`]), and what is sent back, on data channels ([`channel`]) and to STUN
//! requests ([`stun`]). It does no input or output of its own.

pub mod channel;
pub mod client;
pub mod config;
pub mod connections;
pub mod envfile;
pub mod negotiation;
pub mod offer;
pub mod rejection;
pub mod report;
pub mod settings;
pub mod state;
pub mod stun;
pub mod text;
pub mod transport;

pub use channel::{ChannelAdmission, ChannelCounter, MessageReply, PacketCounter, PingMessage};
pub use channel::{SharedCounter, MAX_DATA_CHANNELS_PER_PC, MAX_MESSAGE_SIZE};
pub use client::client_ip;
pub use config::{ensure_config_file, EnvVars, NewFile, PlatformMode, ServerConfig};
pub use config::{CONFIG_FILE, CONFIG_FILE_MODE, DEFAULT_CONFIG_TEMPLATE, DEFAULT_PLATFORM_MODE};
pub use config::{DEFAULT_ICE_GATHERING_TIMEOUT_SECS, DEFAULT_OVERALL_REQUEST_TIMEOUT_SECS};
pub use config::{DEFAULT_MAX_CONNECTIONS, DEFAULT_MAX_CONNECTIONS_PER_IP, DEFAULT_PORT};
pub use config::{DEFAULT_PERIODIC_CLEANUP_INTERVAL_SECS, DEFAULT_STALE_CONNECTION_AGE_SECS};
pub use config::{DEFAULT_STUN_PORT, DEFAULT_STUN_URL};
pub use connections::{should_remove, ConnectionMetadata, Connections, PeerConnectionState};
pub use negotiation::{GatheringGate, GatheringOutcome, OfferAction, OfferEvent, OfferSession};
pub use negotiation::OfferStage;
pub use offer::{begin_offer, handle_offer, handle_offer_internal, AnswerResponse, OfferRequest};
pub use offer::{SdpType, SessionDescription, MAX_SDP_SIZE};
pub use rejection::{Rejection, StatusCode};
pub use report::{Remark, RemarkLevel};
pub use state::{AppState, HealthResponse};
pub use stun::{run_stun_server, StunAction, StunEvent, StunPeer, STUN_BUFFER_SIZE};
pub use text::{decimal, parse_unsigned, ParseIntError};
pub use transport::{build_webrtc_api, create_peer_connection, detect_lan_ip, wants_lan_ip};
pub use transport::{ApiSettings, IceServer, LanProbeEvent, LanProbeStep};
