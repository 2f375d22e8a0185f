# OpenPacketLoss server

A server that measures packet loss from a web browser. A client opens WebRTC data
channels that neither order nor repeat packets, and sends numbered packets on them; the
server sends each one back with its own count of what has arrived.

The decisions of the server are a library, written in Rust and proved with Verus. It does
no input or output: it takes plain values and says what is to be done. The program around
it owns the sockets, the clock, the environment and the WebRTC stack.

## Layout

| Module | What it decides |
|--------|-----------------|
| `src/config.rs` | the settings, their defaults, and the file that may hold them |
| `src/settings.rs` | what the environment asks for, and which settings are refused |
| `src/envfile.rs` | what a file of settings says, and that the default one says nothing new |
| `src/report.rs` | remarks on the settings, and the settings in words |
| `src/transport.rs` | how the WebRTC stack is set up |
| `src/client.rs` | the address by which a client is counted |
| `src/offer.rs` | which offers are taken up, and what a client is told |
| `src/negotiation.rs` | the steps from a held place to the answer |
| `src/connections.rs` | the table of connections, and which of them are due for cleanup |
| `src/state.rs` | the server as a whole, and the limits that it keeps |
| `src/channel.rs` | how many data channels a connection has, and what is sent back on them |
| `src/stun.rs` | which STUN requests are answered, and with which bytes |
| `src/rejection.rs` | how a request is turned down |
| `src/text.rs` | decimal numbers and lower case |

What holds of a module as a whole is stated by its proof functions whose names begin with
`law_`.

`tests/` runs the library on concrete values. `app/` is the program.

## What is taken on trust

Four calls leave the library, each in a function of its own whose comment says what is
claimed: `str::to_lowercase` (`text.rs`), `HeaderValue::to_str` of `axum::http`
(`client.rs`), `Uuid::new_v4` (`offer.rs`) and `EphemeralUDP::set_ports` of `webrtc`
(`transport.rs`). `std::sync::Mutex` is declared in `channel.rs`, with nothing claimed of
it.

## Settings

| Variable | Default | |
|----------|---------|-|
| `PLATFORM_MODE` | `self` | `web` for a public service, `self` for a server of one's own |
| `PORT` | `8080` | port for HTTP |
| `STUN_PORT` | `3478` | port of the built-in STUN server |
| `STUN_URL` | `auto` | `auto`, a `stun:`, `turn:` or `turns:` URL, or `none` |
| `NAT_1TO1_IP` | | address that stands for the server's own; found out where empty |
| `MAX_CONNECTIONS` | `500` | connections in all |
| `MAX_CONNECTIONS_PER_IP` | `10` | connections from one address |
| `ICE_PORT_MIN`, `ICE_PORT_MAX` | | range of UDP ports for candidates |
| `ICE_GATHERING_TIMEOUT_SECS` | `2` | time for gathering candidates |
| `OVERALL_REQUEST_TIMEOUT_SECS` | `30` | time for a whole request |
| `STALE_CONNECTION_AGE_SECS` | `120` | age at which connections are cleaned up |
| `PERIODIC_CLEANUP_INTERVAL_SECS` | `5` | time between two cleanups |
| `RUST_LOG` | `info` | what is logged |

On its first run the server writes these defaults to `.env`.
