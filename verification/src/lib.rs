//! Tunnels TCP and UDP traffic through WebSocket or gRPC connections.
//!
//! The crate holds every decision of the tunnel: which transport an address asks
//! for, how a tunnel is named and registered, what opens it, and what each relay
//! loop does on each event. Sockets, timers and streams are the caller's: it
//! performs the action that a step returns and hands the outcome back as the next
//! event.
//!
//! - `endpoint`, `resolve`, `ipv4`: where a client connects to.
//! - `tunnel_id`, `registry`: the names of tunnels and the server's book of them.
//! - `client_connection`, `server_connection`, `grpc_service`: how a tunnel is
//!   opened.
//! - `ws_proxy`, `grpc_proxy`: the relays between a connection and a socket.
//! - `udp_client`, `grpc_udp_client`: the client's ends of UDP tunnels.

pub mod client_connection;
pub mod config;
pub mod endpoint;
pub mod grpc_proxy;
pub mod grpc_service;
pub mod grpc_udp_client;
pub mod ipv4;
pub mod message;
pub mod registry;
pub mod resolve;
pub mod server_connection;
pub mod text;
pub mod tunnel_id;
pub mod udp_client;
pub mod ws_proxy;
