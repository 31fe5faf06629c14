//! Decision logic of a VPN connection library: key handling, connection
//! states, local agent bookkeeping, route planning and network change handling.
pub mod text;
pub mod keys;
pub mod net;
pub mod local_agent;
pub mod state;
pub mod connection;
pub mod events;
pub mod local_agent_handler;
pub mod stream_io;
pub mod connection_logic;
pub mod client_settings;
pub mod config;
pub mod equality;
pub mod connection_core;
pub mod streams;
pub mod routes;
pub mod interfaces;
pub mod debouncer;
pub mod wintun;
pub mod cache;
pub mod client;
pub mod ip_text;
pub mod cookies;
