//! Transport-layer decisions for a JSON-RPC server: admission and session
//! checks on WebSocket upgrades, transport configuration, server planning,
//! and boot-time self-registration with a registry.

pub mod config;
pub mod registry;
pub mod server;
pub mod text;
pub mod websocket;
