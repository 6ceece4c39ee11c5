//! IronVeil: a WireGuard VPN built on boringtun.
//!
//! The library holds the parts of the VPN that decide and compute: key
//! encoding, the configuration model, the route / DNS / kill-switch command
//! scripts, and the packet relay decisions of the client and the server.
//! Executing commands, touching files, sockets and TUN devices is left to
//! the programs that use it.
pub mod text;
pub mod routing;
pub mod encoding;
pub mod crypto;
pub mod keygen;
pub mod tunnel;
pub mod relay;
pub mod config;
pub mod probe;
pub mod parse;
pub mod netstate;
