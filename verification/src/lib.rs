//! The verified core of Orosu, a delivery tool: a server runs predefined
//! scripts for authenticated clients, over connections that can be encrypted
//! end to end.
//!
//! Everything that decides lives here: key handling, the encryption
//! handshake, authentication, the launch and upload protocol, the wire
//! format, configuration checks. Sockets, files, clocks and processes are the
//! application's, which performs what this crate decides.

pub mod api;
pub mod cryptography;
pub mod outside;
pub mod text;
pub mod json;
pub mod tasks;
pub mod client;
pub mod ip;
pub mod script;
pub mod server;
pub mod configuration;
pub mod server_address;
pub mod keygen;
pub mod delivery;
pub mod laws;
