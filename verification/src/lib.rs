//! A client of the local API of a UniFi network controller, without the
//! network.
//!
//! The library says which request an operation sends and what the
//! controller's reply to it means; sending and receiving is left to the
//! caller. For each operation `Client` has a method that builds the
//! `Request` and one that reads the `Reply`. What each of them returns is
//! stated over the mathematical values of requests, replies and JSON
//! documents, and proved.

pub mod api;
pub mod clients;
pub mod config;
pub mod devices;
pub mod dns;
pub mod error;
pub mod firewall;
pub mod http;
pub mod internet;
pub mod json;
pub mod networks;
pub mod security;
pub mod text;
pub mod vpn;
pub mod wifi;
