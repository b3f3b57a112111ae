//! Client library for the LIFX LAN protocol.
//!
//! The LIFX LAN protocol is a UDP-based, little-endian binary protocol used to
//! discover and control smart lighting devices on a local network. This crate
//! contains the wire-format codec (packet header and typed message payloads)
//! and the connection engine: a single-socket message dispatcher that assigns
//! sequence numbers, routes replies to awaiting requesters, and publishes
//! discovery events.

pub mod address;
pub mod client;
pub mod codec;
pub mod color;
pub mod connection;
pub mod error;
pub mod header;
pub mod label;
pub mod message;
pub mod packet;
pub mod wire;

pub use crate::address::{DeviceAddress, Endpoint, IpAddress};
pub use crate::connection::Connection;
pub use crate::error::{Error, ProtocolError};
pub use crate::header::{DeviceTarget, Header, MacAddress};
pub use crate::message::{Message, MessageType, Service};
pub use crate::packet::Packet;
