//! Addresses of LIFX devices: a UDP endpoint plus the MAC-based target
//! filter, with IP addresses held as plain values.

use vstd::prelude::*;
use crate::header::DeviceTarget;

verus! {

/// An IP address, version 4 or 6.
#[derive(Debug, Clone, Copy, PartialEq, Eq, Structural)]
pub enum IpAddress {
    /// The four octets of an IPv4 address, in textual order.
    V4(u8, u8, u8, u8),
    /// The 128 bits of an IPv6 address: high half first, each in network
    /// order.
    V6(u64, u64),
}

/// A UDP endpoint: an IP address and a port.
#[derive(Debug, Clone, Copy, PartialEq, Eq, Structural)]
pub struct Endpoint {
    pub ip: IpAddress,
    pub port: u16,
}

/// Address of a LIFX device. This includes both the UDP endpoint and the MAC
/// address-based target filter.
#[derive(Debug, Clone, Copy, PartialEq, Eq, Structural)]
pub struct DeviceAddress {
    pub service_address: Endpoint,
    pub target: DeviceTarget,
}

impl DeviceAddress {
    /// Pairs a UDP endpoint with a target filter.
    pub fn new(service_address: Endpoint, target: DeviceTarget) -> (r: DeviceAddress)
        ensures
            r == (DeviceAddress { service_address, target }),
    {
        DeviceAddress { service_address, target }
    }

    /// The broadcast address every device listens on: 255.255.255.255 on the
    /// LIFX port, targeting all devices.
    pub fn all() -> (r: DeviceAddress)
        ensures
            r == (DeviceAddress {
                service_address: Endpoint { ip: IpAddress::V4(255, 255, 255, 255), port: 56700 },
                target: DeviceTarget::All,
            }),
    {
        DeviceAddress {
            service_address: Endpoint { ip: IpAddress::V4(255, 255, 255, 255), port: 56700 },
            target: DeviceTarget::All,
        }
    }
}

} // verus!
