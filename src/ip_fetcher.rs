use vstd::prelude::*;

pub mod httpbin;
pub mod ifconfig_io;

verus! {

/// A public IP address, as its numeric parts: four octets for IPv4, eight
/// 16-bit segments for IPv6.
#[derive(Clone, Copy, Debug, PartialEq, Eq, Structural)]
pub enum IpAddress {
    V4(u8, u8, u8, u8),
    V6(u16, u16, u16, u16, u16, u16, u16, u16),
}

} // verus!
