//! Addresses as plain numbers, and who may talk to what.

use vstd::prelude::*;

verus! {

/// An IP address; the first byte on the wire is the most significant.
#[derive(Clone, Copy, PartialEq, Eq, Structural)]
pub enum IpAddress {
    V4(u32),
    V6(u128),
}

impl IpAddress {
    /// In `127.0.0.0/8`, or `::1`.
    pub open spec fn loopback(self) -> bool {
        match self {
            IpAddress::V4(bits) => 0x7f00_0000 <= bits <= 0x7fff_ffff,
            IpAddress::V6(bits) => bits == 1,
        }
    }

    /// The address of the same family that stands for all interfaces.
    pub open spec fn any(self) -> IpAddress {
        match self {
            IpAddress::V4(_) => IpAddress::V4(0),
            IpAddress::V6(_) => IpAddress::V6(0),
        }
    }

    /// Whether the address is of this machine only.
    pub fn is_loopback(&self) -> (r: bool)
        ensures
            r == self.loopback(),
    {
        match self {
            IpAddress::V4(bits) => 0x7f00_0000 <= *bits && *bits <= 0x7fff_ffff,
            IpAddress::V6(bits) => *bits == 1,
        }
    }

    /// Where to bind a socket that talks to this address; the port is left to the system.
    pub fn bind_address(&self) -> (r: IpAddress)
        ensures
            r == self.any(),
    {
        match self {
            IpAddress::V4(_) => IpAddress::V4(0),
            IpAddress::V6(_) => IpAddress::V6(0),
        }
    }
}

/// Whether a request to the admin page is served.
#[derive(Clone, Copy, PartialEq, Eq, Structural)]
pub enum Access {
    Granted,
    Forbidden,
}

/// The admin page is for this machine only.
pub fn require_loopback(peer: IpAddress) -> (r: Access)
    ensures
        r == (if peer.loopback() {
            Access::Granted
        } else {
            Access::Forbidden
        }),
{
    if peer.is_loopback() {
        Access::Granted
    } else {
        Access::Forbidden
    }
}

} // verus!
