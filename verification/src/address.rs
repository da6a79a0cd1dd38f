//! IPv4 endpoints and the transport's wire record of them.
use vstd::prelude::*;
use crate::Error;

verus! {

/// The transport's record of an address: the four bytes of the host as they lie
/// in the record, which is network order, and the port.
#[derive(Clone, Copy, Debug, PartialEq, Eq)]
pub struct WireAddress {
    /// The bytes of the host, first octet first.
    pub host: [u8; 4],
    /// The port.
    pub port: u16,
}

/// An IPv4 address that can be used with the transport.
#[derive(Clone, Copy, Debug, PartialEq, Eq)]
pub struct Address {
    ip: [u8; 4],
    port: u16,
}

impl Address {
    /// The four octets of the address.
    pub closed spec fn spec_ip(&self) -> [u8; 4] {
        self.ip
    }

    /// The port of the address.
    pub closed spec fn spec_port(&self) -> u16 {
        self.port
    }

    /// The wire record of this address. The octets are already in the order of
    /// the record, so none is moved.
    pub open spec fn wire(&self) -> WireAddress {
        WireAddress { host: self.spec_ip(), port: self.spec_port() }
    }

    /// The address that a wire record stands for.
    pub closed spec fn of_wire(wire: WireAddress) -> Address {
        Address { ip: wire.host, port: wire.port }
    }

    /// Create a new address from an ip and a port.
    pub fn new(ip: [u8; 4], port: u16) -> (a: Address)
        ensures
            a.spec_ip() == ip,
            a.spec_port() == port,
    {
        Address { ip, port }
    }

    /// Create an address from the transport's answer to the lookup of a
    /// hostname: the status of the lookup, and the record that it filled in.
    ///
    /// A lookup that failed gives its status as the error.
    pub fn from_hostname(status: i32, resolved: &WireAddress) -> (r: Result<Address, Error>)
        ensures
            status == 0 ==> r == Ok::<Address, Error>(Address::of_wire(*resolved)),
            status != 0 ==> r == Err::<Address, Error>(Error(status)),
    {
        if status != 0 {
            return Err(Error(status));
        }
        Ok(Self::from_enet_address(resolved))
    }

    /// Return the ip of this address.
    pub fn ip(&self) -> (ip: &[u8; 4])
        ensures
            *ip == self.spec_ip(),
    {
        &self.ip
    }

    /// Returns the port of this address.
    pub fn port(&self) -> (port: u16)
        ensures
            port == self.spec_port(),
    {
        self.port
    }

    /// The wire record of this address.
    pub fn to_enet_address(&self) -> (wire: WireAddress)
        ensures
            wire == self.wire(),
    {
        WireAddress { host: self.ip, port: self.port }
    }

    /// The address that a wire record stands for.
    pub fn from_enet_address(wire: &WireAddress) -> (a: Address)
        ensures
            a == Address::of_wire(*wire),
    {
        Address::new(wire.host, wire.port)
    }
}

/// The address that a wire record stands for has the octets of the record's
/// host, in their order, and its port.
pub proof fn lemma_of_wire_parts(wire: WireAddress)
    ensures
        Address::of_wire(wire).spec_ip() == wire.host,
        Address::of_wire(wire).spec_port() == wire.port,
        Address::of_wire(wire).wire() == wire,
{
}

/// An address survives the way through its wire record: the address that the
/// record stands for is the one it was made of.
pub proof fn lemma_wire_round_trip(addr: Address)
    ensures
        Address::of_wire(addr.wire()) == addr,
{
}

} // verus!
