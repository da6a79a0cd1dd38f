//! Packets and their transmission modes.
use vstd::prelude::*;
use crate::Error;

verus! {

/// The transport's flag for a packet that is resent until it is acknowledged.
pub const FLAG_RELIABLE: u32 = 1;

/// The transport's flag for a packet that is delivered without regard to order.
pub const FLAG_UNSEQUENCED: u32 = 2;

/// The transport's flag for a packet whose buffer the caller supplies.
pub const FLAG_NO_ALLOCATE: u32 = 4;

/// Mode that can be set when transmitting a packet.
///
/// The transport has no mode that is reliable but unsequenced.
#[derive(Copy, Clone, Debug, Hash, Eq, PartialEq, Structural)]
pub enum PacketMode {
    /// The packet will be sent unreliably but sequenced (the transport's default).
    UnreliableSequenced,
    /// The packet will be sent unreliably and unsequenced.
    UnreliableUnsequenced,
    /// The packet will be sent reliably and sequenced with other reliable packets.
    ReliableSequenced,
}

impl PacketMode {
    /// The transport flags that select this mode.
    pub open spec fn sys_flags(self) -> u32 {
        match self {
            PacketMode::UnreliableSequenced => 0,
            PacketMode::UnreliableUnsequenced => FLAG_UNSEQUENCED,
            PacketMode::ReliableSequenced => FLAG_RELIABLE,
        }
    }

    /// Returns whether this represents a reliable mode.
    pub fn is_reliable(&self) -> (r: bool)
        ensures
            r == (*self == PacketMode::ReliableSequenced),
    {
        match self {
            PacketMode::UnreliableSequenced => false,
            PacketMode::UnreliableUnsequenced => false,
            PacketMode::ReliableSequenced => true,
        }
    }

    /// Returns whether this represents a sequenced mode.
    pub fn is_sequenced(&self) -> (r: bool)
        ensures
            r == (*self != PacketMode::UnreliableUnsequenced),
    {
        match self {
            PacketMode::UnreliableSequenced => true,
            PacketMode::UnreliableUnsequenced => false,
            PacketMode::ReliableSequenced => true,
        }
    }

    /// The transport flags that select this mode.
    pub fn to_sys_flags(self) -> (flags: u32)
        ensures
            flags == self.sys_flags(),
    {
        match self {
            PacketMode::UnreliableSequenced => 0,
            PacketMode::UnreliableUnsequenced => FLAG_UNSEQUENCED,
            PacketMode::ReliableSequenced => FLAG_RELIABLE,
        }
    }
}

/// A packet that can be sent or retrieved on a connection: its bytes, and the
/// flags that the transport keeps with them.
#[derive(Debug)]
pub struct Packet {
    data: Vec<u8>,
    flags: u32,
}

/// A packet as contracts see it.
pub ghost struct PacketView {
    /// The bytes of the packet.
    pub data: Seq<u8>,
    /// The transport flags of the packet.
    pub flags: u32,
}

impl View for Packet {
    type V = PacketView;

    closed spec fn view(&self) -> PacketView {
        PacketView { data: self.data@, flags: self.flags }
    }
}

impl Packet {
    /// The flags of a packet that is created for sending in `mode`: those of the
    /// mode, and the one that lets the packet keep the caller's buffer.
    pub open spec fn outgoing_flags(mode: PacketMode) -> u32 {
        mode.sys_flags() | FLAG_NO_ALLOCATE
    }

    /// The flags that are handed to the transport to have a packet created for
    /// sending in `mode`.
    pub fn creation_flags(mode: PacketMode) -> (flags: u32)
        ensures
            flags == Self::outgoing_flags(mode),
    {
        mode.to_sys_flags() | FLAG_NO_ALLOCATE
    }

    /// Creates a new packet with the given transmission mode, out of the
    /// transport's answer to the request for one.
    ///
    /// `created` tells whether the transport created its packet over the
    /// buffer. Where it did, the data is moved into the packet without a copy.
    /// Where it created none, the creation fails with status 0, and the buffer
    /// is released here: nothing of it is left with the transport.
    pub fn new(data: Vec<u8>, mode: PacketMode, created: bool) -> (r: Result<Packet, Error>)
        ensures
            created ==> r is Ok && r.unwrap()@ == (PacketView {
                data: data@,
                flags: Self::outgoing_flags(mode),
            }),
            !created ==> r == Err::<Packet, Error>(Error(0)),
    {
        if !created {
            return Err(Error(0));
        }
        Ok(Packet { data, flags: Self::creation_flags(mode) })
    }

    /// Wraps the bytes and flags of a packet that the transport delivered.
    pub fn from_sys_packet(data: Vec<u8>, flags: u32) -> (p: Packet)
        ensures
            p@ == (PacketView { data: data@, flags }),
    {
        Packet { data, flags }
    }

    /// Gives the buffer up, with the flags under which the transport is to take
    /// it for sending.
    ///
    /// The buffer is this packet's own allocation, whether the packet was
    /// created here or delivered by the transport. So the flags are those of
    /// the packet together with the one that keeps the transport from
    /// allocating a buffer of its own.
    pub fn into_inner(self) -> (r: (Vec<u8>, u32))
        ensures
            r.0@ == self@.data,
            r.1 == self@.flags | FLAG_NO_ALLOCATE,
    {
        (self.data, self.flags | FLAG_NO_ALLOCATE)
    }

    /// Returns a reference to the bytes inside this packet.
    pub fn data(&self) -> (bytes: &[u8])
        ensures
            bytes@ == self@.data,
    {
        self.data.as_slice()
    }

    /// Returns the transport flags of this packet.
    pub fn flags(&self) -> (flags: u32)
        ensures
            flags == self@.flags,
    {
        self.flags
    }
}

/// The flags of an outgoing packet, mode by mode: every one keeps the caller's
/// buffer, and no mode is reliable and unsequenced at once. A packet that was
/// created for sending is handed to the transport under the flags it has.
pub proof fn lemma_outgoing_flags(mode: PacketMode)
    ensures
        Packet::outgoing_flags(mode) == match mode {
            PacketMode::UnreliableSequenced => 4u32,
            PacketMode::UnreliableUnsequenced => 6u32,
            PacketMode::ReliableSequenced => 5u32,
        },
        Packet::outgoing_flags(mode) | FLAG_NO_ALLOCATE == Packet::outgoing_flags(mode),
        !(mode.sys_flags() == FLAG_RELIABLE && mode.sys_flags() == FLAG_UNSEQUENCED),
{
    assert(0u32 | 4u32 == 4u32) by (bit_vector);
    assert(2u32 | 4u32 == 6u32) by (bit_vector);
    assert(1u32 | 4u32 == 5u32) by (bit_vector);
    assert(4u32 | 4u32 == 4u32) by (bit_vector);
    assert(6u32 | 4u32 == 6u32) by (bit_vector);
    assert(5u32 | 4u32 == 5u32) by (bit_vector);
}

/// Taking the buffer for sending changes no flag but the one that keeps the
/// transport from allocating: every other flag of the packet is handed on as
/// it is, and that one is set.
pub proof fn lemma_sending_flags(flags: u32)
    ensures
        (flags | FLAG_NO_ALLOCATE) & FLAG_NO_ALLOCATE == FLAG_NO_ALLOCATE,
        (flags | FLAG_NO_ALLOCATE) & !FLAG_NO_ALLOCATE == flags & !FLAG_NO_ALLOCATE,
{
    assert((flags | 4u32) & 4u32 == 4u32) by (bit_vector);
    assert((flags | 4u32) & !4u32 == flags & !4u32) by (bit_vector);
}

} // verus!
