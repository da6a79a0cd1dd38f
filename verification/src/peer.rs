//! Peer slots: the transport's record of one connection, the generation of the
//! slot, and the data that the caller attached to it.
use vstd::prelude::*;
use std::time::Duration;
use crate::address::{Address, WireAddress};
use crate::packet::Packet;
use crate::time::{duration_from_millis, duration_millis, millis_duration};
use crate::Error;

verus! {

/// The ID of a [`Peer`]: the position of its slot, and the generation that the
/// slot had when the ID was given out.
///
/// A slot is used again for later connections. Its generation moves on with
/// every completed disconnect, so an ID that was kept from before never
/// resolves to a connection that came after.
#[derive(Clone, Copy, Hash, PartialEq, Eq, Debug, Structural)]
pub struct PeerID {
    /// The position of the slot in the host's array of peers.
    pub index: isize,
    /// The generation of the slot that this ID refers to.
    pub generation: usize,
}

/// Describes the state a `Peer` is in.
#[derive(Debug, Copy, Clone, Hash, PartialEq, Eq, Structural)]
#[allow(missing_docs)]
pub enum PeerState {
    Disconnected,
    Connected,
    Connecting,
    AcknowledgingConnect,
    ConnectionPending,
    ConnectionSucceeded,
    DisconnectLater,
    Disconnecting,
    AcknowledgingDisconnect,
    Zombie,
}

impl PeerState {
    /// Whether the transport has a state with this code.
    pub open spec fn known(code: u32) -> bool {
        code <= 9
    }

    /// The state that the transport numbers `code`.
    pub open spec fn of_code(code: u32) -> PeerState
        recommends
            Self::known(code),
    {
        if code == 0 {
            PeerState::Disconnected
        } else if code == 1 {
            PeerState::Connecting
        } else if code == 2 {
            PeerState::AcknowledgingConnect
        } else if code == 3 {
            PeerState::ConnectionPending
        } else if code == 4 {
            PeerState::ConnectionSucceeded
        } else if code == 5 {
            PeerState::Connected
        } else if code == 6 {
            PeerState::DisconnectLater
        } else if code == 7 {
            PeerState::Disconnecting
        } else if code == 8 {
            PeerState::AcknowledgingDisconnect
        } else {
            PeerState::Zombie
        }
    }

    /// The code by which the transport numbers this state.
    pub open spec fn code(self) -> u32 {
        match self {
            PeerState::Disconnected => 0,
            PeerState::Connecting => 1,
            PeerState::AcknowledgingConnect => 2,
            PeerState::ConnectionPending => 3,
            PeerState::ConnectionSucceeded => 4,
            PeerState::Connected => 5,
            PeerState::DisconnectLater => 6,
            PeerState::Disconnecting => 7,
            PeerState::AcknowledgingDisconnect => 8,
            PeerState::Zombie => 9,
        }
    }

    /// Tells whether the transport has a state with this code.
    pub fn is_known(code: u32) -> (b: bool)
        ensures
            b == Self::known(code),
    {
        code <= 9
    }

    /// Reads a state code of the transport. A code that the transport does not
    /// have means that the two sides no longer agree, and is not accepted.
    pub fn from_sys_state(code: u32) -> (state: PeerState)
        requires
            Self::known(code),
        ensures
            state == Self::of_code(code),
            state.code() == code,
    {
        match code {
            0 => PeerState::Disconnected,
            1 => PeerState::Connecting,
            2 => PeerState::AcknowledgingConnect,
            3 => PeerState::ConnectionPending,
            4 => PeerState::ConnectionSucceeded,
            5 => PeerState::Connected,
            6 => PeerState::DisconnectLater,
            7 => PeerState::Disconnecting,
            8 => PeerState::AcknowledgingDisconnect,
            _ => PeerState::Zombie,
        }
    }
}

/// Every state has a known code, and reading that code gives the state back.
pub proof fn lemma_state_code_round_trip(state: PeerState)
    ensures
        PeerState::known(state.code()),
        PeerState::of_code(state.code()) == state,
{
}

/// What the transport keeps about one peer, as plain values.
#[derive(Debug, Clone, Copy, PartialEq, Eq)]
pub struct RawPeer {
    /// The address of the remote side.
    pub address: WireAddress,
    /// The number of channels allocated for the connection.
    pub channel_count: usize,
    /// Downstream bandwidth in bytes/second.
    pub incoming_bandwidth: u32,
    /// Upstream bandwidth in bytes/second.
    pub outgoing_bandwidth: u32,
    /// Mean round trip time in milliseconds.
    pub round_trip_time: u32,
    /// The position in the connection state machine.
    pub state: PeerState,
}

impl RawPeer {
    /// The record of a slot that no connection has used yet.
    pub open spec fn idle() -> RawPeer {
        RawPeer {
            address: WireAddress { host: [0u8, 0u8, 0u8, 0u8], port: 0 },
            channel_count: 0,
            incoming_bandwidth: 0,
            outgoing_bandwidth: 0,
            round_trip_time: 0,
            state: PeerState::Disconnected,
        }
    }

    /// The record of a slot that no connection has used yet.
    pub fn new() -> (raw: RawPeer)
        ensures
            raw == Self::idle(),
    {
        RawPeer {
            address: WireAddress { host: [0u8, 0u8, 0u8, 0u8], port: 0 },
            channel_count: 0,
            incoming_bandwidth: 0,
            outgoing_bandwidth: 0,
            round_trip_time: 0,
            state: PeerState::Disconnected,
        }
    }
}

/// What a slot carries besides the transport's record. It is created when it is
/// first written to, and starts at generation 0 with no data.
#[derive(Debug)]
struct PeerData<T> {
    peer_generation: usize,
    user_data: Option<T>,
}

/// This struct represents an endpoint in a connection.
///
/// A `Peer` is owned by the `Host` it is returned from. Peers are always
/// borrowed; to keep a reference to one, keep its [`PeerID`].
///
/// Arbitrary data can be associated with each peer. Its type is chosen through `T`.
#[derive(Debug)]
pub struct Peer<T> {
    inner: RawPeer,
    data: Option<PeerData<T>>,
}

/// A peer as contracts see it.
pub ghost struct PeerView<T> {
    /// The transport's record of the peer.
    pub record: RawPeer,
    /// The generation of the slot.
    pub generation: usize,
    /// The data that the caller attached.
    pub data: Option<T>,
}

impl<T> PeerView<T> {
    /// The slot after one completed disconnect: its generation has moved on by
    /// one and the attached data is gone. The transport's record is untouched.
    pub open spec fn disconnected(self) -> PeerView<T>
        recommends
            self.generation < usize::MAX,
    {
        PeerView { record: self.record, generation: (self.generation + 1) as usize, data: None }
    }

    /// The slot after `n` completed disconnects.
    pub open spec fn after_disconnects(self, n: nat) -> PeerView<T>
        decreases n,
    {
        if n == 0 {
            self
        } else {
            self.after_disconnects((n - 1) as nat).disconnected()
        }
    }
}

impl<T> View for Peer<T> {
    type V = PeerView<T>;

    closed spec fn view(&self) -> PeerView<T> {
        PeerView {
            record: self.inner,
            generation: match self.data {
                Some(d) => d.peer_generation,
                None => 0,
            },
            data: match self.data {
                Some(d) => d.user_data,
                None => None,
            },
        }
    }
}

/// A packet received directly from a `Peer`.
///
/// Contains the received packet as well as the channel on which it was
/// received.
#[derive(Debug)]
pub struct PeerPacket {
    /// The packet that was received.
    pub packet: Packet,
    /// The channel on which the packet was received.
    pub channel_id: u8,
}

impl<T> Peer<T> {
    /// A slot that no connection has used yet, with the transport's record of it.
    pub(crate) fn new(inner: RawPeer) -> (peer: Peer<T>)
        ensures
            peer@ == (PeerView::<T> { record: inner, generation: 0, data: None }),
    {
        Peer { inner, data: None }
    }

    /// Takes over what the transport now says of this peer. The generation and
    /// the attached data are not the transport's, and stay.
    pub fn sync(&mut self, inner: RawPeer)
        ensures
            final(self)@ == (PeerView { record: inner, ..old(self)@ }),
    {
        self.inner = inner;
    }

    /// Returns the address of this `Peer`.
    pub fn address(&self) -> (a: Address)
        ensures
            a == Address::of_wire(self@.record.address),
    {
        Address::from_enet_address(&self.inner.address)
    }

    /// Returns the amount of channels allocated for this `Peer`.
    pub fn channel_count(&self) -> (n: usize)
        ensures
            n == self@.record.channel_count,
    {
        self.inner.channel_count
    }

    /// The slot's own block, if it exists yet.
    fn raw_data(&self) -> (r: Option<&PeerData<T>>)
        ensures
            match r {
                Some(d) => self.data == Some(*d),
                None => self.data is None,
            },
        opens_invariants none
        no_unwind
    {
        match &self.data {
            Some(peer_data) => Some(peer_data),
            None => None,
        }
    }

    /// The slot's own block, created first if it does not exist.
    fn raw_data_mut(&mut self) -> (r: &mut PeerData<T>)
        ensures
            r.peer_generation == old(self)@.generation,
            r.user_data == old(self)@.data,
            final(self).inner == old(self).inner,
            final(self).data == Some(*final(r)),
    {
        if self.data.is_none() {
            self.data = Some(PeerData { peer_generation: 0, user_data: None });
        }
        self.data.as_mut().unwrap()
    }

    /// The generation of this slot: 0 until the first disconnect completes.
    pub fn generation(&self) -> (g: usize)
        ensures
            g == self@.generation,
        opens_invariants none
        no_unwind
    {
        match self.raw_data() {
            Some(peer_data) => peer_data.peer_generation,
            None => 0,
        }
    }

    /// This will do all necessary cleanup after a Peer has been disconnected:
    /// the generation moves on by one, and the data associated with this peer
    /// is dropped.
    pub(crate) fn cleanup_after_disconnect(&mut self)
        requires
            old(self)@.generation < usize::MAX,
        ensures
            final(self)@ == old(self)@.disconnected(),
        opens_invariants none
        no_unwind
    {
        let generation = self.generation();
        self.data = Some(PeerData { peer_generation: generation + 1, user_data: None });
    }

    /// Drops the data that is attached to this peer. The generation of the
    /// slot stays, so that the IDs that were given out keep their meaning.
    pub(crate) fn drop_raw_data(&mut self)
        ensures
            final(self)@ == (PeerView { data: None, ..old(self)@ }),
        opens_invariants none
        no_unwind
    {
        let generation = self.generation();
        self.data = Some(PeerData { peer_generation: generation, user_data: None });
    }

    /// Returns a reference to the data associated with this `Peer`, if set.
    pub fn data(&self) -> (r: Option<&T>)
        ensures
            match r {
                Some(d) => self@.data == Some(*d),
                None => self@.data is None,
            },
    {
        match self.raw_data() {
            Some(peer_data) => peer_data.user_data.as_ref(),
            None => None,
        }
    }

    /// Returns a mutable reference to the data associated with this `Peer`, if set.
    pub fn data_mut(&mut self) -> (r: Option<&mut T>)
        ensures
            match r {
                Some(d) => old(self)@.data == Some(*d) && final(self)@ == (PeerView {
                    data: Some(*final(d)),
                    ..old(self)@
                }),
                None => old(self)@.data is None && final(self)@ == old(self)@,
            },
    {
        self.raw_data_mut().user_data.as_mut()
    }

    /// Sets the data associated with this `Peer`, replacing existing data.
    ///
    /// To clear the data associated with this Peer, use `take_data` instead.
    pub fn set_data(&mut self, data: T)
        ensures
            final(self)@ == (PeerView { data: Some(data), ..old(self)@ }),
    {
        self.raw_data_mut().user_data = Some(data);
    }

    /// Take the data associated with this `Peer` out of it.
    /// No more data will be associated with this Peer after this call.
    pub fn take_data(&mut self) -> (taken: Option<T>)
        ensures
            taken == old(self)@.data,
            final(self)@ == (PeerView { data: None, ..old(self)@ }),
    {
        self.raw_data_mut().user_data.take()
    }

    /// Returns the downstream bandwidth of this `Peer` in bytes/second.
    pub fn incoming_bandwidth(&self) -> (b: u32)
        ensures
            b == self@.record.incoming_bandwidth,
    {
        self.inner.incoming_bandwidth
    }

    /// Returns the upstream bandwidth of this `Peer` in bytes/second.
    pub fn outgoing_bandwidth(&self) -> (b: u32)
        ensures
            b == self@.record.outgoing_bandwidth,
    {
        self.inner.outgoing_bandwidth
    }

    /// Returns the mean round trip time between sending a reliable packet and
    /// receiving its acknowledgement.
    pub fn mean_rtt(&self) -> (d: Duration)
        ensures
            d == millis_duration(self@.record.round_trip_time as u64),
            duration_millis(d) == self@.record.round_trip_time,
    {
        duration_from_millis(self.inner.round_trip_time as u64)
    }

    /// Returns the state this `Peer` is in.
    pub fn state(&self) -> (s: PeerState)
        ensures
            s == self@.record.state,
    {
        self.inner.state
    }

    /// What queueing a packet on this peer came to, from the status that the
    /// transport returned: success for zero, the status as error if negative.
    /// The transport returns no positive status.
    pub fn send_packet(&self, status: i32) -> (r: Result<(), Error>)
        requires
            status <= 0,
        ensures
            r == Error::outcome(status),
    {
        Error::check(status)
    }

    /// Completes an immediate disconnect. The transport sends no `Disconnect`
    /// event for it, so the slot is cleaned up here: any `PeerID` that refers
    /// to this `Peer` is invalid afterwards, and the attached data is dropped.
    pub fn disconnect_now(&mut self)
        requires
            old(self)@.generation < usize::MAX,
        ensures
            final(self)@ == old(self)@.disconnected(),
    {
        self.cleanup_after_disconnect();
    }

    /// What dequeuing an incoming packet from this peer came to: the packet and
    /// the channel it arrived on, if the transport had one.
    pub fn receive(&mut self, dequeued: Option<(Packet, u8)>) -> (r: Option<PeerPacket>)
        ensures
            final(self)@ == old(self)@,
            match dequeued {
                Some((packet, channel_id)) => r == Some(PeerPacket { packet, channel_id }),
                None => r is None,
            },
    {
        match dequeued {
            Some((packet, channel_id)) => Some(PeerPacket { packet, channel_id }),
            None => None,
        }
    }
}

/// After `n` completed disconnects the generation of a slot is the one it
/// started with plus `n`, no data is attached if there was at least one, and
/// the transport's record is as it was.
pub proof fn lemma_generation_after_disconnects<T>(slot: PeerView<T>, n: nat)
    requires
        slot.generation + n <= usize::MAX,
    ensures
        slot.after_disconnects(n).generation == slot.generation + n,
        slot.after_disconnects(n).record == slot.record,
        n > 0 ==> slot.after_disconnects(n).data is None,
        n == 0 ==> slot.after_disconnects(n) == slot,
    decreases n,
{
    if n > 0 {
        lemma_generation_after_disconnects(slot, (n - 1) as nat);
    }
}

} // verus!
