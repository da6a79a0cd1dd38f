//! The host: one local endpoint, its limits, and its fixed array of peer slots.
use vstd::prelude::*;
use std::time::Duration;
use crate::address::{Address, WireAddress};
use crate::event::{Event, RawEvent};
use crate::peer::{lemma_generation_after_disconnects, Peer, PeerID, PeerView, RawPeer};
use crate::time::{duration_as_millis, duration_millis};
use crate::Error;

verus! {

/// The largest number of channels that the transport gives one connection.
pub const MAXIMUM_CHANNEL_COUNT: usize = 255;

/// Represents a bandwidth limit or unlimited.
#[derive(Debug, Clone, Copy, PartialEq, Eq, Hash, Structural)]
pub enum BandwidthLimit {
    /// No limit on bandwidth
    Unlimited,
    /// Bandwidth limit in bytes/second
    Limited(u32),
}

/// Represents a channel limit or unlimited.
#[derive(Debug, Clone, Copy, PartialEq, Eq, Hash, Structural)]
pub enum ChannelLimit {
    /// Maximum limit on the number of channels
    Maximum,
    /// Channel limit
    Limited(usize),
}

impl ChannelLimit {
    /// The value that asks the transport for this limit: 0 for the maximum.
    pub open spec fn enet_val(self) -> usize {
        match self {
            ChannelLimit::Maximum => 0,
            ChannelLimit::Limited(l) => l,
        }
    }

    /// The limit that the transport reports as `enet_val`. It reports the
    /// maximum as the largest channel count, and never 0.
    pub open spec fn of_enet_val(enet_val: usize) -> ChannelLimit
        recommends
            enet_val != 0,
    {
        if enet_val == MAXIMUM_CHANNEL_COUNT {
            ChannelLimit::Maximum
        } else {
            ChannelLimit::Limited(enet_val)
        }
    }

    /// The number of channels that the transport grants where it is asked for
    /// this limit: the largest channel count for the maximum and for anything
    /// above it.
    pub open spec fn granted(self) -> usize {
        if self.enet_val() == 0 || self.enet_val() > MAXIMUM_CHANNEL_COUNT {
            MAXIMUM_CHANNEL_COUNT
        } else {
            self.enet_val()
        }
    }

    /// The value that asks the transport for this limit.
    pub fn to_enet_val(self) -> (v: usize)
        ensures
            v == self.enet_val(),
    {
        match self {
            ChannelLimit::Maximum => 0,
            ChannelLimit::Limited(l) => l,
        }
    }

    /// The limit that the transport reports as `enet_val`, which is not 0.
    pub fn from_enet_val(enet_val: usize) -> (limit: ChannelLimit)
        requires
            enet_val != 0,
        ensures
            limit == Self::of_enet_val(enet_val),
    {
        if enet_val == MAXIMUM_CHANNEL_COUNT {
            ChannelLimit::Maximum
        } else {
            ChannelLimit::Limited(enet_val)
        }
    }
}

impl BandwidthLimit {
    /// The value that asks the transport for this limit: 0 for none.
    pub open spec fn enet_u32(self) -> u32 {
        match self {
            BandwidthLimit::Unlimited => 0,
            BandwidthLimit::Limited(l) => l,
        }
    }

    /// The value that asks the transport for this limit.
    pub fn to_enet_u32(self) -> (v: u32)
        ensures
            v == self.enet_u32(),
    {
        match self {
            BandwidthLimit::Unlimited => 0,
            BandwidthLimit::Limited(l) => l,
        }
    }
}

/// The timeout that is handed to the transport's service routine, which counts
/// milliseconds in 32 bits: the whole milliseconds of `timeout`, of which the
/// low 32 bits are kept. A timeout under one millisecond makes the routine
/// return at once.
pub fn service_timeout(timeout: &Duration) -> (millis: u32)
    ensures
        millis == duration_millis(*timeout) % 0x1_0000_0000,
{
    let whole: u128 = duration_as_millis(timeout);
    let low: u128 = whole & 0xffff_ffff;
    assert(whole & 0xffff_ffff == whole % 0x1_0000_0000) by (bit_vector);
    low as u32
}

/// What the transport keeps about a host, as plain values.
#[derive(Debug, Clone, Copy, PartialEq, Eq)]
pub struct RawHost {
    /// The address that the host is bound to.
    pub address: WireAddress,
    /// The limit of channels per connected peer.
    pub channel_limit: ChannelLimit,
    /// Downstream bandwidth in bytes/second.
    pub incoming_bandwidth: u32,
    /// Upstream bandwidth in bytes/second.
    pub outgoing_bandwidth: u32,
}

/// A `Host` represents one endpoint of a connection. Created through `Enet`.
///
/// It owns the peer slots. Their number is fixed when the host is created, and
/// a slot is used again when its connection has ended.
pub struct Host<T> {
    inner: RawHost,
    peers: Vec<Peer<T>>,
}

impl<T> Host<T> {
    /// The transport's record of the host.
    pub closed spec fn record(&self) -> RawHost {
        self.inner
    }

    /// The peer slots, in their order.
    pub closed spec fn slots(&self) -> Seq<Peer<T>> {
        self.peers@
    }

    /// Whether `index` is the position of a slot.
    pub open spec fn has_slot(&self, index: int) -> bool {
        0 <= index < self.slots().len()
    }

    /// Whether `id` refers to a live peer: its slot exists, and the slot is
    /// still in the generation that the ID was given out for.
    pub open spec fn resolves(&self, id: PeerID) -> bool {
        self.has_slot(id.index as int) && self.slots()[id.index as int]@.generation
            == id.generation
    }

    /// The ID that now refers to the slot at `index`.
    pub open spec fn id_of(&self, index: isize) -> PeerID
        recommends
            self.has_slot(index as int),
    {
        PeerID { index, generation: self.slots()[index as int]@.generation }
    }

    /// A host as the transport created it, with `peer_count` slots that no
    /// connection has used yet.
    pub(crate) fn new(inner: RawHost, peer_count: usize) -> (host: Host<T>)
        ensures
            host.record() == inner,
            host.slots().len() == peer_count,
            forall|i: int|
                0 <= i < peer_count ==> (#[trigger] host.slots()[i])@ == (PeerView::<T> {
                    record: RawPeer::idle(),
                    generation: 0,
                    data: None,
                }),
    {
        let mut peers: Vec<Peer<T>> = Vec::new();
        let mut i: usize = 0;
        while i < peer_count
            invariant
                i <= peer_count,
                peers@.len() == i,
                forall|j: int|
                    0 <= j < i ==> (#[trigger] peers@[j])@ == (PeerView::<T> {
                        record: RawPeer::idle(),
                        generation: 0,
                        data: None,
                    }),
            decreases peer_count - i,
        {
            peers.push(Peer::new(RawPeer::new()));
            i = i + 1;
        }
        Host { inner, peers }
    }

    /// Takes over what the transport now says of the host.
    pub fn sync(&mut self, inner: RawHost)
        ensures
            final(self).record() == inner,
            final(self).slots() == old(self).slots(),
    {
        self.inner = inner;
    }

    /// Takes over what the transport now says of the peer at `index`. The
    /// generation and the attached data of the slot stay.
    pub fn sync_peer(&mut self, index: usize, inner: RawPeer)
        requires
            old(self).has_slot(index as int),
        ensures
            final(self).record() == old(self).record(),
            final(self).slots().len() == old(self).slots().len(),
            final(self).slots()[index as int]@ == (PeerView {
                record: inner,
                ..old(self).slots()[index as int]@
            }),
            forall|j: int|
                0 <= j < old(self).slots().len() && j != index
                    ==> final(self).slots()[j] == old(self).slots()[j],
    {
        self.peers[index].sync(inner);
    }

    /// Sets the bandwith limits for this `Host`, as the transport does when it
    /// is handed them.
    pub fn set_bandwith_limits(
        &mut self,
        incoming_bandwith: BandwidthLimit,
        outgoing_bandwidth: BandwidthLimit,
    )
        ensures
            final(self).record() == (RawHost {
                incoming_bandwidth: incoming_bandwith.enet_u32(),
                outgoing_bandwidth: outgoing_bandwidth.enet_u32(),
                ..old(self).record()
            }),
            final(self).slots() == old(self).slots(),
    {
        self.inner.incoming_bandwidth = incoming_bandwith.to_enet_u32();
        self.inner.outgoing_bandwidth = outgoing_bandwidth.to_enet_u32();
    }

    /// Sets the maximum allowed channels of future connections, as the
    /// transport does when it is handed the limit: a limit of more channels
    /// than it has is the maximum.
    pub fn set_channel_limit(&mut self, max_channel_count: ChannelLimit)
        ensures
            final(self).record() == (RawHost {
                channel_limit: ChannelLimit::of_enet_val(max_channel_count.granted()),
                ..old(self).record()
            }),
            final(self).slots() == old(self).slots(),
    {
        let asked = max_channel_count.to_enet_val();
        if asked == 0 || asked > MAXIMUM_CHANNEL_COUNT {
            self.inner.channel_limit = ChannelLimit::Maximum;
        } else {
            self.inner.channel_limit = ChannelLimit::from_enet_val(asked);
        }
    }

    /// Returns the limit of channels per connected peer for this `Host`.
    pub fn channel_limit(&self) -> (limit: ChannelLimit)
        ensures
            limit == self.record().channel_limit,
    {
        self.inner.channel_limit
    }

    /// Returns the downstream bandwidth of this `Host` in bytes/second.
    pub fn incoming_bandwidth(&self) -> (b: u32)
        ensures
            b == self.record().incoming_bandwidth,
    {
        self.inner.incoming_bandwidth
    }

    /// Returns the upstream bandwidth of this `Host` in bytes/second.
    pub fn outgoing_bandwidth(&self) -> (b: u32)
        ensures
            b == self.record().outgoing_bandwidth,
    {
        self.inner.outgoing_bandwidth
    }

    /// Returns the internet address of this `Host`.
    pub fn address(&self) -> (a: Address)
        ensures
            a == Address::of_wire(self.record().address),
    {
        Address::from_enet_address(&self.inner.address)
    }

    /// Returns the number of peers allocated for this `Host`.
    pub fn peer_count(&self) -> (n: usize)
        ensures
            n == self.slots().len(),
    {
        self.peers.len()
    }

    /// Tells whether `index` is the position of a slot of this host.
    pub fn has_peer_index(&self, index: isize) -> (b: bool)
        ensures
            b == self.has_slot(index as int),
    {
        index >= 0 && (index as usize) < self.peers.len()
    }

    /// Returns a mutable reference to a peer at the given PeerID, None if the
    /// ID is out of range or belongs to an earlier connection on its slot.
    pub fn peer_mut(&mut self, idx: PeerID) -> (r: Option<&mut Peer<T>>)
        ensures
            match r {
                Some(peer) => {
                    &&& old(self).resolves(idx)
                    &&& *peer == old(self).slots()[idx.index as int]
                    &&& final(self).slots() == old(self).slots().update(
                        idx.index as int,
                        *final(peer),
                    )
                    &&& final(self).record() == old(self).record()
                },
                None => !old(self).resolves(idx) && *final(self) == *old(self),
            },
    {
        if !self.has_peer_index(idx.index) {
            return None;
        }
        if self.peers[idx.index as usize].generation() != idx.generation {
            return None;
        }
        Some(&mut self.peers[idx.index as usize])
    }

    /// Returns a reference to a peer at the given PeerID, None if the ID is out
    /// of range or belongs to an earlier connection on its slot.
    pub fn peer(&self, idx: PeerID) -> (r: Option<&Peer<T>>)
        ensures
            match r {
                Some(peer) => self.resolves(idx) && *peer == self.slots()[idx.index as int],
                None => !self.resolves(idx),
            },
    {
        if !self.has_peer_index(idx.index) {
            return None;
        }
        let peer = &self.peers[idx.index as usize];
        if peer.generation() != idx.generation {
            return None;
        }
        Some(peer)
    }

    /// The ID that now refers to the slot at `index`.
    pub fn peer_id(&self, index: isize) -> (id: PeerID)
        requires
            self.has_slot(index as int),
        ensures
            id == self.id_of(index),
            self.resolves(id),
    {
        PeerID { index, generation: self.peers[index as usize].generation() }
    }

    /// The slot at `index`, for an event or a connection on it.
    pub(crate) fn slot_mut(&mut self, index: usize) -> (peer: &mut Peer<T>)
        requires
            old(self).has_slot(index as int),
        ensures
            *peer == old(self).slots()[index as int],
            final(self).slots() == old(self).slots().update(index as int, *final(peer)),
            final(self).record() == old(self).record(),
    {
        &mut self.peers[index]
    }

    /// Returns all peers of this `Host`, slot by slot, for changing them.
    pub fn peers_mut(&mut self) -> (peers: &mut [Peer<T>])
        ensures
            peers@ == old(self).slots(),
            final(self).slots() == final(peers)@,
            final(self).record() == old(self).record(),
    {
        self.peers.as_mut_slice()
    }

    /// Returns all peers of this `Host`, slot by slot.
    pub fn peers(&self) -> (peers: &[Peer<T>])
        ensures
            peers@ == self.slots(),
    {
        self.peers.as_slice()
    }

    fn process_event(&mut self, sys_event: RawEvent) -> (r: Option<Event<'_, T>>)
        requires
            sys_event.well_formed(old(self).slots().len()),
        ensures
            match r {
                None => !sys_event.occurred() && *final(self) == *old(self),
                Some(event) => event.delivered(
                    sys_event,
                    old(self),
                    final(self),
                    *final(event.slot().unwrap()),
                ),
            },
    {
        Event::from_sys_event(sys_event, self)
    }

    /// Delivers what a call of the transport's service routine came to: an
    /// event if one is available.
    ///
    /// `status` is what the routine returned and `sys_event` the record that it
    /// filled in. A negative status is the transport's failure. Zero means
    /// that nothing occurred within the timeout. A positive status means that
    /// the record holds an event, which is delivered.
    pub fn service(&mut self, status: i32, sys_event: RawEvent) -> (r: Result<
        Option<Event<'_, T>>,
        Error,
    >)
        requires
            status > 0 ==> sys_event.well_formed(old(self).slots().len()),
        ensures
            match r {
                Err(error) => status < 0 && error == Error(status) && *final(self) == *old(self),
                Ok(None) => (status == 0 || (status > 0 && !sys_event.occurred())) && *final(self)
                    == *old(self),
                Ok(Some(event)) => status > 0 && event.delivered(
                    sys_event,
                    old(self),
                    final(self),
                    *final(event.slot().unwrap()),
                ),
            },
    {
        if status > 0 {
            Ok(self.process_event(sys_event))
        } else if status == 0 {
            Ok(None)
        } else {
            Err(Error(status))
        }
    }

    /// Delivers what a check of the transport's queue of events came to: an
    /// event if one was queued.
    ///
    /// `status` and `sys_event` are read as in [`Host::service`].
    pub fn check_events(&mut self, status: i32, sys_event: RawEvent) -> (r: Result<
        Option<Event<'_, T>>,
        Error,
    >)
        requires
            status > 0 ==> sys_event.well_formed(old(self).slots().len()),
        ensures
            match r {
                Err(error) => status < 0 && error == Error(status) && *final(self) == *old(self),
                Ok(None) => (status == 0 || (status > 0 && !sys_event.occurred())) && *final(self)
                    == *old(self),
                Ok(Some(event)) => status > 0 && event.delivered(
                    sys_event,
                    old(self),
                    final(self),
                    *final(event.slot().unwrap()),
                ),
            },
    {
        if status > 0 {
            Ok(self.process_event(sys_event))
        } else if status == 0 {
            Ok(None)
        } else {
            Err(Error(status))
        }
    }

    /// Completes the start of a connection to a foreign host.
    ///
    /// `slot` is the position of the peer slot that the transport gave the
    /// connection, or `None` where it refused the attempt, as it does when
    /// every slot is taken. The connection will not be done until an event of
    /// kind `Connect` for the returned ID was received.
    pub fn connect(&mut self, slot: Option<isize>) -> (r: Result<PeerID, Error>)
        requires
            slot is Some ==> old(self).has_slot(slot.unwrap() as int),
        ensures
            *final(self) == *old(self),
            match slot {
                None => r == Err::<PeerID, Error>(Error(0)),
                Some(index) => {
                    &&& r == Ok::<PeerID, Error>(old(self).id_of(index))
                    &&& old(self).resolves(r.unwrap())
                },
            },
    {
        match slot {
            None => Err(Error(0)),
            Some(index) => Ok(self.peer_id(index)),
        }
    }

    /// Drops the data attached to every slot, as has to be done before the
    /// transport's host is released. The generations of the slots stay.
    pub fn drop_peer_data(&mut self)
        ensures
            final(self).record() == old(self).record(),
            final(self).slots().len() == old(self).slots().len(),
            forall|j: int|
                0 <= j < old(self).slots().len() ==> (#[trigger] final(self).slots()[j])@ == (
                PeerView { data: None, ..old(self).slots()[j]@ }),
    {
        let n = self.peers.len();
        let mut i: usize = 0;
        while i < n
            invariant
                i <= n,
                n == self.peers@.len(),
                n == old(self).peers@.len(),
                self.inner == old(self).inner,
                forall|j: int|
                    0 <= j < i ==> (#[trigger] self.peers@[j])@ == (PeerView {
                        data: None,
                        ..old(self).peers@[j]@
                    }),
                forall|j: int| i <= j < n ==> self.peers@[j] == old(self).peers@[j],
            decreases n - i,
        {
            self.peers[i].drop_raw_data();
            i = i + 1;
        }
    }
}

/// A limit that the transport can grant as it stands is the limit that the
/// host then reports.
pub proof fn lemma_channel_limit_round_trip(limit: ChannelLimit)
    requires
        limit matches ChannelLimit::Limited(l) ==> 0 < l < MAXIMUM_CHANNEL_COUNT,
    ensures
        ChannelLimit::of_enet_val(limit.granted()) == limit,
{
}

/// An ID that refers to a live peer no longer does once the slot has seen
/// a disconnect complete, however many of them: the slot's generation has moved
/// past the one that the ID was given out for.
pub proof fn lemma_stale_after_disconnects<T>(
    before: Host<T>,
    after: Host<T>,
    id: PeerID,
    n: nat,
)
    requires
        before.resolves(id),
        after.slots().len() == before.slots().len(),
        n >= 1,
        id.generation + n <= usize::MAX,
        after.slots()[id.index as int]@ == before.slots()[id.index as int]@.after_disconnects(n),
    ensures
        after.slots()[id.index as int]@.generation == id.generation + n,
        !after.resolves(id),
{
    lemma_generation_after_disconnects(before.slots()[id.index as int]@, n);
}

/// At most one generation of a slot is live: of two IDs for the same slot that
/// both resolve, neither is older than the other.
pub proof fn lemma_one_live_generation<T>(host: Host<T>, a: PeerID, b: PeerID)
    requires
        host.resolves(a),
        host.resolves(b),
        a.index == b.index,
    ensures
        a == b,
{
}

} // verus!
