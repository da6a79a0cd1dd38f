//! Events: what servicing a host can deliver.
use vstd::prelude::*;
use crate::host::Host;
use crate::packet::Packet;
use crate::peer::{Peer, PeerID, PeerView};

verus! {

/// The transport's code for "no event occurred".
pub const EVENT_TYPE_NONE: u32 = 0;

/// The transport's code for a completed connection.
pub const EVENT_TYPE_CONNECT: u32 = 1;

/// The transport's code for a completed disconnect.
pub const EVENT_TYPE_DISCONNECT: u32 = 2;

/// The transport's code for a received packet.
pub const EVENT_TYPE_RECEIVE: u32 = 3;

/// The transport's record of an event, as plain values.
#[derive(Debug)]
pub struct RawEvent {
    /// The code of the event's type.
    pub kind: u32,
    /// The position of the slot of the peer that the event happened on.
    pub peer: isize,
    /// The channel, for a received packet.
    pub channel_id: u8,
    /// The data that the remote side supplied, for a connect or disconnect.
    pub data: u32,
    /// The packet, for a received packet.
    pub packet: Option<Packet>,
}

impl RawEvent {
    /// Whether the record is of an event at all.
    pub open spec fn occurred(&self) -> bool {
        self.kind != EVENT_TYPE_NONE
    }

    /// Whether the record is of an event of a type that the transport has,
    /// with its packet if it is a received one.
    pub open spec fn readable(&self) -> bool {
        &&& (self.kind == EVENT_TYPE_CONNECT || self.kind == EVENT_TYPE_DISCONNECT || self.kind
            == EVENT_TYPE_RECEIVE)
        &&& (self.kind == EVENT_TYPE_RECEIVE ==> self.packet is Some)
    }

    /// Whether the record is one that the transport can have written for
    /// a host with `slot_count` slots: no event at all, or a readable event on
    /// one of the slots.
    pub open spec fn well_formed(&self, slot_count: nat) -> bool {
        self.occurred() ==> self.readable() && 0 <= self.peer < slot_count
    }

    /// The record of "no event": nothing occurred, and every other field is empty.
    pub fn none() -> (raw: RawEvent)
        ensures
            raw == (RawEvent {
                kind: EVENT_TYPE_NONE,
                peer: 0,
                channel_id: 0,
                data: 0,
                packet: None,
            }),
            !raw.occurred(),
    {
        RawEvent { kind: EVENT_TYPE_NONE, peer: 0, channel_id: 0, data: 0, packet: None }
    }

    /// Tells whether the record is one that the transport can have written for
    /// a host with `slot_count` slots.
    pub fn is_well_formed(&self, slot_count: usize) -> (b: bool)
        ensures
            b == self.well_formed(slot_count as nat),
    {
        if self.kind == EVENT_TYPE_NONE {
            return true;
        }
        let known = self.kind == EVENT_TYPE_CONNECT || self.kind == EVENT_TYPE_DISCONNECT
            || self.kind == EVENT_TYPE_RECEIVE;
        let complete = self.kind != EVENT_TYPE_RECEIVE || self.packet.is_some();
        let on_slot = self.peer >= 0 && (self.peer as usize) < slot_count;
        known && complete && on_slot
    }
}

/// The type of an event.
#[derive(Debug)]
pub enum EventKind {
    /// Peer has connected.
    Connect,
    /// Peer has disconnected.
    ///
    /// The data of the peer will be dropped when the received `Event` is dropped.
    Disconnect {
        /// The data associated with this event. Usually a reason for disconnection.
        data: u32,
    },
    /// Peer has received a packet.
    Receive {
        /// ID of the channel that the packet was received on.
        channel_id: u8,
        /// The `Packet` that was received.
        packet: Packet,
    },
}

impl EventKind {
    /// The kind of event that a record of the transport describes.
    pub open spec fn of_raw(raw: RawEvent) -> EventKind
        recommends
            raw.readable(),
    {
        if raw.kind == EVENT_TYPE_CONNECT {
            EventKind::Connect
        } else if raw.kind == EVENT_TYPE_DISCONNECT {
            EventKind::Disconnect { data: raw.data }
        } else {
            EventKind::Receive { channel_id: raw.channel_id, packet: raw.packet.unwrap() }
        }
    }

    /// Reads the kind of event out of a record of the transport. A type that
    /// the transport does not have means that the two sides no longer agree,
    /// and is not accepted.
    pub fn from_sys_event(raw: RawEvent) -> (kind: EventKind)
        requires
            raw.readable(),
        ensures
            kind == Self::of_raw(raw),
    {
        if raw.kind == EVENT_TYPE_CONNECT {
            EventKind::Connect
        } else if raw.kind == EVENT_TYPE_DISCONNECT {
            EventKind::Disconnect { data: raw.data }
        } else {
            EventKind::Receive { channel_id: raw.channel_id, packet: raw.packet.unwrap() }
        }
    }
}

/// This struct represents an event that can occur when servicing a `Host`.
///
/// An event of kind `Disconnect` completes the disconnect when it is done with:
/// when its kind is taken out with [`Event::take_kind`], or else when it is
/// dropped. Then the generation of the peer's slot moves on, so that the
/// `PeerID` of the ended connection is invalid from there on, and the data
/// attached to the peer is dropped. It happens once for each such event.
#[derive(Debug)]
pub struct Event<'a, T> {
    /// The peer; `None` only once the kind was taken, when nothing is left to do.
    peer: Option<&'a mut Peer<T>>,
    peer_id: PeerID,
    kind: EventKind,
}

impl<'a, T> Event<'a, T> {
    /// The slot that the event borrows, as long as the event is pending.
    pub closed spec fn slot(&self) -> Option<&'a mut Peer<T>> {
        self.peer
    }

    /// The ID that the peer had when the event occurred.
    pub closed spec fn id(&self) -> PeerID {
        self.peer_id
    }

    /// The kind of the event.
    pub closed spec fn spec_kind(&self) -> EventKind {
        self.kind
    }

    /// An event is pending until its kind is taken: it then holds its peer.
    /// Every event that a host delivers is pending.
    pub open spec fn wf(&self) -> bool {
        self.slot() is Some
    }

    /// What the slot of the peer is once an event of kind `kind` is done with,
    /// where it was `slot` before: a disconnect is completed, any other event
    /// leaves the slot as it is.
    pub open spec fn settled(kind: EventKind, slot: PeerView<T>) -> PeerView<T>
        recommends
            kind is Disconnect ==> slot.generation < usize::MAX,
    {
        if kind is Disconnect {
            slot.disconnected()
        } else {
            slot
        }
    }

    /// Whether this is the event that the record `raw` describes, delivered by
    /// a host that was `before`: the event is pending, it carries the ID that
    /// the peer had at that time and the kind that the record gives, and it
    /// holds the peer's slot. `after` is the host once the event is done with,
    /// when `left` is what the event has left of the slot; no other slot and
    /// nothing else of the host has changed.
    pub open spec fn delivered(
        &self,
        raw: RawEvent,
        before: &Host<T>,
        after: &Host<T>,
        left: Peer<T>,
    ) -> bool {
        &&& raw.occurred()
        &&& self.wf()
        &&& self.id() == before.id_of(raw.peer)
        &&& self.spec_kind() == EventKind::of_raw(raw)
        &&& *self.slot().unwrap() == before.slots()[raw.peer as int]
        &&& after.slots() == before.slots().update(raw.peer as int, left)
        &&& after.record() == before.record()
    }

    /// Reads a record of the transport into an event on a peer of `host`,
    /// or into `None` where the record says that there was no event.
    pub(crate) fn from_sys_event(event_sys: RawEvent, host: &'a mut Host<T>) -> (r: Option<Event<'a, T>>)
        requires
            event_sys.well_formed(old(host).slots().len()),
        ensures
            match r {
                None => !event_sys.occurred() && *final(host) == *old(host),
                Some(event) => event.delivered(
                    event_sys,
                    old(host),
                    final(host),
                    *final(event.slot().unwrap()),
                ),
            },
    {
        if event_sys.kind == EVENT_TYPE_NONE {
            return None;
        }
        let index = event_sys.peer;
        let peer_id = host.peer_id(index);
        let kind = EventKind::from_sys_event(event_sys);
        let peer = host.slot_mut(index as usize);
        Some(Event { peer: Some(peer), peer_id, kind })
    }

    /// The peer that this event happened on.
    pub fn peer(&self) -> (peer: &Peer<T>)
        requires
            self.wf(),
        ensures
            *peer == *self.slot().unwrap(),
    {
        match &self.peer {
            Some(peer) => &**peer,
            None => vstd::pervasive::unreached(),
        }
    }

    /// The peer that this event happened on.
    pub fn peer_mut(&mut self) -> (peer: &mut Peer<T>)
        requires
            old(self).wf(),
        ensures
            *peer == *old(self).slot().unwrap(),
            final(self).wf(),
            *final(self).slot().unwrap() == *final(peer),
            *final(final(self).slot().unwrap()) == *final(old(self).slot().unwrap()),
            final(self).id() == old(self).id(),
            final(self).spec_kind() == old(self).spec_kind(),
    {
        match &mut self.peer {
            Some(peer) => &mut **peer,
            None => vstd::pervasive::unreached(),
        }
    }

    /// The `PeerID` of the peer that this event happened on.
    pub fn peer_id(&self) -> (id: PeerID)
        ensures
            id == self.id(),
    {
        self.peer_id
    }

    /// The type of this event.
    pub fn kind(&self) -> (kind: &EventKind)
        ensures
            *kind == self.spec_kind(),
    {
        &self.kind
    }

    /// What the slot of the peer is once an event of kind `kind` was dropped
    /// with its kind still in it. It is what `settled` says, but for a slot
    /// whose generation counter has no value left to move on to: such a slot
    /// keeps its generation at a disconnect, and loses its data.
    pub open spec fn dropped(kind: EventKind, slot: PeerView<T>) -> PeerView<T> {
        if kind is Disconnect && slot.generation == usize::MAX {
            PeerView { data: None, ..slot }
        } else {
            Self::settled(kind, slot)
        }
    }

    /// Completes the disconnect that this event reports, if it reports one and
    /// still holds its peer.
    fn cleanup_after_disconnect(&mut self)
        ensures
            final(self).id() == old(self).id(),
            final(self).spec_kind() == old(self).spec_kind(),
            final(self).wf() == old(self).wf(),
            old(self).wf() ==> final(self).slot().unwrap()@ == Self::dropped(
                old(self).spec_kind(),
                old(self).slot().unwrap()@,
            ),
        opens_invariants none
        no_unwind
    {
        match &mut self.peer {
            Some(peer) => {
                if let EventKind::Disconnect { .. } = self.kind {
                    if peer.generation() < usize::MAX {
                        peer.cleanup_after_disconnect();
                    } else {
                        peer.drop_raw_data();
                    }
                }
            },
            None => {},
        }
    }

    /// Take the EventKind out of this event.
    /// If this is a Disconnect event, it will clean up the Peer here and now,
    /// and nothing is left to be done when the event is dropped.
    pub fn take_kind(self) -> (kind: EventKind)
        requires
            self.wf(),
            self.spec_kind() is Disconnect ==> self.slot().unwrap()@.generation < usize::MAX,
        ensures
            kind == self.spec_kind(),
            final(self.slot().unwrap())@ == Self::settled(kind, self.slot().unwrap()@),
    {
        let mut event = self;
        let peer = event.peer.take();
        let mut kind = EventKind::Connect;
        std::mem::swap(&mut kind, &mut event.kind);
        match peer {
            Some(peer) => {
                if let EventKind::Disconnect { .. } = kind {
                    peer.cleanup_after_disconnect();
                }
            },
            None => {},
        }
        kind
    }
}

/// Dropping an `Event` with `EventKind::Disconnect` will clean up the Peer, by
/// dropping the data associated with the `Peer`, as well as invalidating the
/// `PeerID`.
///
/// An event whose kind was taken holds no peer any more and does nothing here,
/// so the cleanup is not done twice. A slot whose generation counter has no
/// value left to move on to keeps its generation, and loses its data.
impl<'a, T> Drop for Event<'a, T> {
    fn drop(&mut self)
        ensures
            final(self).id() == old(self).id(),
            final(self).spec_kind() == old(self).spec_kind(),
            final(self).wf() == old(self).wf(),
            old(self).wf() ==> final(self).slot().unwrap()@ == Self::dropped(
                old(self).spec_kind(),
                old(self).slot().unwrap()@,
            ),
        opens_invariants none
        no_unwind
    {
        self.cleanup_after_disconnect();
    }
}

/// A `Disconnect` event that is done with has made the ID of the ended
/// connection invalid, whether its kind was taken or it was dropped unread:
/// the host no longer resolves the ID that the event carried.
///
/// `held` is the slot as the event held it when it was done with; the caller
/// may have changed the attached data by then. For such a slot `settled` and
/// `dropped` are the same.
pub proof fn lemma_disconnect_invalidates<'a, T>(
    event: Event<'a, T>,
    raw: RawEvent,
    before: Host<T>,
    after: Host<T>,
    held: PeerView<T>,
    left: Peer<T>,
)
    requires
        raw.well_formed(before.slots().len()),
        raw.kind == EVENT_TYPE_DISCONNECT,
        event.delivered(raw, &before, &after, left),
        held.generation == event.id().generation,
        held.generation < usize::MAX,
        left@ == Event::<T>::settled(event.spec_kind(), held),
    ensures
        Event::<T>::dropped(event.spec_kind(), held) == Event::<T>::settled(event.spec_kind(), held),
        before.resolves(event.id()),
        !after.resolves(event.id()),
        after.slots()[raw.peer as int]@.generation == event.id().generation + 1,
        after.slots()[raw.peer as int]@.data is None,
        forall|i: int|
            0 <= i < before.slots().len() && i != raw.peer ==> after.slots()[i]
                == before.slots()[i],
{
}

/// An event of another kind leaves the peer as it is: the ID that it carried
/// still resolves when the event is done with.
pub proof fn lemma_other_events_keep_peer<'a, T>(
    event: Event<'a, T>,
    raw: RawEvent,
    before: Host<T>,
    after: Host<T>,
    held: PeerView<T>,
    left: Peer<T>,
)
    requires
        raw.well_formed(before.slots().len()),
        raw.occurred(),
        raw.kind != EVENT_TYPE_DISCONNECT,
        event.delivered(raw, &before, &after, left),
        held.generation == event.id().generation,
        left@ == Event::<T>::settled(event.spec_kind(), held),
    ensures
        after.resolves(event.id()),
        after.slots()[raw.peer as int]@ == held,
{
}

} // verus!
