//! A connection-and-event layer over a reliable-UDP transport engine.
//!
//! The engine itself (sockets, retransmission, flow control) lives outside this
//! crate. What is here is everything that is decided around it: how addresses
//! and limits are handed to the engine, how its status codes and event records
//! become typed results, which peer slot a handle refers to, and when a slot's
//! generation moves on. Every function takes the engine's answers as plain
//! values and is verified for all of them.
use vstd::prelude::*;

pub mod address;
pub mod event;
pub mod host;
pub mod library;
pub mod packet;
pub mod peer;
pub mod time;

pub use crate::address::{Address, WireAddress};
pub use crate::event::{Event, EventKind, RawEvent};
pub use crate::host::{BandwidthLimit, ChannelLimit, Host, RawHost};
pub use crate::library::{Enet, HostRequest, InitializationError, LibraryStatus};
pub use crate::packet::{Packet, PacketMode};
pub use crate::peer::{Peer, PeerID, PeerPacket, PeerState, RawPeer};

verus! {

/// A failed transport operation, carrying the status the transport returned.
///
/// A resource the transport could not create is reported with status 0.
#[derive(Debug, Clone, Copy, PartialEq, Eq, Structural)]
pub struct Error(pub i32);

impl Error {
    /// What a transport call that reports only failure or success amounts to:
    /// zero is success, any other status is the failure itself.
    pub open spec fn outcome(status: i32) -> Result<(), Error> {
        if status == 0 {
            Ok(())
        } else {
            Err(Error(status))
        }
    }

    /// Turns the status of a transport call into a result.
    pub(crate) fn check(status: i32) -> (r: Result<(), Error>)
        ensures
            r == Self::outcome(status),
    {
        if status == 0 {
            Ok(())
        } else {
            Err(Error(status))
        }
    }
}

} // verus!
