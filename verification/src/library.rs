//! The guard of the transport library: it is brought up once, and shut down
//! once, for the whole process.
use vstd::prelude::*;
use crate::address::{Address, WireAddress};
use crate::host::{BandwidthLimit, ChannelLimit, Host, RawHost};
use crate::peer::{PeerView, RawPeer};
use crate::Error;

verus! {

/// Where the process stands with the transport library. The status only moves
/// forward: from `Uninitialized` to `Initialized` to `Deinitialized`.
#[derive(Debug, Clone, Copy, PartialEq, Eq, Structural)]
pub enum LibraryStatus {
    /// Nothing has asked for the library yet.
    Uninitialized,
    /// The library was claimed, and handles to it may be alive.
    Initialized,
    /// The last handle is gone and the library was shut down for good.
    Deinitialized,
}

/// An error that can occur when initializing the transport library.
#[derive(Debug, Clone, Copy, PartialEq, Eq, Structural)]
pub enum InitializationError {
    /// The library was already initialized. `Enet::new()` can only
    /// (successfully) be called once, so reuse that object.
    AlreadyInitialized,
    /// The library was already deinitialized. Probably continue using your
    /// previous `Enet`-instance.
    AlreadyDeinitialized,
    /// Internal failure of the transport's initialisation routine, containing
    /// the status that it returned.
    Error(i32),
}

impl LibraryStatus {
    /// What an attempt to claim the library comes to in this status.
    pub open spec fn claimed(self) -> Result<(), InitializationError> {
        match self {
            LibraryStatus::Uninitialized => Ok(()),
            LibraryStatus::Initialized => Err(InitializationError::AlreadyInitialized),
            LibraryStatus::Deinitialized => Err(InitializationError::AlreadyDeinitialized),
        }
    }

    /// The status after an attempt to claim the library: a successful claim
    /// initializes, a refused one changes nothing.
    pub open spec fn after_claim(self) -> LibraryStatus {
        match self {
            LibraryStatus::Uninitialized => LibraryStatus::Initialized,
            other => other,
        }
    }

    /// The status of a process that has not asked for the library yet.
    pub fn new() -> (status: LibraryStatus)
        ensures
            status == LibraryStatus::Uninitialized,
    {
        LibraryStatus::Uninitialized
    }

    /// Claims the library for the one handle that may initialize it. Only the
    /// first claim of a process succeeds.
    pub fn claim(&mut self) -> (r: Result<(), InitializationError>)
        ensures
            r == old(self).claimed(),
            *final(self) == old(self).after_claim(),
    {
        match *self {
            LibraryStatus::Uninitialized => {
                *self = LibraryStatus::Initialized;
                Ok(())
            },
            LibraryStatus::Initialized => Err(InitializationError::AlreadyInitialized),
            LibraryStatus::Deinitialized => Err(InitializationError::AlreadyDeinitialized),
        }
    }

    /// Gives the library up when the last handle to it is released. It is not
    /// to be had again in this process.
    pub fn release(&mut self)
        requires
            *old(self) == LibraryStatus::Initialized,
        ensures
            *final(self) == LibraryStatus::Deinitialized,
    {
        *self = LibraryStatus::Deinitialized;
    }
}

/// What is handed to the transport to have a host created.
#[derive(Debug, Clone, Copy, PartialEq, Eq)]
pub struct HostRequest {
    /// The address to listen on; `None` for a host that only connects out.
    pub address: Option<WireAddress>,
    /// The number of peer slots.
    pub peer_count: usize,
    /// The channel limit, 0 for the maximum.
    pub channel_limit: usize,
    /// The downstream limit in bytes/second, 0 for none.
    pub incoming_bandwidth: u32,
    /// The upstream limit in bytes/second, 0 for none.
    pub outgoing_bandwidth: u32,
}

/// Main API entry point. Provides host creation.
///
/// A value of this type stands for the initialized transport library. The
/// first successful `Enet::new` of a process initializes it; further attempts
/// fail, so the value is cloned where it is needed more than once.
#[derive(Debug, Clone, Copy)]
pub struct Enet {}

impl Enet {
    /// What `Enet::new` returns once the library is claimed, for the status
    /// `code` that the transport's initialisation routine returned.
    pub open spec fn initialized(r: Result<Enet, InitializationError>, code: i32) -> bool {
        if code == 0 {
            r is Ok
        } else {
            r == Err::<Enet, InitializationError>(InitializationError::Error(code))
        }
    }

    /// The handle for a library whose initialisation routine returned `code`:
    /// zero is success, anything else the failure.
    pub fn from_init_status(code: i32) -> (r: Result<Enet, InitializationError>)
        ensures
            Self::initialized(r, code),
    {
        if code != 0 {
            return Err(InitializationError::Error(code));
        }
        Ok(Enet {  })
    }

    /// Initializes the transport library and returns a handle to the top-level
    /// functionality, in the form of an `Enet`-instance.
    ///
    /// `status` is the status of the process and `initialize` the transport's
    /// initialisation routine. The routine is run only where the claim
    /// succeeds: a library that is or was initialized is not entered again,
    /// so the routine need not even be callable then. Once claimed, the
    /// library stays claimed even where the routine fails.
    pub fn new<F: FnOnce() -> i32>(status: &mut LibraryStatus, initialize: F) -> (r: Result<
        Enet,
        InitializationError,
    >)
        requires
            old(status).claimed() is Ok ==> initialize.requires(()),
        ensures
            *final(status) == old(status).after_claim(),
            match old(status).claimed() {
                Ok(_) => exists|code: i32|
                    initialize.ensures((), code) && Self::initialized(r, code),
                Err(refused) => r == Err::<Enet, InitializationError>(refused),
            },
    {
        match status.claim() {
            Ok(_) => {},
            Err(refused) => {
                return Err(refused);
            },
        }
        let code: i32 = initialize();
        Self::from_init_status(code)
    }

    /// What is handed to the transport to have a host created.
    ///
    /// `address` specifies the address to listen on. Client-only endpoints can
    /// choose `None`. A channel limit of `Maximum` asks for the transport's
    /// default.
    pub fn host_request(
        &self,
        address: Option<&Address>,
        max_peer_count: usize,
        max_channel_count: ChannelLimit,
        incoming_bandwidth: BandwidthLimit,
        outgoing_bandwidth: BandwidthLimit,
    ) -> (request: HostRequest)
        ensures
            request == (HostRequest {
                address: match address {
                    Some(a) => Some(a.wire()),
                    None => None,
                },
                peer_count: max_peer_count,
                channel_limit: max_channel_count.enet_val(),
                incoming_bandwidth: incoming_bandwidth.enet_u32(),
                outgoing_bandwidth: outgoing_bandwidth.enet_u32(),
            }),
    {
        let addr = match address {
            Some(a) => Some(a.to_enet_address()),
            None => None,
        };
        HostRequest {
            address: addr,
            peer_count: max_peer_count,
            channel_limit: max_channel_count.to_enet_val(),
            incoming_bandwidth: incoming_bandwidth.to_enet_u32(),
            outgoing_bandwidth: outgoing_bandwidth.to_enet_u32(),
        }
    }

    /// Creates a `Host` out of the transport's answer to a request for one.
    /// A `Host` is an endpoint of a connection.
    ///
    /// `created` is the transport's record of the host that it created on the
    /// request, or `None` where it created none, for want of resources or over
    /// an address that cannot be bound. The host has as many peer slots as
    /// were asked for, and no connection has used any of them yet.
    ///
    /// The type `T` specifies the data associated with corresponding `Peer`s.
    pub fn create_host<T>(&self, request: &HostRequest, created: Option<RawHost>) -> (r: Result<
        Host<T>,
        Error,
    >)
        ensures
            match created {
                None => r matches Err(error) && error == Error(0),
                Some(inner) => r matches Ok(host) && host.record() == inner
                    && host.slots().len() == request.peer_count && forall|i: int|
                    0 <= i < request.peer_count ==> (#[trigger] host.slots()[i])@ == (PeerView::<
                        T,
                    > { record: RawPeer::idle(), generation: 0, data: None }),
            },
    {
        match created {
            None => Err(Error(0)),
            Some(inner) => Ok(Host::new(inner, request.peer_count)),
        }
    }
}

/// The library is initialized once: while it is claimed, another claim is
/// refused as `AlreadyInitialized`, and once it was released, as
/// `AlreadyDeinitialized`. Only a process that never claimed it can.
pub proof fn lemma_single_initialization(status: LibraryStatus)
    ensures
        status.claimed() is Ok <==> status == LibraryStatus::Uninitialized,
        status.claimed() is Ok ==> status.after_claim().claimed() == Err::<
            (),
            InitializationError,
        >(InitializationError::AlreadyInitialized),
        status.claimed() is Err ==> status.after_claim() == status,
        LibraryStatus::Deinitialized.claimed() == Err::<(), InitializationError>(
            InitializationError::AlreadyDeinitialized,
        ),
        LibraryStatus::Deinitialized.after_claim() == LibraryStatus::Deinitialized,
{
}

} // verus!
