use enet::host::service_timeout;
use enet::{
    Address, BandwidthLimit, ChannelLimit, Enet, Error, EventKind, Host, Packet, PacketMode,
    PeerID, PeerState, RawEvent, RawHost, RawPeer, WireAddress,
};
use std::time::Duration;

fn raw_host(port: u16) -> RawHost {
    RawHost {
        address: WireAddress { host: [127, 0, 0, 1], port },
        channel_limit: ChannelLimit::Maximum,
        incoming_bandwidth: 0,
        outgoing_bandwidth: 0,
    }
}

fn host_with<T>(peer_count: usize) -> Host<T> {
    let enet = Enet::from_init_status(0).unwrap();
    let request = enet.host_request(
        None,
        peer_count,
        ChannelLimit::Maximum,
        BandwidthLimit::Unlimited,
        BandwidthLimit::Unlimited,
    );
    enet.create_host(&request, Some(raw_host(9001))).unwrap()
}

fn connect_on(peer: isize) -> RawEvent {
    RawEvent { kind: 1, peer, channel_id: 0, data: 0, packet: None }
}

fn disconnect_on(peer: isize, data: u32) -> RawEvent {
    RawEvent { kind: 2, peer, channel_id: 0, data, packet: None }
}

fn receive_on(peer: isize, channel_id: u8, bytes: &[u8]) -> RawEvent {
    RawEvent {
        kind: 3,
        peer,
        channel_id,
        data: 0,
        packet: Some(Packet::from_sys_packet(bytes.to_vec(), 1)),
    }
}

#[test]
fn limits_to_transport_values() {
    assert_eq!(BandwidthLimit::Unlimited.to_enet_u32(), 0);
    assert_eq!(BandwidthLimit::Limited(0).to_enet_u32(), 0);
    assert_eq!(BandwidthLimit::Limited(57600).to_enet_u32(), 57600);
    assert_eq!(BandwidthLimit::Limited(u32::MAX).to_enet_u32(), u32::MAX);
    assert_eq!(ChannelLimit::Maximum.to_enet_val(), 0);
    assert_eq!(ChannelLimit::Limited(2).to_enet_val(), 2);
}

#[test]
fn channel_limit_from_transport_value() {
    assert_eq!(ChannelLimit::from_enet_val(255), ChannelLimit::Maximum);
    assert_eq!(ChannelLimit::from_enet_val(1), ChannelLimit::Limited(1));
    assert_eq!(ChannelLimit::from_enet_val(254), ChannelLimit::Limited(254));
    assert_eq!(ChannelLimit::from_enet_val(256), ChannelLimit::Limited(256));
}

#[test]
fn host_reports_the_transports_record() {
    let mut host: Host<()> = host_with(3);
    assert_eq!(host.peer_count(), 3);
    assert_eq!(host.address(), Address::new([127, 0, 0, 1], 9001));
    assert_eq!(host.channel_limit(), ChannelLimit::Maximum);
    assert_eq!(host.incoming_bandwidth(), 0);
    assert_eq!(host.outgoing_bandwidth(), 0);
    host.sync(RawHost {
        address: WireAddress { host: [10, 0, 0, 2], port: 7 },
        channel_limit: ChannelLimit::Limited(8),
        incoming_bandwidth: 11,
        outgoing_bandwidth: 12,
    });
    assert_eq!(host.address(), Address::new([10, 0, 0, 2], 7));
    assert_eq!(host.channel_limit(), ChannelLimit::Limited(8));
    assert_eq!(host.incoming_bandwidth(), 11);
    assert_eq!(host.outgoing_bandwidth(), 12);
    assert_eq!(host.peer_count(), 3);
}

#[test]
fn setting_limits() {
    let mut host: Host<()> = host_with(1);
    host.set_bandwith_limits(BandwidthLimit::Limited(5), BandwidthLimit::Unlimited);
    assert_eq!(host.incoming_bandwidth(), 5);
    assert_eq!(host.outgoing_bandwidth(), 0);
    host.set_bandwith_limits(BandwidthLimit::Unlimited, BandwidthLimit::Limited(9));
    assert_eq!(host.incoming_bandwidth(), 0);
    assert_eq!(host.outgoing_bandwidth(), 9);
    host.set_channel_limit(ChannelLimit::Limited(3));
    assert_eq!(host.channel_limit(), ChannelLimit::Limited(3));
    host.set_channel_limit(ChannelLimit::Limited(300));
    assert_eq!(host.channel_limit(), ChannelLimit::Maximum);
    host.set_channel_limit(ChannelLimit::Limited(0));
    assert_eq!(host.channel_limit(), ChannelLimit::Maximum);
    host.set_channel_limit(ChannelLimit::Limited(1));
    assert_eq!(host.channel_limit(), ChannelLimit::Limited(1));
    host.set_channel_limit(ChannelLimit::Maximum);
    assert_eq!(host.channel_limit(), ChannelLimit::Maximum);
    assert_eq!(host.address(), Address::new([127, 0, 0, 1], 9001));
}

#[test]
fn timeout_in_milliseconds() {
    assert_eq!(service_timeout(&Duration::from_millis(0)), 0);
    assert_eq!(service_timeout(&Duration::from_micros(999)), 0);
    assert_eq!(service_timeout(&Duration::from_secs(1)), 1000);
    assert_eq!(service_timeout(&Duration::from_millis(4294967295)), 4294967295);
    assert_eq!(service_timeout(&Duration::from_millis(4294967296)), 0);
    assert_eq!(service_timeout(&Duration::from_millis(4294967296 + 17)), 17);
}

#[test]
fn round_trip_time_as_timeout() {
    let mut host: Host<()> = host_with(1);
    host.sync_peer(
        0,
        RawPeer {
            address: WireAddress { host: [1, 1, 1, 1], port: 2 },
            channel_count: 1,
            incoming_bandwidth: 0,
            outgoing_bandwidth: 0,
            round_trip_time: 250,
            state: PeerState::Connected,
        },
    );
    let rtt = host.peers()[0].mean_rtt();
    assert_eq!(rtt.as_millis(), 250);
    assert_eq!(service_timeout(&rtt), 250);
}

#[test]
fn ids_resolve_by_index_and_generation() {
    let mut host: Host<u8> = host_with(3);
    let id = host.peer_id(1);
    assert_eq!(id, PeerID { index: 1, generation: 0 });
    assert!(host.peer(id).is_some());
    assert!(host.peer_mut(id).is_some());
    assert!(host.peer(PeerID { index: 3, generation: 0 }).is_none());
    assert!(host.peer(PeerID { index: -1, generation: 0 }).is_none());
    assert!(host.peer(PeerID { index: isize::MAX, generation: 0 }).is_none());
    assert!(host.peer(PeerID { index: isize::MIN, generation: 0 }).is_none());
    assert!(host.peer(PeerID { index: 1, generation: 1 }).is_none());
    assert!(host.peer_mut(PeerID { index: 3, generation: 0 }).is_none());
    assert!(host.peer_mut(PeerID { index: 1, generation: 1 }).is_none());
    assert!(host.has_peer_index(0));
    assert!(host.has_peer_index(2));
    assert!(!host.has_peer_index(3));
    assert!(!host.has_peer_index(-1));
}

#[test]
fn peer_mut_reaches_the_slot() {
    let mut host: Host<u8> = host_with(2);
    let id = host.peer_id(1);
    host.peer_mut(id).unwrap().set_data(42);
    assert_eq!(host.peer(id).unwrap().data(), Some(&42));
    assert!(host.peer(host.peer_id(0)).unwrap().data().is_none());
    assert_eq!(host.peers()[1].data(), Some(&42));
    host.peers_mut()[0].set_data(7);
    assert_eq!(host.peer(host.peer_id(0)).unwrap().data(), Some(&7));
    assert_eq!(host.peer_count(), 2);
}

#[test]
fn sync_peer_touches_one_slot() {
    let mut host: Host<u8> = host_with(2);
    let id = host.peer_id(0);
    host.peer_mut(id).unwrap().set_data(1);
    host.sync_peer(
        0,
        RawPeer {
            address: WireAddress { host: [1, 1, 1, 1], port: 2 },
            channel_count: 4,
            incoming_bandwidth: 0,
            outgoing_bandwidth: 0,
            round_trip_time: 500,
            state: PeerState::Connecting,
        },
    );
    assert_eq!(host.peer(id).unwrap().state(), PeerState::Connecting);
    assert_eq!(host.peer(id).unwrap().data(), Some(&1));
    assert_eq!(host.peers()[1].state(), PeerState::Disconnected);
}

#[test]
fn stale_id_after_disconnect_now() {
    let mut host: Host<u8> = host_with(2);
    let id = host.connect(Some(1)).unwrap();
    host.peer_mut(id).unwrap().set_data(3);
    host.peer_mut(id).unwrap().disconnect_now();
    assert!(host.peer(id).is_none());
    assert!(host.peer_mut(id).is_none());
    let next = host.connect(Some(1)).unwrap();
    assert_eq!(next, PeerID { index: 1, generation: 1 });
    assert!(host.peer(next).unwrap().data().is_none());
}

#[test]
fn connect_gives_the_slots_id() {
    let mut host: Host<()> = host_with(4);
    assert_eq!(host.connect(Some(2)), Ok(PeerID { index: 2, generation: 0 }));
    assert_eq!(host.connect(None), Err(Error(0)));
    assert_eq!(host.peer_count(), 4);
}

#[test]
fn service_without_event() {
    let mut host: Host<()> = host_with(1);
    assert!(host.service(0, RawEvent::none()).unwrap().is_none());
    assert!(host.check_events(0, RawEvent::none()).unwrap().is_none());
    // a record that the transport did not fill in is not read
    assert!(host.service(0, disconnect_on(0, 1)).unwrap().is_none());
    assert_eq!(host.peer_id(0).generation, 0);
    // a positive status with a record of no event
    assert!(host.service(1, RawEvent::none()).unwrap().is_none());
    assert!(host.check_events(1, RawEvent::none()).unwrap().is_none());
}

#[test]
fn service_failure_carries_the_status() {
    let mut host: Host<()> = host_with(1);
    assert_eq!(host.service(-1, RawEvent::none()).err(), Some(Error(-1)));
    assert_eq!(host.check_events(-5, RawEvent::none()).err(), Some(Error(-5)));
    assert_eq!(host.service(-1, disconnect_on(0, 1)).err(), Some(Error(-1)));
    assert_eq!(host.peer_id(0).generation, 0);
}

#[test]
fn connect_event() {
    let mut host: Host<u8> = host_with(3);
    {
        let mut event = host.service(1, connect_on(2)).unwrap().unwrap();
        assert_eq!(event.peer_id(), PeerID { index: 2, generation: 0 });
        assert!(matches!(event.kind(), EventKind::Connect));
        event.peer_mut().set_data(9);
        assert_eq!(event.peer().data(), Some(&9));
    }
    let id = PeerID { index: 2, generation: 0 };
    assert_eq!(host.peer(id).unwrap().data(), Some(&9));
}

#[test]
fn receive_event() {
    let mut host: Host<u8> = host_with(3);
    let event = host.check_events(1, receive_on(0, 1, b"harro")).unwrap().unwrap();
    assert_eq!(event.peer_id(), PeerID { index: 0, generation: 0 });
    match event.take_kind() {
        EventKind::Receive { channel_id, packet } => {
            assert_eq!(channel_id, 1);
            assert_eq!(packet.data(), b"harro");
        }
        _ => panic!("not a receive event"),
    }
    assert!(host.peer(PeerID { index: 0, generation: 0 }).is_some());
}

#[test]
fn unread_disconnect_event_cleans_up_when_dropped() {
    let mut host: Host<String> = host_with(2);
    let id = host.connect(Some(1)).unwrap();
    host.peer_mut(id).unwrap().set_data(String::from("kept until the end"));
    {
        let _unread = host.service(1, disconnect_on(1, 0)).unwrap();
    }
    assert!(host.peer(id).is_none());
    assert_eq!(host.peer_id(1), PeerID { index: 1, generation: 1 });
    assert!(host.peers()[1].data().is_none());
    // the other slot is untouched
    assert_eq!(host.peer_id(0), PeerID { index: 0, generation: 0 });
}

#[test]
fn disconnect_event_shows_the_peer_until_it_is_done_with() {
    let mut host: Host<u32> = host_with(1);
    let id = host.connect(Some(0)).unwrap();
    host.peer_mut(id).unwrap().set_data(77);
    {
        let event = host.service(1, disconnect_on(0, 5)).unwrap().unwrap();
        assert_eq!(event.peer_id(), id);
        assert!(matches!(event.kind(), EventKind::Disconnect { data: 5 }));
        assert_eq!(event.peer().data(), Some(&77));
        assert_eq!(event.peer().generation(), 0);
    }
    assert!(host.peer(id).is_none());
    assert_eq!(host.peers()[0].generation(), 1);
}

#[test]
fn taking_the_kind_cleans_up_once() {
    let mut host: Host<u32> = host_with(1);
    let id = host.connect(Some(0)).unwrap();
    host.peer_mut(id).unwrap().set_data(77);
    let kind = host.service(1, disconnect_on(0, 5)).unwrap().unwrap().take_kind();
    assert!(matches!(kind, EventKind::Disconnect { data: 5 }));
    assert!(host.peer(id).is_none());
    assert_eq!(host.peers()[0].generation(), 1);
    assert!(host.peers()[0].data().is_none());
}

#[test]
fn other_events_leave_the_generation() {
    let mut host: Host<u32> = host_with(1);
    let id = host.connect(Some(0)).unwrap();
    host.peer_mut(id).unwrap().set_data(1);
    {
        let _unread = host.service(1, connect_on(0)).unwrap();
    }
    let kind = host.service(1, receive_on(0, 0, b"x")).unwrap().unwrap().take_kind();
    assert!(matches!(kind, EventKind::Receive { channel_id: 0, .. }));
    let kind = host.service(1, connect_on(0)).unwrap().unwrap().take_kind();
    assert!(matches!(kind, EventKind::Connect));
    assert_eq!(host.peer(id).unwrap().data(), Some(&1));
    assert_eq!(host.peer_id(0), id);
}

#[test]
fn generation_after_n_disconnects() {
    let mut host: Host<usize> = host_with(2);
    let first = host.connect(Some(0)).unwrap();
    let mut ids = vec![];
    for n in 0..12usize {
        let id = host.connect(Some(0)).unwrap();
        assert_eq!(id, PeerID { index: 0, generation: first.generation + n });
        host.peer_mut(id).unwrap().set_data(n);
        ids.push(id);
        if n % 2 == 0 {
            let _unread = host.service(1, disconnect_on(0, 0)).unwrap();
        } else {
            host.check_events(1, disconnect_on(0, 0)).unwrap().unwrap().take_kind();
        }
        for old in &ids {
            assert!(host.peer(*old).is_none());
        }
    }
    assert_eq!(host.peer_id(0).generation, first.generation + 12);
    assert_eq!(host.peer_id(1).generation, 0);
}

#[test]
fn event_record_checks() {
    assert!(RawEvent::none().is_well_formed(0));
    assert!(connect_on(0).is_well_formed(1));
    assert!(!connect_on(1).is_well_formed(1));
    assert!(!connect_on(-1).is_well_formed(1));
    assert!(disconnect_on(9, 5).is_well_formed(10));
    assert!(receive_on(0, 1, b"a").is_well_formed(1));
    let no_packet = RawEvent { kind: 3, peer: 0, channel_id: 0, data: 0, packet: None };
    assert!(!no_packet.is_well_formed(1));
    let unknown = RawEvent { kind: 4, peer: 0, channel_id: 0, data: 0, packet: None };
    assert!(!unknown.is_well_formed(1));
}

#[test]
fn event_kind_from_record() {
    assert!(matches!(EventKind::from_sys_event(connect_on(0)), EventKind::Connect));
    assert!(matches!(
        EventKind::from_sys_event(disconnect_on(0, 4000000000)),
        EventKind::Disconnect { data: 4000000000 }
    ));
    match EventKind::from_sys_event(receive_on(3, 200, b"payload")) {
        EventKind::Receive { channel_id, packet } => {
            assert_eq!(channel_id, 200);
            assert_eq!(packet.data(), b"payload");
            assert_eq!(packet.flags(), 1);
        }
        _ => panic!("not a receive event"),
    }
}

#[test]
fn drop_peer_data_releases_every_slot() {
    let mut host: Host<String> = host_with(3);
    for i in 0..3 {
        let id = host.peer_id(i);
        host.peer_mut(id).unwrap().set_data(format!("peer {}", i));
    }
    host.peer_mut(PeerID { index: 1, generation: 0 }).unwrap().disconnect_now();
    let second = host.peer_id(1);
    host.peer_mut(second).unwrap().set_data(String::from("again"));
    host.drop_peer_data();
    assert_eq!(host.peer_count(), 3);
    for peer in host.peers() {
        assert!(peer.data().is_none());
    }
    // the IDs that were given out keep their meaning
    assert_eq!(host.peer_id(0), PeerID { index: 0, generation: 0 });
    assert_eq!(host.peer_id(1), PeerID { index: 1, generation: 1 });
    assert!(host.peer(PeerID { index: 1, generation: 0 }).is_none());
}

#[test]
fn end_to_end() {
    let mut status = enet::LibraryStatus::new();
    let enet = Enet::new(&mut status, || 0).unwrap();
    let server_address = Address::new([127, 0, 0, 1], 9001);
    let request = enet.host_request(
        Some(&server_address),
        10,
        ChannelLimit::Maximum,
        BandwidthLimit::Unlimited,
        BandwidthLimit::Unlimited,
    );
    assert_eq!(request.address, Some(WireAddress { host: [127, 0, 0, 1], port: 9001 }));
    let mut server: Host<()> = enet.create_host(&request, Some(raw_host(9001))).unwrap();
    assert_eq!(server.peer_count(), 10);
    let unbound = enet.host_request(
        None,
        1,
        ChannelLimit::Maximum,
        BandwidthLimit::Unlimited,
        BandwidthLimit::Unlimited,
    );
    assert_eq!(unbound.address, None);
    let mut client: Host<()> = enet.create_host(&unbound, Some(raw_host(0))).unwrap();

    // the client starts the connection; the transport gives it slot 0
    assert_eq!(server_address.to_enet_address().port, 9001);
    let to_server = client.connect(Some(0)).unwrap();

    // nothing happens for a while
    assert!(client.service(0, RawEvent::none()).unwrap().is_none());
    assert!(server.service(0, RawEvent::none()).unwrap().is_none());

    // both sides see the connection
    let to_client = {
        let event = server.service(1, connect_on(0)).unwrap().unwrap();
        assert!(matches!(event.kind(), EventKind::Connect));
        event.peer_id()
    };
    {
        let event = client.service(1, connect_on(0)).unwrap().unwrap();
        assert!(matches!(event.kind(), EventKind::Connect));
        assert_eq!(event.peer_id(), to_server);
    }

    // the client sends "harro" on channel 1
    let packet = Packet::new(b"harro".to_vec(), PacketMode::ReliableSequenced, true).unwrap();
    let (bytes, flags) = packet.into_inner();
    assert_eq!(client.peer(to_server).unwrap().send_packet(0), Ok(()));

    // the server receives it
    {
        let incoming = RawEvent {
            kind: 3,
            peer: 0,
            channel_id: 1,
            data: 0,
            packet: Some(Packet::from_sys_packet(bytes, flags)),
        };
        let event = server.service(1, incoming).unwrap().unwrap();
        assert_eq!(event.peer_id(), to_client);
        match event.kind() {
            EventKind::Receive { channel_id, packet } => {
                assert_eq!(*channel_id, 1);
                assert_eq!(packet.data(), b"harro");
            }
            _ => panic!("not a receive event"),
        }
    }

    // the client disconnects with data 5; both sides see it
    {
        let event = server.service(1, disconnect_on(0, 5)).unwrap().unwrap();
        assert_eq!(event.peer_id(), to_client);
        assert!(matches!(event.kind(), EventKind::Disconnect { data: 5 }));
    }
    {
        let event = client.service(1, disconnect_on(0, 5)).unwrap().unwrap();
        assert_eq!(event.peer_id(), to_server);
        assert!(matches!(event.kind(), EventKind::Disconnect { data: 5 }));
    }
    assert!(server.peer(to_client).is_none());
    assert!(client.peer(to_server).is_none());
}
