use std::collections::HashSet;

use futures::channel::mpsc::Receiver;

use udp_listener::{accept_raw, Admission, EarlyPktMap, FourTuple, IpAddr, IpFilterConfig, SocketAddr};

const LOCALHOST_V4: u32 = 0x7f00_0001;
const LOCALHOST_V6: u128 = 1;

fn v4(ip: u32, port: u16) -> SocketAddr {
    SocketAddr::new(IpAddr::V4(ip), port)
}

fn v6(ip: u128, port: u16) -> SocketAddr {
    SocketAddr::new(IpAddr::V6(ip), port)
}

fn loopback_v4_tuple() -> FourTuple {
    FourTuple {
        local_addr: v4(LOCALHOST_V4, 12345),
        remote_addr: v4(LOCALHOST_V4, 54321),
    }
}

fn expect_new(a: Admission) -> Receiver<Vec<u8>> {
    match a {
        Admission::New(rx) => rx,
        _ => panic!("expected a new connection"),
    }
}

#[test]
fn single_v4_client() {
    let filter = IpFilterConfig::V4(None).build();
    let mut map = EarlyPktMap::new();
    let t = loopback_v4_tuple();
    let payload = b"hello world".to_vec();
    assert_eq!(payload.len(), 11);
    let mut rx = expect_new(accept_raw(&filter, &mut map, &t, payload));
    assert!(map.contains(&t));
    assert_eq!(t.local_addr, v4(LOCALHOST_V4, 12345));
    assert_eq!(t.remote_addr, v4(LOCALHOST_V4, 54321));
    assert_eq!(rx.try_recv().unwrap(), b"hello world".to_vec());
}

#[test]
fn filtered_datagram_opens_no_mailbox() {
    let set: HashSet<u32> = [u32::from_be_bytes([10, 0, 0, 1])].into_iter().collect();
    let filter = IpFilterConfig::V4(Some(set)).build();
    let mut map = EarlyPktMap::new();
    let t = loopback_v4_tuple();
    let r = accept_raw(&filter, &mut map, &t, b"hello world".to_vec());
    assert!(matches!(r, Admission::Filtered));
    assert!(!map.contains(&t));
}

#[test]
fn second_packet_before_steering() {
    let filter = IpFilterConfig::V4(None).build();
    let mut map = EarlyPktMap::new();
    let t = loopback_v4_tuple();
    let mut rx = expect_new(accept_raw(&filter, &mut map, &t, b"A".to_vec()));
    // "A" is still pending, so "B" is dropped.
    let r = accept_raw(&filter, &mut map, &t, b"B".to_vec());
    assert!(matches!(r, Admission::ConnAlreadyExists));
    assert_eq!(rx.try_recv().unwrap(), b"A".to_vec());
    assert!(rx.try_recv().is_err());
    // With the mailbox drained, a further datagram is placed in it.
    let r = accept_raw(&filter, &mut map, &t, b"C".to_vec());
    assert!(matches!(r, Admission::ConnAlreadyExists));
    assert_eq!(rx.try_recv().unwrap(), b"C".to_vec());
}

#[test]
fn hundred_distinct_v6_clients() {
    let filter = IpFilterConfig::V6(None).build();
    let mut map = EarlyPktMap::new();
    let mut receivers = Vec::new();
    for i in 0..100u16 {
        let t = FourTuple {
            local_addr: v6(LOCALHOST_V6, 12345),
            remote_addr: v6(LOCALHOST_V6, 54321 + i),
        };
        let mut rx = expect_new(accept_raw(&filter, &mut map, &t, b"hello world".to_vec()));
        assert_eq!(t.remote_addr.port(), 54321 + i);
        assert_eq!(rx.try_recv().unwrap(), b"hello world".to_vec());
        receivers.push(rx);
    }
    for i in 0..100u16 {
        let t = FourTuple {
            local_addr: v6(LOCALHOST_V6, 12345),
            remote_addr: v6(LOCALHOST_V6, 54321 + i),
        };
        assert!(map.contains(&t));
    }
}

#[test]
fn connection_drop_evicts_map() {
    let filter = IpFilterConfig::V4(None).build();
    let mut map = EarlyPktMap::new();
    let t = loopback_v4_tuple();
    let rx = expect_new(accept_raw(&filter, &mut map, &t, b"hello world".to_vec()));
    // Dropping a connection drops its receiver and removes its entry.
    drop(rx);
    map.remove(&t);
    assert!(!map.contains(&t));
    let mut rx = expect_new(accept_raw(&filter, &mut map, &t, b"again".to_vec()));
    assert_eq!(rx.try_recv().unwrap(), b"again".to_vec());
}

#[test]
fn stale_entry_is_replaced() {
    let filter = IpFilterConfig::V4(None).build();
    let mut map = EarlyPktMap::new();
    let t = loopback_v4_tuple();
    let mut rx = expect_new(accept_raw(&filter, &mut map, &t, b"one".to_vec()));
    assert_eq!(rx.try_recv().unwrap(), b"one".to_vec());
    drop(rx);
    let mut rx = expect_new(accept_raw(&filter, &mut map, &t, b"two".to_vec()));
    assert_eq!(rx.try_recv().unwrap(), b"two".to_vec());
}

#[test]
fn wrong_family_is_filtered() {
    let filter = IpFilterConfig::V6(None).build();
    let mut map = EarlyPktMap::new();
    let t = loopback_v4_tuple();
    let r = accept_raw(&filter, &mut map, &t, b"hello world".to_vec());
    assert!(matches!(r, Admission::Filtered));
    assert!(!map.contains(&t));
}

#[test]
fn first_payload_is_first_in_mailbox() {
    let filter = IpFilterConfig::V4(None).build();
    let mut map = EarlyPktMap::new();
    let t = loopback_v4_tuple();
    let payload: Vec<u8> = (0u8..=255).collect();
    let mut rx = expect_new(accept_raw(&filter, &mut map, &t, payload.clone()));
    assert_eq!(rx.try_recv().unwrap(), payload);
}
