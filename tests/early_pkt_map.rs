use futures::channel::mpsc::channel;

use udp_listener::{EarlyPktMap, FourTuple, IpAddr, SendRes, SocketAddr, MAILBOX_BUFFER};

fn tuple(remote_port: u16) -> FourTuple {
    FourTuple {
        local_addr: SocketAddr::new(IpAddr::V4(0x7f00_0001), 12345),
        remote_addr: SocketAddr::new(IpAddr::V4(0x7f00_0001), remote_port),
    }
}

#[test]
fn send_to_absent_tuple_is_not_exist() {
    let mut map = EarlyPktMap::new();
    let t = tuple(54321);
    assert!(!map.contains(&t));
    match map.send_early_pkt(&t, b"x".to_vec()) {
        SendRes::NotExist(b) => assert_eq!(b, b"x".to_vec()),
        _ => panic!(),
    }
}

#[test]
fn insert_then_send_then_full() {
    let mut map = EarlyPktMap::new();
    let t = tuple(54321);
    let (tx, mut rx) = channel::<Vec<u8>>(MAILBOX_BUFFER);
    map.insert(t, tx);
    assert!(map.contains(&t));
    assert!(!map.contains(&tuple(54322)));
    assert!(matches!(map.send_early_pkt(&t, b"A".to_vec()), SendRes::Sent));
    match map.send_early_pkt(&t, b"B".to_vec()) {
        SendRes::Full(b) => assert_eq!(b, b"B".to_vec()),
        _ => panic!(),
    }
    assert!(map.contains(&t));
    assert_eq!(rx.try_recv().unwrap(), b"A".to_vec());
    assert!(rx.try_recv().is_err());
}

#[test]
fn dropped_receiver_evicts_entry() {
    let mut map = EarlyPktMap::new();
    let t = tuple(54321);
    let (tx, rx) = channel::<Vec<u8>>(MAILBOX_BUFFER);
    map.insert(t, tx);
    drop(rx);
    match map.send_early_pkt(&t, b"late".to_vec()) {
        SendRes::NotExist(b) => assert_eq!(b, b"late".to_vec()),
        _ => panic!(),
    }
    assert!(!map.contains(&t));
}

#[test]
fn remove_is_idempotent() {
    let mut map = EarlyPktMap::new();
    let t = tuple(54321);
    let u = tuple(54322);
    let (tx, _rx) = channel::<Vec<u8>>(MAILBOX_BUFFER);
    let (tx2, _rx2) = channel::<Vec<u8>>(MAILBOX_BUFFER);
    map.insert(t, tx);
    map.insert(u, tx2);
    map.remove(&t);
    assert!(!map.contains(&t));
    assert!(map.contains(&u));
    map.remove(&t);
    assert!(!map.contains(&t));
    assert!(map.contains(&u));
}

#[test]
fn insert_replaces_mailbox() {
    let mut map = EarlyPktMap::new();
    let t = tuple(54321);
    let (tx, mut old_rx) = channel::<Vec<u8>>(MAILBOX_BUFFER);
    let (tx2, mut new_rx) = channel::<Vec<u8>>(MAILBOX_BUFFER);
    map.insert(t, tx);
    map.insert(t, tx2);
    assert!(matches!(map.send_early_pkt(&t, b"P".to_vec()), SendRes::Sent));
    assert_eq!(new_rx.try_recv().unwrap(), b"P".to_vec());
    assert!(old_rx.try_recv().is_err());
    map.remove(&t);
    assert!(!map.contains(&t));
}

#[test]
fn remove_mailbox_spares_a_replacement() {
    let mut map = EarlyPktMap::new();
    let t = tuple(54321);
    let (tx, old_rx) = channel::<Vec<u8>>(MAILBOX_BUFFER);
    let (tx2, mut new_rx) = channel::<Vec<u8>>(MAILBOX_BUFFER);
    map.insert(t, tx);
    map.insert(t, tx2);
    // The replaced connection goes away: the newer mailbox stays.
    map.remove_mailbox(&t, &old_rx);
    assert!(map.contains(&t));
    assert!(matches!(map.send_early_pkt(&t, b"N".to_vec()), SendRes::Sent));
    assert_eq!(new_rx.try_recv().unwrap(), b"N".to_vec());
    map.remove_mailbox(&t, &new_rx);
    assert!(!map.contains(&t));
}
