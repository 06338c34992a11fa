use netecho::addr::{HardwareAddress, Ipv4Address, Station};
use netecho::cache::AddressCache;
use netecho::responder::handle_frame;

fn mac(b: [u8; 6]) -> HardwareAddress {
    HardwareAddress { b0: b[0], b1: b[1], b2: b[2], b3: b[3], b4: b[4], b5: b[5] }
}

fn ip(o: [u8; 4]) -> Ipv4Address {
    Ipv4Address { o0: o[0], o1: o[1], o2: o[2], o3: o[3] }
}

fn station() -> Station {
    Station::configured()
}

const STATION_MAC: [u8; 6] = [0x48, 0x69, 0x52, 0x75, 0x73, 0x74];
const STATION_IP: [u8; 4] = [192, 168, 1, 33];

/// An ARP request for the station's address, from a 60-byte padded frame.
fn arp_request_frame(sender_mac: [u8; 6], sender_ip: [u8; 4], target_ip: [u8; 4]) -> Vec<u8> {
    let mut b: Vec<u8> = Vec::new();
    b.extend_from_slice(&[0xff; 6]);
    b.extend_from_slice(&sender_mac);
    b.extend_from_slice(&[0x08, 0x06]);
    b.extend_from_slice(&[0x00, 0x01, 0x08, 0x00, 0x06, 0x04, 0x00, 0x01]);
    b.extend_from_slice(&sender_mac);
    b.extend_from_slice(&sender_ip);
    b.extend_from_slice(&[0x00; 6]);
    b.extend_from_slice(&target_ip);
    while b.len() < 60 {
        b.push(0);
    }
    b
}

#[test]
fn arp_request_gets_well_formed_reply() {
    let st = station();
    let mut cache = AddressCache::new();
    let sender_mac = [0x02, 0x00, 0x00, 0x00, 0x00, 0x01];
    let sender_ip = [192, 168, 1, 5];
    let buf = arp_request_frame(sender_mac, sender_ip, STATION_IP);
    let reply = handle_frame(&st, &buf, &mut cache).expect("a reply is owed");

    let mut expected: Vec<u8> = Vec::new();
    expected.extend_from_slice(&sender_mac);
    expected.extend_from_slice(&STATION_MAC);
    expected.extend_from_slice(&[0x08, 0x06]);
    expected.extend_from_slice(&[0x00, 0x01, 0x08, 0x00, 0x06, 0x04, 0x00, 0x02]);
    expected.extend_from_slice(&STATION_MAC);
    expected.extend_from_slice(&STATION_IP);
    expected.extend_from_slice(&sender_mac);
    expected.extend_from_slice(&sender_ip);
    assert_eq!(reply, expected);
    assert_eq!(reply.len(), 42);
}

#[test]
fn arp_request_for_other_target_is_not_answered() {
    let st = station();
    let mut cache = AddressCache::new();
    let buf = arp_request_frame([0x02, 0, 0, 0, 0, 1], [192, 168, 1, 5], [192, 168, 1, 99]);
    assert!(handle_frame(&st, &buf, &mut cache).is_none());
    // the sender mapping is still learned
    assert_eq!(cache.lookup(&ip([192, 168, 1, 5])), Some(mac([0x02, 0, 0, 0, 0, 1])));
}

#[test]
fn arp_probe_learns_nothing() {
    let st = station();
    let mut cache = AddressCache::new();
    let buf = arp_request_frame([0x02, 0, 0, 0, 0, 1], [0, 0, 0, 0], STATION_IP);
    // a probe for the station's address is still answered
    assert!(handle_frame(&st, &buf, &mut cache).is_some());
    assert_eq!(cache.len(), 0);
}

#[test]
fn arp_reply_message_updates_cache_without_answer() {
    let st = station();
    let mut cache = AddressCache::new();
    let mut buf = arp_request_frame([0x02, 0, 0, 0, 0, 7], [10, 0, 0, 7], STATION_IP);
    buf[21] = 0x02; // operation: reply
    assert!(handle_frame(&st, &buf, &mut cache).is_none());
    assert_eq!(cache.lookup(&ip([10, 0, 0, 7])), Some(mac([0x02, 0, 0, 0, 0, 7])));
}

#[test]
fn cache_holds_eight_then_rejects_a_ninth() {
    let mut cache = AddressCache::new();
    for i in 0..8u8 {
        assert!(cache.insert(ip([10, 0, 0, i]), mac([2, 0, 0, 0, 0, i])));
    }
    assert_eq!(cache.len(), 8);
    assert!(!cache.insert(ip([10, 0, 0, 8]), mac([2, 0, 0, 0, 0, 8])));
    assert_eq!(cache.len(), 8);
    assert_eq!(cache.lookup(&ip([10, 0, 0, 8])), None);
    for i in 0..8u8 {
        assert_eq!(cache.lookup(&ip([10, 0, 0, i])), Some(mac([2, 0, 0, 0, 0, i])));
    }
    // an existing key is still overwritten at capacity
    assert!(cache.insert(ip([10, 0, 0, 3]), mac([2, 2, 2, 2, 2, 2])));
    assert_eq!(cache.len(), 8);
    assert_eq!(cache.lookup(&ip([10, 0, 0, 3])), Some(mac([2, 2, 2, 2, 2, 2])));
}

/// An Echo Request to the station: id 0x1234, seq 1, payload de ad be ef.
fn echo_request_frame(sender_mac: [u8; 6]) -> Vec<u8> {
    let mut b: Vec<u8> = Vec::new();
    b.extend_from_slice(&STATION_MAC);
    b.extend_from_slice(&sender_mac);
    b.extend_from_slice(&[0x08, 0x00]);
    // IPv4: total 32, ident abcd, flags 4000, ttl 64, proto 1, ck 0 (unchecked)
    b.extend_from_slice(&[0x45, 0x00, 0x00, 0x20, 0xab, 0xcd, 0x40, 0x00, 0x40, 0x01, 0x00, 0x00]);
    b.extend_from_slice(&[192, 168, 1, 5]);
    b.extend_from_slice(&STATION_IP);
    // ICMP echo request, ck 0 (unchecked), id 1234, seq 0001
    b.extend_from_slice(&[0x08, 0x00, 0x00, 0x00, 0x12, 0x34, 0x00, 0x01]);
    b.extend_from_slice(&[0xde, 0xad, 0xbe, 0xef]);
    b
}

#[test]
fn echo_request_round_trip() {
    let st = station();
    let mut cache = AddressCache::new();
    let sender_mac = [0x02, 0x00, 0x00, 0x00, 0x00, 0x01];
    let buf = echo_request_frame(sender_mac);
    let reply = handle_frame(&st, &buf, &mut cache).expect("a reply is owed");

    let mut expected: Vec<u8> = Vec::new();
    expected.extend_from_slice(&sender_mac);
    expected.extend_from_slice(&STATION_MAC);
    expected.extend_from_slice(&[0x08, 0x00]);
    // IPv4 header with recomputed checksum 0x0b99
    expected.extend_from_slice(&[
        0x45, 0x00, 0x00, 0x20, 0xab, 0xcd, 0x40, 0x00, 0x40, 0x01, 0x0b, 0x99,
    ]);
    expected.extend_from_slice(&STATION_IP);
    expected.extend_from_slice(&[192, 168, 1, 5]);
    // Echo Reply with recomputed checksum 0x502d, same id, seq, payload
    expected.extend_from_slice(&[0x00, 0x00, 0x50, 0x2d, 0x12, 0x34, 0x00, 0x01]);
    expected.extend_from_slice(&[0xde, 0xad, 0xbe, 0xef]);
    assert_eq!(reply, expected);
    assert_eq!(reply.len(), buf.len());
}

#[test]
fn icmp_non_echo_request_is_dropped() {
    let st = station();
    let mut cache = AddressCache::new();
    let mut buf = echo_request_frame([0x02, 0, 0, 0, 0, 1]);
    buf[34] = 0x00; // type: echo reply, not actionable
    assert!(handle_frame(&st, &buf, &mut cache).is_none());
}

/// A UDP datagram from port 5000 to port 7, payload "hi", inside a frame
/// padded to 60 bytes.
fn udp_frame(sender_mac: [u8; 6], pad_to: usize) -> Vec<u8> {
    let mut b: Vec<u8> = Vec::new();
    b.extend_from_slice(&STATION_MAC);
    b.extend_from_slice(&sender_mac);
    b.extend_from_slice(&[0x08, 0x00]);
    // IPv4: total 30, ident 0001, no flags, ttl 64, proto 17, ck 0 (unchecked)
    b.extend_from_slice(&[0x45, 0x00, 0x00, 0x1e, 0x00, 0x01, 0x00, 0x00, 0x40, 0x11, 0x00, 0x00]);
    b.extend_from_slice(&[10, 0, 0, 1]);
    b.extend_from_slice(&STATION_IP);
    // UDP: src 5000, dst 7, len 10, ck ffff (ignored)
    b.extend_from_slice(&[0x13, 0x88, 0x00, 0x07, 0x00, 0x0a, 0xff, 0xff]);
    b.extend_from_slice(&[0x68, 0x69]);
    while b.len() < pad_to {
        b.push(0);
    }
    b
}

#[test]
fn udp_is_mirrored_with_ports_swapped() {
    let st = station();
    let mut cache = AddressCache::new();
    let sender_mac = [0x02, 0x00, 0x00, 0x00, 0x00, 0x02];
    let buf = udp_frame(sender_mac, 60);
    let reply = handle_frame(&st, &buf, &mut cache).expect("a reply is owed");

    let mut expected: Vec<u8> = Vec::new();
    expected.extend_from_slice(&sender_mac);
    expected.extend_from_slice(&STATION_MAC);
    expected.extend_from_slice(&[0x08, 0x00]);
    // IPv4 header with recomputed checksum 0xaf04
    expected.extend_from_slice(&[
        0x45, 0x00, 0x00, 0x1e, 0x00, 0x01, 0x00, 0x00, 0x40, 0x11, 0xaf, 0x04,
    ]);
    expected.extend_from_slice(&STATION_IP);
    expected.extend_from_slice(&[10, 0, 0, 1]);
    // UDP with ports swapped and a zeroed checksum field
    expected.extend_from_slice(&[0x00, 0x07, 0x13, 0x88, 0x00, 0x0a, 0x00, 0x00]);
    expected.extend_from_slice(&[0x68, 0x69]);
    assert_eq!(reply, expected);
    // the padded 60-byte frame is answered by a frame truncated to 44 bytes
    assert_eq!(reply.len(), 44);
}

#[test]
fn udp_without_resolvable_sender_is_dropped() {
    let st = station();
    let mut cache = AddressCache::new();
    // broadcast source hardware address: nothing can be learned
    let buf = udp_frame([0xff; 6], 60);
    assert!(handle_frame(&st, &buf, &mut cache).is_none());
    assert_eq!(cache.len(), 0);
}

#[test]
fn udp_learns_sender_from_same_frame() {
    let st = station();
    let mut cache = AddressCache::new();
    let sender_mac = [0x02, 0x00, 0x00, 0x00, 0x00, 0x02];
    assert!(handle_frame(&st, &udp_frame(sender_mac, 60), &mut cache).is_some());
    assert_eq!(cache.lookup(&ip([10, 0, 0, 1])), Some(mac(sender_mac)));
}

#[test]
fn malformed_input_is_absorbed_at_every_stage() {
    let st = station();
    let mut cache = AddressCache::new();
    let cases: Vec<Vec<u8>> = vec![
        vec![],
        vec![0x00; 10],                       // too short for an Ethernet header
        vec![0x00; 2000],                     // longer than the receive buffer
        {
            let mut b = arp_request_frame([2, 0, 0, 0, 0, 1], [10, 0, 0, 1], STATION_IP);
            b.truncate(20);                   // ARP message cut short
            b
        },
        {
            let mut b = arp_request_frame([2, 0, 0, 0, 0, 1], [10, 0, 0, 1], STATION_IP);
            b[14] = 0x77;                     // foreign hardware type
            b
        },
        {
            let mut b = echo_request_frame([2, 0, 0, 0, 0, 1]);
            b[14] = 0x46;                     // header with options
            b
        },
        {
            let mut b = echo_request_frame([2, 0, 0, 0, 0, 1]);
            b[16] = 0xff;                     // total length past the buffer
            b
        },
        {
            let mut b = echo_request_frame([2, 0, 0, 0, 0, 1]);
            b.truncate(38);                   // ICMP header cut short
            b[16] = 0x00;
            b[17] = 0x18;                     // total length 24: ICMP part only 4 bytes
            b
        },
        {
            let mut b = udp_frame([2, 0, 0, 0, 0, 2], 0);
            b[38] = 0xff;                     // UDP length field past the datagram
            b
        },
        {
            let mut b = udp_frame([2, 0, 0, 0, 0, 2], 0);
            b[39] = 0x07;                     // UDP length field below the header size
            b[38] = 0x00;
            b
        },
        {
            let mut b = udp_frame([2, 0, 0, 0, 0, 2], 60);
            b[12] = 0x86;
            b[13] = 0xdd;                     // unhandled EtherType
            b
        },
    ];
    for buf in cases {
        assert!(handle_frame(&st, &buf, &mut cache).is_none());
    }
}
