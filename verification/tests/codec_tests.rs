use netecho::addr::{HardwareAddress, Ipv4Address};
use netecho::checksum::internet_checksum;
use netecho::ether::{EthernetFrame, parse_frame, encode_frame};
use netecho::arp::{parse_arp, encode_arp, ArpMessage, ArpError};
use netecho::ipv4::parse_ipv4;
use netecho::icmp::parse_icmp;
use netecho::udp::parse_udp;

fn mac(b: [u8; 6]) -> HardwareAddress {
    HardwareAddress { b0: b[0], b1: b[1], b2: b[2], b3: b[3], b4: b[4], b5: b[5] }
}

fn ip(o: [u8; 4]) -> Ipv4Address {
    Ipv4Address { o0: o[0], o1: o[1], o2: o[2], o3: o[3] }
}

#[test]
fn checksum_of_known_values() {
    assert_eq!(internet_checksum(&vec![]), 0xffff);
    assert_eq!(internet_checksum(&vec![0x00, 0x01]), 0xfffe);
    // a trailing odd byte is padded with a zero low byte
    assert_eq!(internet_checksum(&vec![0x01]), 0xfeff);
    // a positive sum on the 65535 boundary folds to 65535, not to zero
    assert_eq!(internet_checksum(&vec![0xff, 0xff]), 0x0000);
    assert_eq!(internet_checksum(&vec![0xff, 0xff, 0xff, 0xff]), 0x0000);
    // end-around carry: 0xffff + 0x0003 folds to 0x0003
    assert_eq!(internet_checksum(&vec![0xff, 0xff, 0x00, 0x03]), 0xfffc);
}

#[test]
fn frame_codec_round_trip() {
    let f = EthernetFrame {
        dst: mac([1, 2, 3, 4, 5, 6]),
        src: mac([7, 8, 9, 10, 11, 12]),
        ethertype: 0x0800,
        payload: vec![0xaa; 50],
    };
    let b = encode_frame(&f);
    assert_eq!(b.len(), 64);
    let g = parse_frame(&b).expect("encoded frame parses");
    assert_eq!(g.dst, f.dst);
    assert_eq!(g.src, f.src);
    assert_eq!(g.ethertype, 0x0800);
    assert_eq!(g.payload, vec![0xaa; 50]);
}

#[test]
fn frame_parse_rejects_bad_lengths() {
    assert!(parse_frame(&vec![0u8; 13]).is_none());
    assert!(parse_frame(&vec![0u8; 14]).is_some());
    assert!(parse_frame(&vec![0u8; 1518]).is_some());
    assert!(parse_frame(&vec![0u8; 1519]).is_none());
}

#[test]
fn arp_codec_round_trip() {
    let m = ArpMessage {
        htype: 1,
        ptype: 0x0800,
        hlen: 6,
        plen: 4,
        oper: 1,
        sha: mac([2, 0, 0, 0, 0, 1]),
        spa: ip([10, 0, 0, 1]),
        tha: mac([0, 0, 0, 0, 0, 0]),
        tpa: ip([192, 168, 1, 33]),
    };
    let b = encode_arp(&m);
    assert_eq!(b.len(), 28);
    assert_eq!(parse_arp(&b), Ok(m));
}

#[test]
fn arp_parse_error_variants() {
    assert_eq!(parse_arp(&vec![0u8; 7]), Err(ArpError::TooShort));
    // right tags, but the message ends before the addresses do
    let b = vec![0x00, 0x01, 0x08, 0x00, 0x06, 0x04, 0x00, 0x01, 0xaa, 0xbb];
    assert_eq!(parse_arp(&b), Err(ArpError::TooShort));
    // an IPX-over-Ethernet ARP message is well-formed but out of scope
    let mut c = vec![0x00, 0x01, 0x81, 0x37, 0x06, 0x04, 0x00, 0x01];
    c.resize(28, 0);
    assert_eq!(parse_arp(&c), Err(ArpError::NotEthernetIpv4));
}

#[test]
fn ipv4_parse_reads_header_and_truncates_payload() {
    let mut b = vec![
        0x45, 0x1c, 0x00, 0x19, 0xde, 0xad, 0x40, 0x00, 0x2a, 0x11, 0x12, 0x34,
    ];
    b.extend_from_slice(&[10, 0, 0, 1]);
    b.extend_from_slice(&[10, 0, 0, 2]);
    b.extend_from_slice(&[0x55; 5]); // 5 payload bytes: total length 25
    b.extend_from_slice(&[0x00; 7]); // padding past the total length
    let d = parse_ipv4(&b).expect("well-formed datagram");
    assert_eq!(d.tos, 0x1c);
    assert_eq!(d.ident, 0xdead);
    assert_eq!(d.flags_frag, 0x4000);
    assert_eq!(d.ttl, 0x2a);
    assert_eq!(d.protocol, 17);
    assert_eq!(d.src, ip([10, 0, 0, 1]));
    assert_eq!(d.dst, ip([10, 0, 0, 2]));
    assert_eq!(d.payload, vec![0x55; 5]);
}

#[test]
fn icmp_parse_reads_echo_fields() {
    let b = vec![0x08, 0x00, 0x12, 0x34, 0xab, 0xcd, 0x00, 0x02, 0x68, 0x69];
    let m = parse_icmp(&b).expect("well-formed message");
    assert_eq!(m.msg_type, 8);
    assert_eq!(m.code, 0);
    assert_eq!(m.identifier, 0xabcd);
    assert_eq!(m.sequence, 2);
    assert_eq!(m.payload, vec![0x68, 0x69]);
    assert!(parse_icmp(&vec![0u8; 7]).is_none());
}

#[test]
fn udp_parse_reads_ports_and_truncates_payload() {
    let b = vec![0x13, 0x88, 0x00, 0x07, 0x00, 0x09, 0xfe, 0xdc, 0x68, 0x69];
    let d = parse_udp(&b).expect("well-formed datagram");
    assert_eq!(d.src_port, 5000);
    assert_eq!(d.dst_port, 7);
    assert_eq!(d.checksum, 0xfedc);
    // the length field (9) truncates the payload to one byte
    assert_eq!(d.payload, vec![0x68]);
}

#[test]
fn hardware_address_key_round_trip() {
    let a = mac([0x48, 0x69, 0x52, 0x75, 0x73, 0x74]);
    assert_eq!(a.to_key(), 0x4869_5275_7374);
    assert_eq!(HardwareAddress::from_key(a.to_key()), a);
    assert!(mac([0xff; 6]).is_broadcast());
    assert!(!a.is_broadcast());
    assert!(ip([0, 0, 0, 0]).is_unspecified());
    assert!(!ip([0, 0, 0, 1]).is_unspecified());
    assert_eq!(ip([192, 168, 1, 33]).to_key(), 0xc0a8_0121);
}
