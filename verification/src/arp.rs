//! The Address Resolution Protocol message: operation, type tags, and the
//! sender and target address pairs. Only Ethernet/IPv4 ARP is accepted.

use vstd::prelude::*;
use crate::addr::{HardwareAddress, Ipv4Address, Station};
use crate::wire::{be16, be16_bytes, mac_at, ip_at, read_be16, read_mac, read_ip, push_be16,
    push_mac, push_ip, lemma_be16_roundtrip};

verus! {

/// ARP operation: request.
pub const OPER_REQUEST: u16 = 1;

/// ARP operation: reply.
pub const OPER_REPLY: u16 = 2;

/// ARP hardware type tag for Ethernet.
pub const HTYPE_ETHERNET: u16 = 1;

/// ARP protocol type tag for IPv4.
pub const PTYPE_IPV4: u16 = 0x0800;

/// Encoded size of an Ethernet/IPv4 ARP message.
pub const ARP_LEN: usize = 28;

/// An ARP message with Ethernet hardware addresses and IPv4 protocol
/// addresses.
#[derive(Clone, Copy, PartialEq, Eq, Structural, Debug)]
pub struct ArpMessage {
    pub htype: u16,
    pub ptype: u16,
    pub hlen: u8,
    pub plen: u8,
    pub oper: u16,
    pub sha: HardwareAddress,
    pub spa: Ipv4Address,
    pub tha: HardwareAddress,
    pub tpa: Ipv4Address,
}

/// Why an ARP payload was not accepted.
#[derive(Clone, Copy, PartialEq, Eq, Structural, Debug)]
pub enum ArpError {
    /// The payload ends before the message does.
    TooShort,
    /// Well-formed, but not an Ethernet/IPv4 ARP message.
    NotEthernetIpv4,
}

/// The type tags this system accepts, with their fixed address lengths.
pub open spec fn arp_wf(m: ArpMessage) -> bool {
    m.htype == HTYPE_ETHERNET && m.ptype == PTYPE_IPV4 && m.hlen == 6 && m.plen == 4
}

/// What parsing an ARP payload yields: the message, or the reason it was
/// dropped. Bytes past the encoded message (frame padding) are ignored.
pub open spec fn arp_parse_result(b: Seq<u8>) -> Result<ArpMessage, ArpError> {
    if b.len() < 8 {
        Err(ArpError::TooShort)
    } else if !(be16(b[0], b[1]) == HTYPE_ETHERNET && be16(b[2], b[3]) == PTYPE_IPV4 && b[4] == 6
        && b[5] == 4) {
        Err(ArpError::NotEthernetIpv4)
    } else if b.len() < 28 {
        Err(ArpError::TooShort)
    } else {
        Ok(
            ArpMessage {
                htype: HTYPE_ETHERNET,
                ptype: PTYPE_IPV4,
                hlen: 6,
                plen: 4,
                oper: be16(b[6], b[7]),
                sha: mac_at(b, 8),
                spa: ip_at(b, 14),
                tha: mac_at(b, 18),
                tpa: ip_at(b, 24),
            },
        )
    }
}

/// The 28-byte encoding of an ARP message.
pub open spec fn arp_bytes(m: ArpMessage) -> Seq<u8> {
    be16_bytes(m.htype) + be16_bytes(m.ptype) + seq![m.hlen, m.plen] + be16_bytes(m.oper)
        + m.sha.bytes() + m.spa.bytes() + m.tha.bytes() + m.tpa.bytes()
}

/// The reply the station owes to an accepted request `m`: roles swapped, the
/// station's own addresses as sender, the original sender as target.
pub open spec fn arp_reply_to(st: Station, m: ArpMessage) -> ArpMessage {
    ArpMessage {
        htype: HTYPE_ETHERNET,
        ptype: PTYPE_IPV4,
        hlen: 6,
        plen: 4,
        oper: OPER_REPLY,
        sha: st.mac,
        spa: st.ip,
        tha: m.sha,
        tpa: m.spa,
    }
}

/// Parses an Ethernet/IPv4 ARP message from an Ethernet payload.
pub fn parse_arp(b: &Vec<u8>) -> (r: Result<ArpMessage, ArpError>)
    ensures
        r == arp_parse_result(b@),
{
    let n = b.len();
    if n < 8 {
        return Err(ArpError::TooShort);
    }
    if !(read_be16(b, 0) == HTYPE_ETHERNET && read_be16(b, 2) == PTYPE_IPV4 && b[4] == 6 && b[5]
        == 4) {
        return Err(ArpError::NotEthernetIpv4);
    }
    if n < 28 {
        return Err(ArpError::TooShort);
    }
    Ok(
        ArpMessage {
            htype: HTYPE_ETHERNET,
            ptype: PTYPE_IPV4,
            hlen: 6,
            plen: 4,
            oper: read_be16(b, 6),
            sha: read_mac(b, 8),
            spa: read_ip(b, 14),
            tha: read_mac(b, 18),
            tpa: read_ip(b, 24),
        },
    )
}

/// Encodes an ARP message into its 28 bytes.
pub fn encode_arp(m: &ArpMessage) -> (r: Vec<u8>)
    ensures
        r@ == arp_bytes(*m),
        r@.len() == 28,
{
    let mut out: Vec<u8> = Vec::new();
    push_be16(&mut out, m.htype);
    push_be16(&mut out, m.ptype);
    out.push(m.hlen);
    out.push(m.plen);
    push_be16(&mut out, m.oper);
    push_mac(&mut out, &m.sha);
    push_ip(&mut out, &m.spa);
    push_mac(&mut out, &m.tha);
    push_ip(&mut out, &m.tpa);
    proof {
        assert(out@ =~= arp_bytes(*m));
    }
    out
}

/// Parsing an encoded Ethernet/IPv4 ARP message gives back the message.
pub proof fn lemma_arp_roundtrip(m: ArpMessage)
    requires
        arp_wf(m),
    ensures
        arp_parse_result(arp_bytes(m)) == Ok::<ArpMessage, ArpError>(m),
{
    let b = arp_bytes(m);
    assert(b.len() == 28);
    lemma_be16_roundtrip(m.htype);
    lemma_be16_roundtrip(m.ptype);
    lemma_be16_roundtrip(m.oper);
    assert(b[4] == m.hlen && b[5] == m.plen);
    assert(mac_at(b, 8) == m.sha);
    assert(ip_at(b, 14) == m.spa);
    assert(mac_at(b, 18) == m.tha);
    assert(ip_at(b, 24) == m.tpa);
}

} // verus!
