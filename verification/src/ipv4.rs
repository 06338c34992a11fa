//! The IPv4 datagram: a 20-byte header without options, then the payload.
//! The inbound header checksum is not validated (matching the consumed codec
//! contract); every outbound header carries a freshly computed checksum.

use vstd::prelude::*;
use crate::addr::Ipv4Address;
use crate::checksum::{checksum_of, internet_checksum};
use crate::wire::{be16, be16_bytes, ip_at, read_be16, read_ip, read_sub, push_be16, push_ip,
    push_bytes, lemma_be16_roundtrip};

verus! {

/// IPv4 protocol number of ICMP.
pub const PROTO_ICMP: u8 = 1;

/// IPv4 protocol number of UDP.
pub const PROTO_UDP: u8 = 17;

/// First header byte: version 4, header length 5 words (no options).
pub const VERSION_IHL: u8 = 0x45;

/// Bytes of IPv4 header ahead of the payload.
pub const IPV4_HEADER_LEN: usize = 20;

/// The mathematical image of an IPv4 datagram. The total length is implicit:
/// always 20 plus the payload length.
#[verifier::ext_equal]
pub ghost struct DatagramModel {
    pub tos: u8,
    pub ident: u16,
    pub flags_frag: u16,
    pub ttl: u8,
    pub protocol: u8,
    pub src: Ipv4Address,
    pub dst: Ipv4Address,
    pub payload: Seq<u8>,
}

/// An IPv4 datagram as owned values.
pub struct Ipv4Datagram {
    pub tos: u8,
    pub ident: u16,
    pub flags_frag: u16,
    pub ttl: u8,
    pub protocol: u8,
    pub src: Ipv4Address,
    pub dst: Ipv4Address,
    pub payload: Vec<u8>,
}

impl View for Ipv4Datagram {
    type V = DatagramModel;

    open spec fn view(&self) -> DatagramModel {
        DatagramModel {
            tos: self.tos,
            ident: self.ident,
            flags_frag: self.flags_frag,
            ttl: self.ttl,
            protocol: self.protocol,
            src: self.src,
            dst: self.dst,
            payload: self.payload@,
        }
    }
}

/// The total-length field of an encoded datagram at `b`.
pub open spec fn ipv4_total_len(b: Seq<u8>) -> int {
    be16(b[2], b[3]) as int
}

/// Whether a byte string is accepted as an IPv4 datagram: a full option-free
/// header, and a total-length field that covers the header and fits the
/// buffer. Bytes past the total length (frame padding) are ignored.
pub open spec fn ipv4_parse_ok(b: Seq<u8>) -> bool {
    b.len() >= 20 && b[0] == VERSION_IHL && 20 <= ipv4_total_len(b) && ipv4_total_len(b) <= b.len()
}

/// The datagram read from an accepted byte string; the payload is truncated
/// to the total length the header declares.
pub open spec fn spec_parse_ipv4(b: Seq<u8>) -> DatagramModel {
    DatagramModel {
        tos: b[1],
        ident: be16(b[4], b[5]),
        flags_frag: be16(b[6], b[7]),
        ttl: b[8],
        protocol: b[9],
        src: ip_at(b, 12),
        dst: ip_at(b, 16),
        payload: b.subrange(20, ipv4_total_len(b)),
    }
}

/// The 20 header bytes of a datagram, carrying the given checksum field.
pub open spec fn ipv4_header_bytes(m: DatagramModel, ck: u16) -> Seq<u8> {
    seq![VERSION_IHL, m.tos] + be16_bytes((20 + m.payload.len()) as u16) + be16_bytes(m.ident)
        + be16_bytes(m.flags_frag) + seq![m.ttl, m.protocol] + be16_bytes(ck) + m.src.bytes()
        + m.dst.bytes()
}

/// The checksum an outbound header must carry: the internet checksum of the
/// header with a zeroed checksum field.
pub open spec fn ipv4_checksum(m: DatagramModel) -> u16 {
    checksum_of(ipv4_header_bytes(m, 0))
}

/// The encoding of a datagram: header with its checksum, then the payload.
pub open spec fn ipv4_bytes(m: DatagramModel) -> Seq<u8> {
    ipv4_header_bytes(m, ipv4_checksum(m)) + m.payload
}

/// Parses an IPv4 datagram from an Ethernet payload.
pub fn parse_ipv4(b: &Vec<u8>) -> (r: Option<Ipv4Datagram>)
    ensures
        match r {
            Some(d) => ipv4_parse_ok(b@) && d@ == spec_parse_ipv4(b@),
            None => !ipv4_parse_ok(b@),
        },
{
    let n = b.len();
    if n < 20 {
        return None;
    }
    if b[0] != VERSION_IHL {
        return None;
    }
    let total = read_be16(b, 2) as usize;
    if total < 20 || total > n {
        return None;
    }
    Some(
        Ipv4Datagram {
            tos: b[1],
            ident: read_be16(b, 4),
            flags_frag: read_be16(b, 6),
            ttl: b[8],
            protocol: b[9],
            src: read_ip(b, 12),
            dst: read_ip(b, 16),
            payload: read_sub(b, 20, total),
        },
    )
}

/// Writes the 20 header bytes of `d` with checksum field `ck`.
fn push_ipv4_header(out: &mut Vec<u8>, d: &Ipv4Datagram, ck: u16)
    requires
        d@.payload.len() + 20 <= 65535,
    ensures
        final(out)@ == old(out)@ + ipv4_header_bytes(d@, ck),
{
    out.push(VERSION_IHL);
    out.push(d.tos);
    push_be16(out, 20 + d.payload.len() as u16);
    push_be16(out, d.ident);
    push_be16(out, d.flags_frag);
    out.push(d.ttl);
    out.push(d.protocol);
    push_be16(out, ck);
    push_ip(out, &d.src);
    push_ip(out, &d.dst);
    proof {
        assert(out@ =~= old(out)@ + ipv4_header_bytes(d@, ck));
    }
}

/// Encodes a datagram for transmission, computing the header checksum.
pub fn encode_ipv4(d: &Ipv4Datagram) -> (r: Vec<u8>)
    requires
        d@.payload.len() + 20 <= 65535,
    ensures
        r@ == ipv4_bytes(d@),
{
    let mut zeroed: Vec<u8> = Vec::new();
    push_ipv4_header(&mut zeroed, d, 0);
    let ck = internet_checksum(&zeroed);
    let mut out: Vec<u8> = Vec::new();
    push_ipv4_header(&mut out, d, ck);
    push_bytes(&mut out, &d.payload);
    proof {
        assert(zeroed@ =~= ipv4_header_bytes(d@, 0));
        assert(out@ =~= ipv4_bytes(d@));
    }
    out
}

/// Parsing an encoded datagram gives back the datagram.
pub proof fn lemma_ipv4_roundtrip(m: DatagramModel)
    requires
        m.payload.len() + 20 <= 65535,
    ensures
        ipv4_parse_ok(ipv4_bytes(m)),
        spec_parse_ipv4(ipv4_bytes(m)) == m,
{
    let b = ipv4_bytes(m);
    let total: u16 = (20 + m.payload.len()) as u16;
    assert(b.len() == 20 + m.payload.len());
    lemma_be16_roundtrip(total);
    lemma_be16_roundtrip(m.ident);
    lemma_be16_roundtrip(m.flags_frag);
    assert(b[0] == VERSION_IHL && b[1] == m.tos);
    assert(b[8] == m.ttl && b[9] == m.protocol);
    assert(ipv4_total_len(b) == total as int);
    assert(ip_at(b, 12) == m.src);
    assert(ip_at(b, 16) == m.dst);
    assert(b.subrange(20, ipv4_total_len(b)) =~= m.payload);
    assert(spec_parse_ipv4(b) =~= m);
}

} // verus!
