//! The UDP datagram: source and destination ports, a checksum field that may
//! be zero (unused over IPv4), and the payload. The length field is implicit
//! in the model: always 8 plus the payload length.

use vstd::prelude::*;
use crate::wire::{be16, be16_bytes, read_be16, read_sub, push_be16, push_bytes,
    lemma_be16_roundtrip};

verus! {

/// Bytes of UDP header ahead of the payload.
pub const UDP_HEADER_LEN: usize = 8;

/// The mathematical image of a UDP datagram.
#[verifier::ext_equal]
pub ghost struct UdpModel {
    pub src_port: u16,
    pub dst_port: u16,
    pub checksum: u16,
    pub payload: Seq<u8>,
}

/// A UDP datagram as owned values.
pub struct UdpDatagram {
    pub src_port: u16,
    pub dst_port: u16,
    pub checksum: u16,
    pub payload: Vec<u8>,
}

impl View for UdpDatagram {
    type V = UdpModel;

    open spec fn view(&self) -> UdpModel {
        UdpModel {
            src_port: self.src_port,
            dst_port: self.dst_port,
            checksum: self.checksum,
            payload: self.payload@,
        }
    }
}

/// The length field of an encoded datagram at `b`.
pub open spec fn udp_total_len(b: Seq<u8>) -> int {
    be16(b[4], b[5]) as int
}

/// Whether a byte string is accepted as a UDP datagram: a full header, and a
/// length field that covers the header and fits the buffer. Bytes past the
/// declared length (padding) are ignored.
pub open spec fn udp_parse_ok(b: Seq<u8>) -> bool {
    b.len() >= 8 && 8 <= udp_total_len(b) && udp_total_len(b) <= b.len()
}

/// The datagram read from an accepted byte string; the payload is truncated
/// to the length the header declares.
pub open spec fn spec_parse_udp(b: Seq<u8>) -> UdpModel {
    UdpModel {
        src_port: be16(b[0], b[1]),
        dst_port: be16(b[2], b[3]),
        checksum: be16(b[6], b[7]),
        payload: b.subrange(8, udp_total_len(b)),
    }
}

/// The encoding of a datagram; the checksum field is written as stored.
pub open spec fn udp_bytes(m: UdpModel) -> Seq<u8> {
    be16_bytes(m.src_port) + be16_bytes(m.dst_port) + be16_bytes((8 + m.payload.len()) as u16)
        + be16_bytes(m.checksum) + m.payload
}

/// The datagram mirrored back to its sender: ports swapped, checksum cleared
/// (it is optional over IPv4), payload unchanged.
pub open spec fn spec_udp_echo(m: UdpModel) -> UdpModel {
    UdpModel { src_port: m.dst_port, dst_port: m.src_port, checksum: 0, payload: m.payload }
}

/// Parses a UDP datagram from an IPv4 payload.
pub fn parse_udp(b: &Vec<u8>) -> (r: Option<UdpDatagram>)
    ensures
        match r {
            Some(d) => udp_parse_ok(b@) && d@ == spec_parse_udp(b@),
            None => !udp_parse_ok(b@),
        },
{
    let n = b.len();
    if n < 8 {
        return None;
    }
    let total = read_be16(b, 4) as usize;
    if total < 8 || total > n {
        return None;
    }
    Some(
        UdpDatagram {
            src_port: read_be16(b, 0),
            dst_port: read_be16(b, 2),
            checksum: read_be16(b, 6),
            payload: read_sub(b, 8, total),
        },
    )
}

/// Encodes a datagram for transmission.
pub fn encode_udp(d: &UdpDatagram) -> (r: Vec<u8>)
    requires
        d@.payload.len() + 8 <= 65535,
    ensures
        r@ == udp_bytes(d@),
{
    let mut out: Vec<u8> = Vec::new();
    push_be16(&mut out, d.src_port);
    push_be16(&mut out, d.dst_port);
    push_be16(&mut out, 8 + d.payload.len() as u16);
    push_be16(&mut out, d.checksum);
    push_bytes(&mut out, &d.payload);
    proof {
        assert(out@ =~= udp_bytes(d@));
    }
    out
}

/// Parsing an encoded datagram gives back the datagram.
pub proof fn lemma_udp_roundtrip(m: UdpModel)
    requires
        m.payload.len() + 8 <= 65535,
    ensures
        udp_parse_ok(udp_bytes(m)),
        spec_parse_udp(udp_bytes(m)) == m,
{
    let b = udp_bytes(m);
    let total: u16 = (8 + m.payload.len()) as u16;
    assert(b.len() == 8 + m.payload.len());
    lemma_be16_roundtrip(m.src_port);
    lemma_be16_roundtrip(m.dst_port);
    lemma_be16_roundtrip(total);
    lemma_be16_roundtrip(m.checksum);
    assert(udp_total_len(b) == total as int);
    assert(b.subrange(8, udp_total_len(b)) =~= m.payload);
    assert(spec_parse_udp(b) =~= m);
}

} // verus!
