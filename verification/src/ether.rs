//! Ethernet II framing: destination and source hardware addresses, an
//! EtherType tag, and the payload.

use vstd::prelude::*;
use crate::addr::HardwareAddress;
use crate::wire::{be16, be16_bytes, mac_at, read_be16, read_mac, read_sub, push_be16, push_mac,
    push_bytes, lemma_be16_roundtrip};

verus! {

/// EtherType of the Address Resolution Protocol.
pub const ETHERTYPE_ARP: u16 = 0x0806;

/// EtherType of the Internet Protocol, version 4.
pub const ETHERTYPE_IPV4: u16 = 0x0800;

/// Largest frame the receive buffer can hold.
pub const MTU: usize = 1518;

/// Bytes of Ethernet header ahead of the payload.
pub const ETHER_HEADER_LEN: usize = 14;

/// The mathematical image of an Ethernet frame.
#[verifier::ext_equal]
pub ghost struct FrameModel {
    pub dst: HardwareAddress,
    pub src: HardwareAddress,
    pub ethertype: u16,
    pub payload: Seq<u8>,
}

/// An Ethernet frame as owned values.
pub struct EthernetFrame {
    pub dst: HardwareAddress,
    pub src: HardwareAddress,
    pub ethertype: u16,
    pub payload: Vec<u8>,
}

impl View for EthernetFrame {
    type V = FrameModel;

    open spec fn view(&self) -> FrameModel {
        FrameModel {
            dst: self.dst,
            src: self.src,
            ethertype: self.ethertype,
            payload: self.payload@,
        }
    }
}

/// Whether a received byte string is accepted as an Ethernet frame: it must
/// hold a full header and fit the receive buffer.
pub open spec fn frame_parse_ok(b: Seq<u8>) -> bool {
    14 <= b.len() && b.len() <= 1518
}

/// The frame read from an accepted byte string.
pub open spec fn spec_parse_frame(b: Seq<u8>) -> FrameModel {
    FrameModel {
        dst: mac_at(b, 0),
        src: mac_at(b, 6),
        ethertype: be16(b[12], b[13]),
        payload: b.skip(14),
    }
}

/// The encoding of a frame: header then payload, nothing else.
pub open spec fn frame_bytes(m: FrameModel) -> Seq<u8> {
    m.dst.bytes() + m.src.bytes() + be16_bytes(m.ethertype) + m.payload
}

/// Parses an Ethernet frame from the filled part of the receive buffer.
pub fn parse_frame(b: &Vec<u8>) -> (r: Option<EthernetFrame>)
    ensures
        match r {
            Some(f) => frame_parse_ok(b@) && f@ == spec_parse_frame(b@),
            None => !frame_parse_ok(b@),
        },
{
    let n = b.len();
    if n < 14 || n > 1518 {
        return None;
    }
    let f = EthernetFrame {
        dst: read_mac(b, 0),
        src: read_mac(b, 6),
        ethertype: read_be16(b, 12),
        payload: read_sub(b, 14, n),
    };
    proof {
        assert(b@.subrange(14, n as int) =~= b@.skip(14));
    }
    Some(f)
}

/// Encodes a frame for transmission; the result holds exactly the header and
/// the payload.
pub fn encode_frame(f: &EthernetFrame) -> (r: Vec<u8>)
    ensures
        r@ == frame_bytes(f@),
{
    let mut out: Vec<u8> = Vec::new();
    push_mac(&mut out, &f.dst);
    push_mac(&mut out, &f.src);
    push_be16(&mut out, f.ethertype);
    push_bytes(&mut out, &f.payload);
    proof {
        assert(out@ =~= frame_bytes(f@));
    }
    out
}

/// Parsing an encoded frame gives back the frame, whenever it fits the
/// receive buffer.
pub proof fn lemma_frame_roundtrip(m: FrameModel)
    requires
        m.payload.len() + 14 <= 1518,
    ensures
        frame_parse_ok(frame_bytes(m)),
        spec_parse_frame(frame_bytes(m)) == m,
{
    let b = frame_bytes(m);
    assert(b.len() == 14 + m.payload.len());
    lemma_be16_roundtrip(m.ethertype);
    assert(mac_at(b, 0) == m.dst);
    assert(mac_at(b, 6) == m.src);
    assert(b[12] == be16_bytes(m.ethertype)[0]);
    assert(b[13] == be16_bytes(m.ethertype)[1]);
    assert(b.skip(14) =~= m.payload);
    assert(spec_parse_frame(b) =~= m);
}

} // verus!
