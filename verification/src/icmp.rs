//! The ICMP message, read as an echo-style message: type, code, identifier,
//! sequence number, payload. Only the Echo Request variant is actionable.
//! The inbound checksum is not validated; every outbound message carries a
//! freshly computed checksum.

use vstd::prelude::*;
use crate::checksum::{checksum_of, internet_checksum};
use crate::wire::{be16, be16_bytes, read_be16, read_sub, push_be16, push_bytes,
    lemma_be16_roundtrip};

verus! {

/// ICMP type of an Echo Request.
pub const ICMP_ECHO_REQUEST: u8 = 8;

/// ICMP type of an Echo Reply.
pub const ICMP_ECHO_REPLY: u8 = 0;

/// Bytes of ICMP header ahead of the payload.
pub const ICMP_HEADER_LEN: usize = 8;

/// The mathematical image of an ICMP message.
#[verifier::ext_equal]
pub ghost struct IcmpModel {
    pub msg_type: u8,
    pub code: u8,
    pub identifier: u16,
    pub sequence: u16,
    pub payload: Seq<u8>,
}

/// An ICMP message as owned values.
pub struct IcmpMessage {
    pub msg_type: u8,
    pub code: u8,
    pub identifier: u16,
    pub sequence: u16,
    pub payload: Vec<u8>,
}

impl View for IcmpMessage {
    type V = IcmpModel;

    open spec fn view(&self) -> IcmpModel {
        IcmpModel {
            msg_type: self.msg_type,
            code: self.code,
            identifier: self.identifier,
            sequence: self.sequence,
            payload: self.payload@,
        }
    }
}

/// The one variant this system acts on.
pub open spec fn spec_is_echo_request(m: IcmpModel) -> bool {
    m.msg_type == ICMP_ECHO_REQUEST && m.code == 0
}

/// Whether a byte string is accepted as an ICMP message: it must hold the
/// full 8-byte header.
pub open spec fn icmp_parse_ok(b: Seq<u8>) -> bool {
    b.len() >= 8
}

/// The message read from an accepted byte string.
pub open spec fn spec_parse_icmp(b: Seq<u8>) -> IcmpModel {
    IcmpModel {
        msg_type: b[0],
        code: b[1],
        identifier: be16(b[4], b[5]),
        sequence: be16(b[6], b[7]),
        payload: b.skip(8),
    }
}

/// The bytes of a message carrying the given checksum field.
pub open spec fn icmp_raw_bytes(m: IcmpModel, ck: u16) -> Seq<u8> {
    seq![m.msg_type, m.code] + be16_bytes(ck) + be16_bytes(m.identifier) + be16_bytes(m.sequence)
        + m.payload
}

/// The checksum an outbound message must carry: the internet checksum of the
/// message with a zeroed checksum field.
pub open spec fn icmp_checksum(m: IcmpModel) -> u16 {
    checksum_of(icmp_raw_bytes(m, 0))
}

/// The encoding of a message, with its checksum computed.
pub open spec fn icmp_bytes(m: IcmpModel) -> Seq<u8> {
    icmp_raw_bytes(m, icmp_checksum(m))
}

/// The Echo Reply owed to an echo request: same identifier, sequence number
/// and payload, type changed to Echo Reply.
pub open spec fn spec_echo_reply(m: IcmpModel) -> IcmpModel {
    IcmpModel {
        msg_type: ICMP_ECHO_REPLY,
        code: 0,
        identifier: m.identifier,
        sequence: m.sequence,
        payload: m.payload,
    }
}

/// Parses an ICMP message from an IPv4 payload.
pub fn parse_icmp(b: &Vec<u8>) -> (r: Option<IcmpMessage>)
    ensures
        match r {
            Some(m) => icmp_parse_ok(b@) && m@ == spec_parse_icmp(b@),
            None => !icmp_parse_ok(b@),
        },
{
    let n = b.len();
    if n < 8 {
        return None;
    }
    Some(
        IcmpMessage {
            msg_type: b[0],
            code: b[1],
            identifier: read_be16(b, 4),
            sequence: read_be16(b, 6),
            payload: read_sub(b, 8, n),
        },
    )
}

fn push_icmp_raw(out: &mut Vec<u8>, m: &IcmpMessage, ck: u16)
    ensures
        final(out)@ == old(out)@ + icmp_raw_bytes(m@, ck),
{
    out.push(m.msg_type);
    out.push(m.code);
    push_be16(out, ck);
    push_be16(out, m.identifier);
    push_be16(out, m.sequence);
    push_bytes(out, &m.payload);
    proof {
        assert(out@ =~= old(out)@ + icmp_raw_bytes(m@, ck));
    }
}

/// Encodes a message for transmission, computing its checksum.
pub fn encode_icmp(m: &IcmpMessage) -> (r: Vec<u8>)
    requires
        m@.payload.len() + 8 <= 65535,
    ensures
        r@ == icmp_bytes(m@),
{
    let mut zeroed: Vec<u8> = Vec::new();
    push_icmp_raw(&mut zeroed, m, 0);
    let ck = internet_checksum(&zeroed);
    let mut out: Vec<u8> = Vec::new();
    push_icmp_raw(&mut out, m, ck);
    proof {
        assert(zeroed@ =~= icmp_raw_bytes(m@, 0));
        assert(out@ =~= icmp_bytes(m@));
    }
    out
}

/// Parsing an encoded message gives back the message.
pub proof fn lemma_icmp_roundtrip(m: IcmpModel)
    ensures
        icmp_parse_ok(icmp_bytes(m)),
        spec_parse_icmp(icmp_bytes(m)) == m,
{
    let b = icmp_bytes(m);
    assert(b.len() == 8 + m.payload.len());
    lemma_be16_roundtrip(m.identifier);
    lemma_be16_roundtrip(m.sequence);
    assert(b[0] == m.msg_type && b[1] == m.code);
    assert(b.skip(8) =~= m.payload);
    assert(spec_parse_icmp(b) =~= m);
}

} // verus!
