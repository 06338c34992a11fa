//! The protocol responders and the frame dispatcher: classify an inbound
//! frame, learn address mappings, and synthesize the reply frame, if one is
//! owed. Each handler's effect is pinned by a model-level transition
//! function.

use vstd::prelude::*;
use crate::addr::{HardwareAddress, Station};
use crate::cache::{AddressCache, spec_cache_insert};
use crate::ether::{EthernetFrame, FrameModel, frame_parse_ok, spec_parse_frame, frame_bytes,
    parse_frame, encode_frame, ETHERTYPE_ARP, ETHERTYPE_IPV4};
use crate::arp::{ArpMessage, arp_parse_result, arp_bytes, arp_reply_to, parse_arp, encode_arp,
    OPER_REQUEST, OPER_REPLY};
use crate::ipv4::{Ipv4Datagram, DatagramModel, ipv4_parse_ok, spec_parse_ipv4, ipv4_bytes,
    parse_ipv4, encode_ipv4, PROTO_ICMP, PROTO_UDP};
use crate::icmp::{IcmpMessage, IcmpModel, icmp_parse_ok, spec_parse_icmp, icmp_bytes,
    spec_is_echo_request, spec_echo_reply, parse_icmp, encode_icmp, ICMP_ECHO_REQUEST,
    ICMP_ECHO_REPLY};
use crate::udp::{UdpDatagram, UdpModel, udp_parse_ok, spec_parse_udp, udp_bytes, spec_udp_echo,
    parse_udp, encode_udp};
use crate::addr::lemma_hw_from_key_of_key;

verus! {

/// What one inbound byte string does to the station: the cache afterwards,
/// and the reply frame to transmit, if any.
#[verifier::ext_equal]
pub ghost struct Step {
    pub cache: Map<u32, u64>,
    pub reply: Option<Seq<u8>>,
}

/// The cache after the ARP responder's learning step: the sender mapping is
/// recorded unless the message is a probe (unspecified sender protocol
/// address).
pub open spec fn learned_from_arp(cache: Map<u32, u64>, m: ArpMessage) -> Map<u32, u64> {
    if !m.spa.spec_is_unspecified() {
        spec_cache_insert(cache, m.spa.key(), m.sha.key())
    } else {
        cache
    }
}

/// The cache after the IPv4 responder's learning step: the datagram source is
/// mapped to the frame's source hardware address, unless that is the
/// broadcast address.
pub open spec fn learned_from_ipv4(
    cache: Map<u32, u64>,
    src_hw: HardwareAddress,
    d: DatagramModel,
) -> Map<u32, u64> {
    if !src_hw.spec_is_broadcast() {
        spec_cache_insert(cache, d.src.key(), src_hw.key())
    } else {
        cache
    }
}

/// What the ARP responder does with an Ethernet payload.
pub open spec fn spec_handle_arp(st: Station, cache: Map<u32, u64>, payload: Seq<u8>) -> Step {
    match arp_parse_result(payload) {
        Result::Err(_) => Step { cache, reply: None },
        Result::Ok(m) => {
            let learned = learned_from_arp(cache, m);
            if m.oper == OPER_REQUEST && m.tpa == st.ip {
                Step {
                    cache: learned,
                    reply: Some(
                        frame_bytes(
                            FrameModel {
                                dst: m.sha,
                                src: st.mac,
                                ethertype: ETHERTYPE_ARP,
                                payload: arp_bytes(arp_reply_to(st, m)),
                            },
                        ),
                    ),
                }
            } else {
                Step { cache: learned, reply: None }
            }
        },
    }
}

/// The echo reply frame: the reply ICMP message inside an IPv4 header
/// addressed back to the requester, inside an Ethernet header addressed to
/// the resolved hardware address.
pub open spec fn icmp_reply_frame(
    st: Station,
    dst_hw: HardwareAddress,
    d: DatagramModel,
    m: IcmpModel,
) -> Seq<u8> {
    frame_bytes(
        FrameModel {
            dst: dst_hw,
            src: st.mac,
            ethertype: ETHERTYPE_IPV4,
            payload: ipv4_bytes(
                DatagramModel {
                    tos: d.tos,
                    ident: d.ident,
                    flags_frag: d.flags_frag,
                    ttl: d.ttl,
                    protocol: PROTO_ICMP,
                    src: st.ip,
                    dst: d.src,
                    payload: icmp_bytes(spec_echo_reply(m)),
                },
            ),
        },
    )
}

/// The mirrored UDP frame: the port-swapped datagram inside an IPv4 header
/// addressed back to the sender, truncated to exactly the datagram's length.
pub open spec fn udp_reply_frame(
    st: Station,
    dst_hw: HardwareAddress,
    d: DatagramModel,
    u: UdpModel,
) -> Seq<u8> {
    frame_bytes(
        FrameModel {
            dst: dst_hw,
            src: st.mac,
            ethertype: ETHERTYPE_IPV4,
            payload: ipv4_bytes(
                DatagramModel {
                    tos: d.tos,
                    ident: d.ident,
                    flags_frag: d.flags_frag,
                    ttl: d.ttl,
                    protocol: PROTO_UDP,
                    src: st.ip,
                    dst: d.src,
                    payload: udp_bytes(spec_udp_echo(u)),
                },
            ),
        },
    )
}

/// What the IPv4 responder does with an Ethernet frame.
pub open spec fn spec_handle_ipv4(st: Station, cache: Map<u32, u64>, f: FrameModel) -> Step {
    if !ipv4_parse_ok(f.payload) {
        Step { cache, reply: None }
    } else {
        let d = spec_parse_ipv4(f.payload);
        let learned = learned_from_ipv4(cache, f.src, d);
        if d.protocol == PROTO_ICMP {
            if !icmp_parse_ok(d.payload) {
                Step { cache: learned, reply: None }
            } else {
                let m = spec_parse_icmp(d.payload);
                if !spec_is_echo_request(m) {
                    Step { cache: learned, reply: None }
                } else if !learned.contains_key(d.src.key()) {
                    Step { cache: learned, reply: None }
                } else {
                    Step {
                        cache: learned,
                        reply: Some(
                            icmp_reply_frame(
                                st,
                                HardwareAddress::spec_from_key(learned[d.src.key()]),
                                d,
                                m,
                            ),
                        ),
                    }
                }
            }
        } else if d.protocol == PROTO_UDP {
            if !udp_parse_ok(d.payload) {
                Step { cache: learned, reply: None }
            } else {
                let u = spec_parse_udp(d.payload);
                if !learned.contains_key(d.src.key()) {
                    Step { cache: learned, reply: None }
                } else {
                    Step {
                        cache: learned,
                        reply: Some(
                            udp_reply_frame(
                                st,
                                HardwareAddress::spec_from_key(learned[d.src.key()]),
                                d,
                                u,
                            ),
                        ),
                    }
                }
            }
        } else {
            Step { cache: learned, reply: None }
        }
    }
}

/// What the dispatcher does with the filled receive buffer.
pub open spec fn spec_handle_frame(st: Station, cache: Map<u32, u64>, b: Seq<u8>) -> Step {
    if !frame_parse_ok(b) {
        Step { cache, reply: None }
    } else {
        let f = spec_parse_frame(b);
        if f.ethertype == ETHERTYPE_ARP {
            spec_handle_arp(st, cache, f.payload)
        } else if f.ethertype == ETHERTYPE_IPV4 {
            spec_handle_ipv4(st, cache, f)
        } else {
            Step { cache, reply: None }
        }
    }
}

/// The ARP responder: learns the sender mapping of a non-probe message, and
/// answers a request for the station's own protocol address with a reply
/// frame.
pub fn handle_arp(st: &Station, eth: &EthernetFrame, cache: &mut AddressCache) -> (r: Option<
    Vec<u8>,
>)
    requires
        old(cache).wf(),
    ensures
        final(cache).wf(),
        final(cache)@ == spec_handle_arp(*st, old(cache)@, eth@.payload).cache,
        match r {
            Some(v) => spec_handle_arp(*st, old(cache)@, eth@.payload).reply == Some(v@),
            None => spec_handle_arp(*st, old(cache)@, eth@.payload).reply is None,
        },
{
    match parse_arp(&eth.payload) {
        Result::Err(_) => None,
        Result::Ok(m) => {
            if !m.spa.is_unspecified() {
                let _ = cache.insert(m.spa, m.sha);
            }
            if m.oper == OPER_REQUEST && m.tpa == st.ip {
                let reply = ArpMessage {
                    oper: OPER_REPLY,
                    sha: st.mac,
                    spa: st.ip,
                    tha: m.sha,
                    tpa: m.spa,
                    ..m
                };
                let payload = encode_arp(&reply);
                let frame = EthernetFrame {
                    dst: m.sha,
                    src: st.mac,
                    ethertype: ETHERTYPE_ARP,
                    payload,
                };
                Some(encode_frame(&frame))
            } else {
                None
            }
        },
    }
}

/// The IPv4 responder: learns the sender mapping from the frame's own
/// addressing, then answers an ICMP Echo Request or mirrors a UDP datagram,
/// when the destination hardware address resolves. On a cache miss both
/// paths drop the datagram silently: no reply is owed until the sender
/// resolves, and a miss is never an error.
pub fn handle_ipv4(st: &Station, eth: &EthernetFrame, cache: &mut AddressCache) -> (r: Option<
    Vec<u8>,
>)
    requires
        old(cache).wf(),
    ensures
        final(cache).wf(),
        final(cache)@ == spec_handle_ipv4(*st, old(cache)@, eth@).cache,
        match r {
            Some(v) => spec_handle_ipv4(*st, old(cache)@, eth@).reply == Some(v@),
            None => spec_handle_ipv4(*st, old(cache)@, eth@).reply is None,
        },
{
    match parse_ipv4(&eth.payload) {
        None => None,
        Some(d) => {
            if !eth.src.is_broadcast() {
                let _ = cache.insert(d.src, eth.src);
            }
            if d.protocol == PROTO_ICMP {
                match parse_icmp(&d.payload) {
                    None => None,
                    Some(m) => {
                        if !(m.msg_type == ICMP_ECHO_REQUEST && m.code == 0) {
                            None
                        } else {
                            match cache.lookup(&d.src) {
                                None => None,
                                Some(dst_hw) => {
                                    proof {
                                        lemma_hw_from_key_of_key(dst_hw);
                                    }
                                    let reply_msg = IcmpMessage {
                                        msg_type: ICMP_ECHO_REPLY,
                                        code: 0,
                                        identifier: m.identifier,
                                        sequence: m.sequence,
                                        payload: m.payload,
                                    };
                                    let inner = encode_icmp(&reply_msg);
                                    let ip_reply = Ipv4Datagram {
                                        tos: d.tos,
                                        ident: d.ident,
                                        flags_frag: d.flags_frag,
                                        ttl: d.ttl,
                                        protocol: PROTO_ICMP,
                                        src: st.ip,
                                        dst: d.src,
                                        payload: inner,
                                    };
                                    let encoded = encode_ipv4(&ip_reply);
                                    let frame = EthernetFrame {
                                        dst: dst_hw,
                                        src: st.mac,
                                        ethertype: ETHERTYPE_IPV4,
                                        payload: encoded,
                                    };
                                    Some(encode_frame(&frame))
                                },
                            }
                        }
                    },
                }
            } else if d.protocol == PROTO_UDP {
                match parse_udp(&d.payload) {
                    None => None,
                    Some(u) => {
                        match cache.lookup(&d.src) {
                            None => None,
                            Some(dst_hw) => {
                                proof {
                                    lemma_hw_from_key_of_key(dst_hw);
                                }
                                let reply_udp = UdpDatagram {
                                    src_port: u.dst_port,
                                    dst_port: u.src_port,
                                    checksum: 0,
                                    payload: u.payload,
                                };
                                let inner = encode_udp(&reply_udp);
                                let ip_reply = Ipv4Datagram {
                                    tos: d.tos,
                                    ident: d.ident,
                                    flags_frag: d.flags_frag,
                                    ttl: d.ttl,
                                    protocol: PROTO_UDP,
                                    src: st.ip,
                                    dst: d.src,
                                    payload: inner,
                                };
                                let encoded = encode_ipv4(&ip_reply);
                                let frame = EthernetFrame {
                                    dst: dst_hw,
                                    src: st.mac,
                                    ethertype: ETHERTYPE_IPV4,
                                    payload: encoded,
                                };
                                Some(encode_frame(&frame))
                            },
                        }
                    },
                }
            } else {
                None
            }
        },
    }
}

/// The frame dispatcher: one turn of the control loop. Parses the filled
/// receive buffer, routes by EtherType, and returns the reply frame to
/// transmit, if one is owed. Malformed or out-of-scope input never fails;
/// it only yields no reply.
pub fn handle_frame(st: &Station, buf: &Vec<u8>, cache: &mut AddressCache) -> (r: Option<Vec<u8>>)
    requires
        old(cache).wf(),
    ensures
        final(cache).wf(),
        final(cache)@ == spec_handle_frame(*st, old(cache)@, buf@).cache,
        match r {
            Some(v) => spec_handle_frame(*st, old(cache)@, buf@).reply == Some(v@),
            None => spec_handle_frame(*st, old(cache)@, buf@).reply is None,
        },
{
    match parse_frame(buf) {
        None => None,
        Some(eth) => {
            if eth.ethertype == ETHERTYPE_ARP {
                handle_arp(st, &eth, cache)
            } else if eth.ethertype == ETHERTYPE_IPV4 {
                handle_ipv4(st, &eth, cache)
            } else {
                None
            }
        },
    }
}

} // verus!
