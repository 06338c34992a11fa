//! The laws the responder obeys, stated over the model-level transition
//! functions that the handlers' contracts pin, and proved once and for all.

use vstd::prelude::*;
use crate::addr::{HardwareAddress, Station, lemma_hw_from_key_of_key};
use crate::cache::spec_cache_accepts;
use crate::ether::{FrameModel, frame_parse_ok, spec_parse_frame, ETHERTYPE_ARP, ETHERTYPE_IPV4,
    lemma_frame_roundtrip};
use crate::arp::{arp_parse_result, arp_reply_to, arp_wf, ArpMessage, ArpError, OPER_REQUEST,
    lemma_arp_roundtrip};
use crate::ipv4::{ipv4_parse_ok, spec_parse_ipv4, PROTO_ICMP, PROTO_UDP, lemma_ipv4_roundtrip};
use crate::icmp::{icmp_parse_ok, spec_parse_icmp, spec_is_echo_request, spec_echo_reply,
    lemma_icmp_roundtrip};
use crate::udp::{udp_parse_ok, spec_parse_udp, spec_udp_echo, lemma_udp_roundtrip};
use crate::responder::{Step, spec_handle_arp, spec_handle_ipv4, spec_handle_frame,
    icmp_reply_frame, udp_reply_frame};

verus! {

/// Every well-formed ARP Request for the station's protocol address is
/// answered with a well-formed ARP Reply whose sender fields are the
/// station's address and hardware address and whose target fields are the
/// original sender's, carried in a frame addressed back to that sender.
pub proof fn lemma_arp_request_is_answered(st: Station, cache: Map<u32, u64>, payload: Seq<u8>)
    requires
        arp_parse_result(payload) is Ok,
        arp_parse_result(payload)->Ok_0.oper == OPER_REQUEST,
        arp_parse_result(payload)->Ok_0.tpa == st.ip,
    ensures
        spec_handle_arp(st, cache, payload).reply is Some,
        ({
            let m = arp_parse_result(payload)->Ok_0;
            let rb = spec_handle_arp(st, cache, payload).reply->Some_0;
            &&& frame_parse_ok(rb)
            &&& spec_parse_frame(rb).dst == m.sha
            &&& spec_parse_frame(rb).src == st.mac
            &&& spec_parse_frame(rb).ethertype == ETHERTYPE_ARP
            &&& arp_parse_result(spec_parse_frame(rb).payload) == Ok::<ArpMessage, ArpError>(
                arp_reply_to(st, m),
            )
        }),
{
    let m = arp_parse_result(payload)->Ok_0;
    let reply = arp_reply_to(st, m);
    let f = FrameModel {
        dst: m.sha,
        src: st.mac,
        ethertype: ETHERTYPE_ARP,
        payload: crate::arp::arp_bytes(reply),
    };
    assert(arp_wf(reply));
    lemma_arp_roundtrip(reply);
    assert(f.payload.len() == 28);
    lemma_frame_roundtrip(f);
}

/// An ARP message whose sender protocol address is unspecified (a probe)
/// leaves the cache exactly as it was.
pub proof fn lemma_probe_learns_nothing(st: Station, cache: Map<u32, u64>, payload: Seq<u8>)
    requires
        arp_parse_result(payload) is Ok,
        arp_parse_result(payload)->Ok_0.spa.spec_is_unspecified(),
    ensures
        spec_handle_arp(st, cache, payload).cache == cache,
{
}

/// An accepted ARP message that is not a probe records its sender mapping,
/// provided the cache is not already full with other keys; afterwards the
/// sender's protocol address resolves to its hardware address.
pub proof fn lemma_arp_learns_sender(st: Station, cache: Map<u32, u64>, payload: Seq<u8>)
    requires
        arp_parse_result(payload) is Ok,
        !arp_parse_result(payload)->Ok_0.spa.spec_is_unspecified(),
        spec_cache_accepts(cache, arp_parse_result(payload)->Ok_0.spa.key()),
    ensures
        ({
            let m = arp_parse_result(payload)->Ok_0;
            let learned = spec_handle_arp(st, cache, payload).cache;
            &&& learned.contains_key(m.spa.key())
            &&& learned[m.spa.key()] == m.sha.key()
            &&& HardwareAddress::spec_from_key(learned[m.spa.key()]) == m.sha
        }),
{
    let m = arp_parse_result(payload)->Ok_0;
    lemma_hw_from_key_of_key(m.sha);
}

/// An accepted IPv4 frame with a non-broadcast source hardware address
/// records the mapping from the datagram's source protocol address to that
/// hardware address, provided the cache is not already full with other keys;
/// afterwards the source protocol address resolves to the frame's source
/// hardware address.
pub proof fn lemma_ipv4_learns_sender(st: Station, cache: Map<u32, u64>, f: FrameModel)
    requires
        ipv4_parse_ok(f.payload),
        !f.src.spec_is_broadcast(),
        spec_cache_accepts(cache, spec_parse_ipv4(f.payload).src.key()),
    ensures
        ({
            let d = spec_parse_ipv4(f.payload);
            let learned = spec_handle_ipv4(st, cache, f).cache;
            &&& learned.contains_key(d.src.key())
            &&& learned[d.src.key()] == f.src.key()
            &&& HardwareAddress::spec_from_key(learned[d.src.key()]) == f.src
        }),
{
    lemma_hw_from_key_of_key(f.src);
}

/// The echo round trip: an Echo Request whose sender resolves (from the
/// cache or from the frame itself) is answered; the reply parses back to an
/// Echo Reply with the request's identifier, sequence number and payload,
/// unchanged in content and length, inside an IPv4 header that swaps the
/// addressing to reply roles and carries a freshly computed checksum (the
/// reply bytes equal `icmp_reply_frame`, whose IPv4 layer embeds the
/// checksum of its own header by construction).
pub proof fn lemma_echo_request_round_trip(st: Station, cache: Map<u32, u64>, f: FrameModel)
    requires
        f.payload.len() + 14 <= 1518,
        ipv4_parse_ok(f.payload),
        spec_parse_ipv4(f.payload).protocol == PROTO_ICMP,
        icmp_parse_ok(spec_parse_ipv4(f.payload).payload),
        spec_is_echo_request(spec_parse_icmp(spec_parse_ipv4(f.payload).payload)),
        spec_handle_ipv4(st, cache, f).cache.contains_key(spec_parse_ipv4(f.payload).src.key()),
    ensures
        spec_handle_ipv4(st, cache, f).reply is Some,
        ({
            let d = spec_parse_ipv4(f.payload);
            let m = spec_parse_icmp(d.payload);
            let learned = spec_handle_ipv4(st, cache, f).cache;
            let rb = spec_handle_ipv4(st, cache, f).reply->Some_0;
            let rf = spec_parse_frame(rb);
            let rd = spec_parse_ipv4(rf.payload);
            let rm = spec_parse_icmp(rd.payload);
            &&& rb == icmp_reply_frame(
                st,
                HardwareAddress::spec_from_key(learned[d.src.key()]),
                d,
                m,
            )
            &&& frame_parse_ok(rb)
            &&& rf.dst == HardwareAddress::spec_from_key(learned[d.src.key()])
            &&& rf.src == st.mac
            &&& rf.ethertype == ETHERTYPE_IPV4
            &&& ipv4_parse_ok(rf.payload)
            &&& rd.src == st.ip
            &&& rd.dst == d.src
            &&& rd.protocol == PROTO_ICMP
            &&& icmp_parse_ok(rd.payload)
            &&& rm == spec_echo_reply(m)
            &&& rm.payload == m.payload
            &&& rm.payload.len() == m.payload.len()
        }),
{
    let d = spec_parse_ipv4(f.payload);
    let m = spec_parse_icmp(d.payload);
    let learned = spec_handle_ipv4(st, cache, f).cache;
    let dst_hw = HardwareAddress::spec_from_key(learned[d.src.key()]);
    let reply_icmp = spec_echo_reply(m);
    lemma_icmp_roundtrip(reply_icmp);
    let d2 = crate::ipv4::DatagramModel {
        tos: d.tos,
        ident: d.ident,
        flags_frag: d.flags_frag,
        ttl: d.ttl,
        protocol: PROTO_ICMP,
        src: st.ip,
        dst: d.src,
        payload: crate::icmp::icmp_bytes(reply_icmp),
    };
    assert(d2.payload.len() == 8 + m.payload.len());
    lemma_ipv4_roundtrip(d2);
    let rf = FrameModel {
        dst: dst_hw,
        src: st.mac,
        ethertype: ETHERTYPE_IPV4,
        payload: crate::ipv4::ipv4_bytes(d2),
    };
    lemma_frame_roundtrip(rf);
}

/// The UDP mirror: a UDP datagram whose sender resolves is mirrored back
/// with the ports swapped, a zeroed checksum field and the payload
/// unchanged, inside an IPv4 header that swaps the addressing to reply roles
/// and carries a freshly computed checksum; the reply frame is truncated to
/// exactly the mirrored datagram's length.
pub proof fn lemma_udp_is_mirrored(st: Station, cache: Map<u32, u64>, f: FrameModel)
    requires
        f.payload.len() + 14 <= 1518,
        ipv4_parse_ok(f.payload),
        spec_parse_ipv4(f.payload).protocol == PROTO_UDP,
        udp_parse_ok(spec_parse_ipv4(f.payload).payload),
        spec_handle_ipv4(st, cache, f).cache.contains_key(spec_parse_ipv4(f.payload).src.key()),
    ensures
        spec_handle_ipv4(st, cache, f).reply is Some,
        ({
            let d = spec_parse_ipv4(f.payload);
            let u = spec_parse_udp(d.payload);
            let learned = spec_handle_ipv4(st, cache, f).cache;
            let rb = spec_handle_ipv4(st, cache, f).reply->Some_0;
            let rf = spec_parse_frame(rb);
            let rd = spec_parse_ipv4(rf.payload);
            let ru = spec_parse_udp(rd.payload);
            &&& rb == udp_reply_frame(
                st,
                HardwareAddress::spec_from_key(learned[d.src.key()]),
                d,
                u,
            )
            &&& frame_parse_ok(rb)
            &&& rf.dst == HardwareAddress::spec_from_key(learned[d.src.key()])
            &&& rf.src == st.mac
            &&& rf.ethertype == ETHERTYPE_IPV4
            &&& ipv4_parse_ok(rf.payload)
            &&& rd.src == st.ip
            &&& rd.dst == d.src
            &&& rd.protocol == PROTO_UDP
            &&& udp_parse_ok(rd.payload)
            &&& ru == spec_udp_echo(u)
            &&& ru.src_port == u.dst_port
            &&& ru.dst_port == u.src_port
            &&& ru.checksum == 0
            &&& ru.payload == u.payload
            &&& rb.len() == 42 + u.payload.len()
        }),
{
    let d = spec_parse_ipv4(f.payload);
    let u = spec_parse_udp(d.payload);
    let learned = spec_handle_ipv4(st, cache, f).cache;
    let dst_hw = HardwareAddress::spec_from_key(learned[d.src.key()]);
    let reply_udp = spec_udp_echo(u);
    lemma_udp_roundtrip(reply_udp);
    let d2 = crate::ipv4::DatagramModel {
        tos: d.tos,
        ident: d.ident,
        flags_frag: d.flags_frag,
        ttl: d.ttl,
        protocol: PROTO_UDP,
        src: st.ip,
        dst: d.src,
        payload: crate::udp::udp_bytes(reply_udp),
    };
    assert(d2.payload.len() == 8 + u.payload.len());
    lemma_ipv4_roundtrip(d2);
    let rf = FrameModel {
        dst: dst_hw,
        src: st.mac,
        ethertype: ETHERTYPE_IPV4,
        payload: crate::ipv4::ipv4_bytes(d2),
    };
    lemma_frame_roundtrip(rf);
}

/// A UDP datagram whose source protocol address has no cache entry even
/// after the learning step (none was stored, and none could be learned from
/// the frame itself) produces no outbound frame.
pub proof fn lemma_udp_unresolved_is_dropped(st: Station, cache: Map<u32, u64>, f: FrameModel)
    requires
        ipv4_parse_ok(f.payload),
        spec_parse_ipv4(f.payload).protocol == PROTO_UDP,
        !spec_handle_ipv4(st, cache, f).cache.contains_key(spec_parse_ipv4(f.payload).src.key()),
    ensures
        spec_handle_ipv4(st, cache, f).reply is None,
{
}

/// Input that fails a parse stage is absorbed: no reply is owed and the
/// cache is untouched, so the control loop carries on. (That no input makes
/// the handlers themselves fail is part of their verification: they return
/// on every input their contracts admit.)
pub proof fn lemma_malformed_input_is_dropped(st: Station, cache: Map<u32, u64>, b: Seq<u8>)
    requires
        !frame_parse_ok(b) || (spec_parse_frame(b).ethertype == ETHERTYPE_ARP && arp_parse_result(
            spec_parse_frame(b).payload,
        ) is Err) || (spec_parse_frame(b).ethertype == ETHERTYPE_IPV4 && !ipv4_parse_ok(
            spec_parse_frame(b).payload,
        )),
    ensures
        spec_handle_frame(st, cache, b) == (Step { cache, reply: None }),
{
    assert(spec_handle_frame(st, cache, b) =~= Step { cache, reply: None });
}

/// Every reply frame fits the receive buffer the request arrived in.
pub proof fn lemma_reply_fits_buffer(st: Station, cache: Map<u32, u64>, b: Seq<u8>)
    requires
        spec_handle_frame(st, cache, b).reply is Some,
    ensures
        spec_handle_frame(st, cache, b).reply->Some_0.len() <= 1518,
{
    let f = spec_parse_frame(b);
    if f.ethertype == ETHERTYPE_ARP {
        assert(spec_handle_frame(st, cache, b).reply->Some_0.len() == 42);
    } else {
        let d = spec_parse_ipv4(f.payload);
        assert(d.payload.len() <= f.payload.len() - 20);
        assert(f.payload.len() <= 1504);
        if d.protocol == PROTO_ICMP {
            let m = spec_parse_icmp(d.payload);
            assert(crate::icmp::icmp_bytes(spec_echo_reply(m)).len() == d.payload.len());
        } else {
            let u = spec_parse_udp(d.payload);
            assert(crate::udp::udp_bytes(spec_udp_echo(u)).len() <= d.payload.len());
        }
    }
}

} // verus!
