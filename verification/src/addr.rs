//! Link-layer and network-layer addresses, and the station identity.

use vstd::prelude::*;

verus! {

/// A 6-byte link-layer (Ethernet) address, one field per octet, most
/// significant first.
#[derive(Clone, Copy, PartialEq, Eq, Structural, Debug)]
pub struct HardwareAddress {
    pub b0: u8,
    pub b1: u8,
    pub b2: u8,
    pub b3: u8,
    pub b4: u8,
    pub b5: u8,
}

/// A 4-byte IPv4 address, one field per octet, most significant first.
#[derive(Clone, Copy, PartialEq, Eq, Structural, Debug)]
pub struct Ipv4Address {
    pub o0: u8,
    pub o1: u8,
    pub o2: u8,
    pub o3: u8,
}

impl HardwareAddress {
    /// The octets in wire order.
    pub open spec fn bytes(self) -> Seq<u8> {
        seq![self.b0, self.b1, self.b2, self.b3, self.b4, self.b5]
    }

    /// The distinguished all-ones broadcast address.
    pub open spec fn spec_is_broadcast(self) -> bool {
        self.b0 == 0xff && self.b1 == 0xff && self.b2 == 0xff && self.b3 == 0xff
            && self.b4 == 0xff && self.b5 == 0xff
    }

    pub fn is_broadcast(&self) -> (r: bool)
        ensures
            r == self.spec_is_broadcast(),
    {
        self.b0 == 0xff && self.b1 == 0xff && self.b2 == 0xff && self.b3 == 0xff
            && self.b4 == 0xff && self.b5 == 0xff
    }

    /// The octets packed into one integer, most significant octet highest.
    pub open spec fn key(self) -> u64 {
        ((self.b0 as u64) << 40) | ((self.b1 as u64) << 32) | ((self.b2 as u64) << 24)
            | ((self.b3 as u64) << 16) | ((self.b4 as u64) << 8) | (self.b5 as u64)
    }

    pub fn to_key(&self) -> (r: u64)
        ensures
            r == self.key(),
    {
        ((self.b0 as u64) << 40) | ((self.b1 as u64) << 32) | ((self.b2 as u64) << 24)
            | ((self.b3 as u64) << 16) | ((self.b4 as u64) << 8) | (self.b5 as u64)
    }

    /// The hardware address whose packed key is `k`, for keys below 2^48.
    pub open spec fn spec_from_key(k: u64) -> HardwareAddress {
        HardwareAddress {
            b0: ((k >> 40) & 0xff) as u8,
            b1: ((k >> 32) & 0xff) as u8,
            b2: ((k >> 24) & 0xff) as u8,
            b3: ((k >> 16) & 0xff) as u8,
            b4: ((k >> 8) & 0xff) as u8,
            b5: (k & 0xff) as u8,
        }
    }

    pub fn from_key(k: u64) -> (r: HardwareAddress)
        requires
            k < 0x1_0000_0000_0000,
        ensures
            r.key() == k,
            r == HardwareAddress::spec_from_key(k),
    {
        let r = HardwareAddress {
            b0: ((k >> 40) & 0xff) as u8,
            b1: ((k >> 32) & 0xff) as u8,
            b2: ((k >> 24) & 0xff) as u8,
            b3: ((k >> 16) & 0xff) as u8,
            b4: ((k >> 8) & 0xff) as u8,
            b5: (k & 0xff) as u8,
        };
        proof {
            assert(((((k >> 40) & 0xff) as u8 as u64) << 40) | ((((k >> 32) & 0xff) as u8 as u64)
                << 32) | ((((k >> 24) & 0xff) as u8 as u64) << 24) | ((((k >> 16) & 0xff) as u8
                as u64) << 16) | ((((k >> 8) & 0xff) as u8 as u64) << 8) | ((k & 0xff) as u8
                as u64) == k) by (bit_vector)
                requires
                    k < 0x1_0000_0000_0000,
            ;
        }
        r
    }
}

/// Unpacking an address's packed key gives back the address.
pub proof fn lemma_hw_from_key_of_key(a: HardwareAddress)
    ensures
        HardwareAddress::spec_from_key(a.key()) == a,
{
    let (a0, a1, a2, a3, a4, a5) = (a.b0, a.b1, a.b2, a.b3, a.b4, a.b5);
    let k = a.key();
    assert({
        let k2 = ((a0 as u64) << 40) | ((a1 as u64) << 32) | ((a2 as u64) << 24) | ((a3 as u64)
            << 16) | ((a4 as u64) << 8) | (a5 as u64);
        ((k2 >> 40) & 0xff) as u8 == a0 && ((k2 >> 32) & 0xff) as u8 == a1 && ((k2 >> 24)
            & 0xff) as u8 == a2 && ((k2 >> 16) & 0xff) as u8 == a3 && ((k2 >> 8) & 0xff) as u8
            == a4 && (k2 & 0xff) as u8 == a5
    }) by (bit_vector);
}

/// Two hardware addresses with the same packed key are the same address.
pub proof fn lemma_hw_key_injective(a: HardwareAddress, b: HardwareAddress)
    requires
        a.key() == b.key(),
    ensures
        a == b,
{
    let (a0, a1, a2, a3, a4, a5) = (a.b0, a.b1, a.b2, a.b3, a.b4, a.b5);
    let (c0, c1, c2, c3, c4, c5) = (b.b0, b.b1, b.b2, b.b3, b.b4, b.b5);
    assert(a0 == c0 && a1 == c1 && a2 == c2 && a3 == c3 && a4 == c4 && a5 == c5) by (bit_vector)
        requires
            ((a0 as u64) << 40) | ((a1 as u64) << 32) | ((a2 as u64) << 24) | ((a3 as u64) << 16)
                | ((a4 as u64) << 8) | (a5 as u64) == ((c0 as u64) << 40) | ((c1 as u64) << 32) | ((
            c2 as u64) << 24) | ((c3 as u64) << 16) | ((c4 as u64) << 8) | (c5 as u64),
    ;
}

/// A hardware address key never reaches 2^48.
pub proof fn lemma_hw_key_bound(a: HardwareAddress)
    ensures
        a.key() < 0x1_0000_0000_0000,
{
    let (a0, a1, a2, a3, a4, a5) = (a.b0, a.b1, a.b2, a.b3, a.b4, a.b5);
    assert((((a0 as u64) << 40) | ((a1 as u64) << 32) | ((a2 as u64) << 24) | ((a3 as u64) << 16)
        | ((a4 as u64) << 8) | (a5 as u64)) < 0x1_0000_0000_0000) by (bit_vector);
}

impl Ipv4Address {
    /// The octets in wire order.
    pub open spec fn bytes(self) -> Seq<u8> {
        seq![self.o0, self.o1, self.o2, self.o3]
    }

    /// The distinguished all-zero address, used by address probes.
    pub open spec fn spec_is_unspecified(self) -> bool {
        self.o0 == 0 && self.o1 == 0 && self.o2 == 0 && self.o3 == 0
    }

    pub fn is_unspecified(&self) -> (r: bool)
        ensures
            r == self.spec_is_unspecified(),
    {
        self.o0 == 0 && self.o1 == 0 && self.o2 == 0 && self.o3 == 0
    }

    /// The octets packed into one integer, most significant octet highest.
    pub open spec fn key(self) -> u32 {
        ((self.o0 as u32) << 24) | ((self.o1 as u32) << 16) | ((self.o2 as u32) << 8) | (
        self.o3 as u32)
    }

    pub fn to_key(&self) -> (r: u32)
        ensures
            r == self.key(),
    {
        ((self.o0 as u32) << 24) | ((self.o1 as u32) << 16) | ((self.o2 as u32) << 8) | (
        self.o3 as u32)
    }
}

/// Two protocol addresses with the same packed key are the same address.
pub proof fn lemma_ip_key_injective(a: Ipv4Address, b: Ipv4Address)
    requires
        a.key() == b.key(),
    ensures
        a == b,
{
    let (a0, a1, a2, a3) = (a.o0, a.o1, a.o2, a.o3);
    let (c0, c1, c2, c3) = (b.o0, b.o1, b.o2, b.o3);
    assert(a0 == c0 && a1 == c1 && a2 == c2 && a3 == c3) by (bit_vector)
        requires
            ((a0 as u32) << 24) | ((a1 as u32) << 16) | ((a2 as u32) << 8) | (a3 as u32) == ((
            c0 as u32) << 24) | ((c1 as u32) << 16) | ((c2 as u32) << 8) | (c3 as u32),
    ;
}

/// The station's fixed identity: its hardware address and protocol address,
/// chosen at build time.
#[derive(Clone, Copy, PartialEq, Eq, Structural, Debug)]
pub struct Station {
    pub mac: HardwareAddress,
    pub ip: Ipv4Address,
}

impl Station {
    /// The compiled-in identity this responder answers for.
    pub fn configured() -> (s: Station)
        ensures
            s.mac == (HardwareAddress { b0: 0x48, b1: 0x69, b2: 0x52, b3: 0x75, b4: 0x73, b5: 0x74 }),
            s.ip == (Ipv4Address { o0: 192, o1: 168, o2: 1, o3: 33 }),
    {
        Station {
            mac: HardwareAddress { b0: 0x48, b1: 0x69, b2: 0x52, b3: 0x75, b4: 0x73, b5: 0x74 },
            ip: Ipv4Address { o0: 192, o1: 168, o2: 1, o3: 33 },
        }
    }
}

} // verus!
