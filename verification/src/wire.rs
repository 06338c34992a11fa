//! Shared byte-level helpers for the wire codecs: big-endian 16-bit fields,
//! addresses at fixed offsets, and sub-slices of a receive buffer.

use vstd::prelude::*;
use vstd::slice::{slice_subrange, slice_to_vec};
use vstd::arithmetic::div_mod::lemma_fundamental_div_mod;
use crate::addr::{HardwareAddress, Ipv4Address};

verus! {

/// The 16-bit value stored big-endian as the two bytes `hi`, `lo`.
pub open spec fn be16(hi: u8, lo: u8) -> u16 {
    ((hi as int) * 256 + (lo as int)) as u16
}

pub open spec fn be16_hi(v: u16) -> u8 {
    (v / 256) as u8
}

pub open spec fn be16_lo(v: u16) -> u8 {
    (v % 256) as u8
}

/// The two big-endian bytes of a 16-bit value.
pub open spec fn be16_bytes(v: u16) -> Seq<u8> {
    seq![be16_hi(v), be16_lo(v)]
}

/// Reading back the two big-endian bytes of a value gives the value.
pub proof fn lemma_be16_roundtrip(v: u16)
    ensures
        be16(be16_hi(v), be16_lo(v)) == v,
{
    lemma_fundamental_div_mod(v as int, 256);
}

/// The hardware address whose octets sit at offsets `i..i + 6` of `b`.
pub open spec fn mac_at(b: Seq<u8>, i: int) -> HardwareAddress {
    HardwareAddress {
        b0: b[i],
        b1: b[i + 1],
        b2: b[i + 2],
        b3: b[i + 3],
        b4: b[i + 4],
        b5: b[i + 5],
    }
}

/// The protocol address whose octets sit at offsets `i..i + 4` of `b`.
pub open spec fn ip_at(b: Seq<u8>, i: int) -> Ipv4Address {
    Ipv4Address { o0: b[i], o1: b[i + 1], o2: b[i + 2], o3: b[i + 3] }
}

pub fn read_be16(b: &Vec<u8>, i: usize) -> (r: u16)
    requires
        i + 1 < b@.len(),
    ensures
        r == be16(b@[i as int], b@[i as int + 1]),
{
    let n = b.len();
    assert(i + 1 < n);
    (b[i] as u16) * 256 + (b[i + 1] as u16)
}

pub fn read_mac(b: &Vec<u8>, i: usize) -> (r: HardwareAddress)
    requires
        i + 5 < b@.len(),
    ensures
        r == mac_at(b@, i as int),
{
    let n = b.len();
    assert(i + 5 < n);
    HardwareAddress {
        b0: b[i],
        b1: b[i + 1],
        b2: b[i + 2],
        b3: b[i + 3],
        b4: b[i + 4],
        b5: b[i + 5],
    }
}

pub fn read_ip(b: &Vec<u8>, i: usize) -> (r: Ipv4Address)
    requires
        i + 3 < b@.len(),
    ensures
        r == ip_at(b@, i as int),
{
    let n = b.len();
    assert(i + 3 < n);
    Ipv4Address { o0: b[i], o1: b[i + 1], o2: b[i + 2], o3: b[i + 3] }
}

/// A copy of bytes `i..j` of `b`.
pub fn read_sub(b: &Vec<u8>, i: usize, j: usize) -> (r: Vec<u8>)
    requires
        i <= j && j <= b@.len(),
    ensures
        r@ == b@.subrange(i as int, j as int),
{
    slice_to_vec(slice_subrange(b.as_slice(), i, j))
}

pub fn push_be16(out: &mut Vec<u8>, v: u16)
    ensures
        final(out)@ == old(out)@ + be16_bytes(v),
{
    out.push((v / 256) as u8);
    out.push((v % 256) as u8);
    proof {
        assert(out@ =~= old(out)@ + be16_bytes(v));
    }
}

pub fn push_mac(out: &mut Vec<u8>, a: &HardwareAddress)
    ensures
        final(out)@ == old(out)@ + a.bytes(),
{
    out.push(a.b0);
    out.push(a.b1);
    out.push(a.b2);
    out.push(a.b3);
    out.push(a.b4);
    out.push(a.b5);
    proof {
        assert(out@ =~= old(out)@ + a.bytes());
    }
}

pub fn push_ip(out: &mut Vec<u8>, a: &Ipv4Address)
    ensures
        final(out)@ == old(out)@ + a.bytes(),
{
    out.push(a.o0);
    out.push(a.o1);
    out.push(a.o2);
    out.push(a.o3);
    proof {
        assert(out@ =~= old(out)@ + a.bytes());
    }
}

/// Appends all of `data` to `out`.
pub fn push_bytes(out: &mut Vec<u8>, data: &Vec<u8>)
    ensures
        final(out)@ == old(out)@ + data@,
{
    let n = data.len();
    let mut j: usize = 0;
    while j < n
        invariant
            n == data@.len(),
            j <= n,
            out@ == old(out)@ + data@.take(j as int),
        decreases n - j,
    {
        out.push(data[j]);
        j = j + 1;
        proof {
            assert(out@ =~= old(out)@ + data@.take(j as int));
        }
    }
    proof {
        assert(data@.take(n as int) =~= data@);
    }
}

} // verus!
