//! The bounded address cache: an 8-slot map from IPv4 address to hardware
//! address, populated opportunistically, never evicted from.
//!
//! The table itself is heapless's `IndexMap`, used through trusted wrappers;
//! the capacity policy (reject a new key once 8 entries exist, overwrite an
//! existing key) is enforced and verified here.

use vstd::prelude::*;
use crate::addr::{HardwareAddress, Ipv4Address};
use crate::addr::lemma_hw_key_bound;
use heapless::index_map::FnvIndexMap;

verus! {

/// The 8-slot heapless index map the cache is built on. Verus sees this
/// holder as opaque; what it stores is given by `table_contents` and the
/// trusted wrappers below.
#[verifier::external_body]
pub struct Table {
    inner: FnvIndexMap<u32, u64, 8>,
}

/// The map with no entries.
pub open spec fn empty_map() -> Map<u32, u64> {
    Map::empty()
}

/// The entries held by the table, as a mathematical map.
pub uninterp spec fn table_contents(m: Table) -> Map<u32, u64>;

/// Relies on heapless::IndexMap::new: a newly created map holds no entries.
#[verifier::external_body]
fn table_new() -> (m: Table)
    ensures
        table_contents(m) == empty_map(),
{
    Table { inner: FnvIndexMap::new() }
}

/// Relies on heapless::IndexMap::insert: it overwrites the value of a key
/// already present (even when the map is full), and stores a new key whenever
/// fewer than N entries are in use; only a new key on a full map is refused.
#[verifier::external_body]
fn table_insert(m: &mut Table, k: u32, v: u64)
    requires
        table_contents(*old(m)).contains_key(k) || table_contents(*old(m)).dom().len() < 8,
    ensures
        table_contents(*final(m)) == table_contents(*old(m)).insert(k, v),
{
    let _ = m.inner.insert(k, v);
}

/// Relies on heapless::IndexMap::get: it returns the value stored under the
/// key, or nothing when the key is absent.
#[verifier::external_body]
fn table_get(m: &Table, k: u32) -> (r: Option<u64>)
    ensures
        match r {
            Some(v) => table_contents(*m).contains_key(k) && table_contents(*m)[k] == v,
            None => !table_contents(*m).contains_key(k),
        },
{
    m.inner.get(&k).copied()
}

/// The number of slots in the cache; fixed at initialization.
pub open spec fn cache_capacity() -> int {
    8
}

/// What one attempted insertion does to the cache's contents: an existing key
/// is overwritten, a new key is added while a slot is free, and a new key on a
/// full cache leaves the cache unchanged.
pub open spec fn spec_cache_insert(m: Map<u32, u64>, k: u32, v: u64) -> Map<u32, u64> {
    if m.contains_key(k) || m.dom().len() < cache_capacity() {
        m.insert(k, v)
    } else {
        m
    }
}

/// Whether an attempted insertion is accepted.
pub open spec fn spec_cache_accepts(m: Map<u32, u64>, k: u32) -> bool {
    m.contains_key(k) || m.dom().len() < cache_capacity()
}

/// The bounded IPv4-to-hardware-address cache.
pub struct AddressCache {
    table: Table,
    count: usize,
}

impl View for AddressCache {
    type V = Map<u32, u64>;

    closed spec fn view(&self) -> Map<u32, u64> {
        table_contents(self.table)
    }
}

impl AddressCache {
    /// Well-formedness: the stored count tracks the number of entries, the
    /// capacity bound holds, and every stored value is a packed 6-byte
    /// hardware address.
    pub closed spec fn wf(self) -> bool {
        &&& self@.dom().finite()
        &&& self.count == self@.dom().len()
        &&& self@.dom().len() <= cache_capacity()
        &&& forall|k: u32| self@.contains_key(k) ==> self@[k] < 0x1_0000_0000_0000
    }

    /// Facts that follow from well-formedness, for callers.
    pub proof fn lemma_wf(self)
        requires
            self.wf(),
        ensures
            self@.dom().finite(),
            self@.dom().len() <= cache_capacity(),
    {
    }

    /// A fresh, empty cache.
    pub fn new() -> (r: AddressCache)
        ensures
            r.wf(),
            r@ == empty_map(),
    {
        AddressCache { table: table_new(), count: 0 }
    }

    /// How many mappings are stored.
    pub fn len(&self) -> (r: usize)
        requires
            self.wf(),
        ensures
            r == self@.dom().len(),
    {
        self.count
    }

    /// Record that `ip` was seen to belong to `mac`. Overwrites an existing
    /// mapping for `ip`; a new key is accepted only while a slot is free.
    /// Returns whether the mapping is now stored.
    pub fn insert(&mut self, ip: Ipv4Address, mac: HardwareAddress) -> (r: bool)
        requires
            old(self).wf(),
        ensures
            final(self).wf(),
            final(self)@ == spec_cache_insert(old(self)@, ip.key(), mac.key()),
            r == spec_cache_accepts(old(self)@, ip.key()),
            r ==> final(self)@.contains_key(ip.key()) && final(self)@[ip.key()] == mac.key(),
    {
        let k = ip.to_key();
        let v = mac.to_key();
        proof {
            lemma_hw_key_bound(mac);
        }
        let present = match table_get(&self.table, k) {
            Some(_) => true,
            None => false,
        };
        if present {
            table_insert(&mut self.table, k, v);
            proof {
                assert(self@.dom() =~= old(self)@.dom());
            }
            true
        } else if self.count < 8 {
            table_insert(&mut self.table, k, v);
            self.count = self.count + 1;
            proof {
                assert(self@.dom() =~= old(self)@.dom().insert(k));
            }
            true
        } else {
            false
        }
    }

    /// Look up the hardware address learned for `ip`, if any.
    pub fn lookup(&self, ip: &Ipv4Address) -> (r: Option<HardwareAddress>)
        requires
            self.wf(),
        ensures
            match r {
                Some(mac) => self@.contains_key(ip.key()) && mac.key() == self@[ip.key()],
                None => !self@.contains_key(ip.key()),
            },
    {
        let k = ip.to_key();
        match table_get(&self.table, k) {
            Some(v) => Some(HardwareAddress::from_key(v)),
            None => None,
        }
    }
}

/// Capacity law: once 8 distinct keys are stored, an attempted insertion of a
/// 9th distinct key is rejected and every stored entry is left unchanged.
pub proof fn lemma_cache_full_rejects_new_key(m: Map<u32, u64>, k: u32, v: u64)
    requires
        m.dom().len() >= cache_capacity(),
        !m.contains_key(k),
    ensures
        spec_cache_insert(m, k, v) == m,
        !spec_cache_accepts(m, k),
{
}

} // verus!
