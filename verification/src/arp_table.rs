//! The shared resolution cache: network-layer address key to hardware
//! address, most-recent insertion winning. The process wraps one instance in
//! a mutual-exclusion lock and shares it between the two worker loops; both
//! operations here are single atomic steps under that lock.

use vstd::prelude::*;

use std::collections::HashMap;

use crate::addr::MacAddr;

verus! {

broadcast use vstd::std_specs::hash::group_hash_axioms;

/// The resolution cache, viewed as a finite map from address key to
/// hardware address.
pub struct ArpTable {
    map: HashMap<u32, MacAddr>,
}

impl View for ArpTable {
    type V = Map<u32, MacAddr>;

    closed spec fn view(&self) -> Map<u32, MacAddr> {
        self.map@
    }
}

impl ArpTable {
    /// An empty cache.
    pub fn new() -> (t: ArpTable)
        ensures
            t@ == Map::<u32, MacAddr>::empty(),
    {
        ArpTable { map: HashMap::new() }
    }

    /// Records that `ip` resolves to `mac`, overwriting any earlier entry
    /// for the same key.
    pub fn insert(&mut self, ip: u32, mac: MacAddr)
        ensures
            final(self)@ == old(self)@.insert(ip, mac),
    {
        self.map.insert(ip, mac);
    }

    /// The hardware address recorded for `ip`, or `None` if the key was
    /// never inserted.
    pub fn lookup(&self, ip: u32) -> (r: Option<MacAddr>)
        ensures
            r == if self@.contains_key(ip) {
                Some(self@[ip])
            } else {
                None::<MacAddr>
            },
    {
        match self.map.get(&ip) {
            Some(m) => Some(*m),
            None => None,
        }
    }
}

/// The cache contents after a sequence of inserts applied to an empty
/// cache, in order.
pub open spec fn spec_table_after(inserts: Seq<(u32, MacAddr)>) -> Map<u32, MacAddr>
    decreases inserts.len(),
{
    if inserts.len() == 0 {
        Map::empty()
    } else {
        spec_table_after(inserts.drop_last()).insert(inserts.last().0, inserts.last().1)
    }
}

/// The most recently inserted hardware address for `ip` in a sequence of
/// inserts, or `None` if no insert names `ip`.
pub open spec fn spec_last_inserted(inserts: Seq<(u32, MacAddr)>, ip: u32) -> Option<MacAddr>
    decreases inserts.len(),
{
    if inserts.len() == 0 {
        None
    } else if inserts.last().0 == ip {
        Some(inserts.last().1)
    } else {
        spec_last_inserted(inserts.drop_last(), ip)
    }
}

/// Cache correctness law: for every sequence of inserts applied to an empty
/// cache, a lookup after the last insert returns the most recently inserted
/// hardware address for that key, and returns nothing for a key no insert
/// ever named. `ArpTable::insert` ensures exactly one `Map::insert` step of
/// the view, so `spec_table_after` is the view after such a sequence of
/// calls, and `ArpTable::lookup` returns exactly what that view holds.
pub proof fn lemma_lookup_after_inserts(inserts: Seq<(u32, MacAddr)>, ip: u32)
    ensures
        match spec_last_inserted(inserts, ip) {
            Some(mac) => spec_table_after(inserts).contains_key(ip) && spec_table_after(inserts)[ip]
                == mac,
            None => !spec_table_after(inserts).contains_key(ip),
        },
    decreases inserts.len(),
{
    if inserts.len() == 0 {
    } else {
        lemma_lookup_after_inserts(inserts.drop_last(), ip);
    }
}

} // verus!
