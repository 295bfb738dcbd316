//! The policy engine's shared table: destination addresses for which
//! traffic is denied, keyed by the normalized 32-bit address.
//!
//! The table is filled from configuration before the packet path is
//! armed and is only read from that path; its model is the map of
//! entries it holds.

use std::collections::HashMap;
use vstd::prelude::*;

use crate::addr::{parse_ipv4, spec_parse_ipv4};

verus! {

/// The table a banned-address list seeds: every entry parsed as
/// dotted-quad text and inserted, or nothing at all if any entry is
/// malformed.
pub open spec fn spec_seed(addrs: Seq<Seq<u8>>) -> Option<Map<u32, u8>>
    decreases addrs.len(),
{
    if addrs.len() == 0 {
        Some(Map::<u32, u8>::empty())
    } else {
        match spec_seed(addrs.drop_last()) {
            None => None,
            Some(m) => match spec_parse_ipv4(addrs.last()) {
                None => None,
                Some(a) => Some(m.insert(a, 1u8)),
            },
        }
    }
}

/// A malformed entry is final: once seeding a prefix of the list has
/// failed, seeding the whole list fails.
proof fn lemma_seed_prefix_none(addrs: Seq<Seq<u8>>, i: int)
    requires
        0 <= i <= addrs.len(),
        spec_seed(addrs.take(i)) is None,
    ensures
        spec_seed(addrs) is None,
    decreases addrs.len() - i,
{
    if i == addrs.len() {
        assert(addrs.take(i) =~= addrs);
    } else {
        assert(addrs.take(i + 1).drop_last() =~= addrs.take(i));
        lemma_seed_prefix_none(addrs, i + 1);
    }
}

broadcast use vstd::std_specs::hash::group_hash_axioms;

/// The destination-address blocklist: a presence flag per banned
/// IPv4 address.
pub struct Blocklist {
    entries: HashMap<u32, u8>,
}

impl View for Blocklist {
    type V = Map<u32, u8>;

    closed spec fn view(&self) -> Map<u32, u8> {
        self.entries@
    }
}

impl Blocklist {
    /// An empty blocklist: no destination is denied.
    pub fn new() -> (bl: Blocklist)
        ensures
            bl@ == Map::<u32, u8>::empty(),
    {
        Blocklist { entries: HashMap::new() }
    }

    /// Inserts one banned destination address, with the presence flag
    /// the packet path looks for.
    pub fn insert(&mut self, dest_address: u32)
        ensures
            final(self)@ == old(self)@.insert(dest_address, 1u8),
    {
        self.entries.insert(dest_address, 1u8);
    }

    /// The policy lookup: true exactly when `dest_address` is in the
    /// table.
    pub fn lookup(&self, dest_address: u32) -> (denied: bool)
        ensures
            denied == self@.contains_key(dest_address),
    {
        self.entries.contains_key(&dest_address)
    }

    /// Builds the table from the banned-address list supplied at
    /// startup, parsing each textual entry and inserting it. One
    /// malformed entry fails the whole seeding — a startup failure
    /// the caller reports before exit — exactly as [`spec_seed`]
    /// states.
    pub fn seed(addrs: &Vec<Vec<u8>>) -> (r: Option<Blocklist>)
        ensures
            spec_seed(addrs.deep_view()) matches Some(m) ==> (r matches Some(bl) && bl@ == m),
            spec_seed(addrs.deep_view()) is None ==> r is None,
    {
        let ghost dv = addrs.deep_view();
        let mut bl = Blocklist::new();
        let mut i: usize = 0;
        while i < addrs.len()
            invariant
                i <= dv.len(),
                dv == addrs.deep_view(),
                dv.len() == addrs@.len(),
                spec_seed(dv.take(i as int)) == Some(bl@),
            decreases addrs@.len() - i,
        {
            proof {
                assert(dv[i as int] =~= addrs@[i as int]@);
            }
            match parse_ipv4(addrs[i].as_slice()) {
                None => {
                    proof {
                        assert(dv.take(i + 1).drop_last() =~= dv.take(i as int));
                        assert(dv.take(i + 1).last() == dv[i as int]);
                        assert(spec_seed(dv.take(i + 1)) is None);
                        lemma_seed_prefix_none(dv, i + 1);
                    }
                    return None;
                },
                Some(a) => {
                    bl.insert(a);
                    proof {
                        assert(dv.take(i + 1).drop_last() =~= dv.take(i as int));
                        assert(dv.take(i + 1).last() == dv[i as int]);
                    }
                },
            }
            i = i + 1;
        }
        proof {
            assert(dv.take(dv.len() as int) =~= dv);
        }
        Some(bl)
    }

    /// How many destinations are denied.
    pub fn len(&self) -> (n: usize)
        ensures
            n == self@.dom().len(),
    {
        self.entries.len()
    }
}

/// Inserting an address and then looking the same address up reports
/// it as denied, whatever the table held before.
pub proof fn lemma_insert_then_lookup(table: Map<u32, u8>, dest_address: u32)
    ensures
        table.insert(dest_address, 1u8).contains_key(dest_address),
{
}

} // verus!
