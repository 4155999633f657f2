//! The table of a patch: which function goes where.

use vstd::prelude::*;

verus! {

/// Where the functions of a running program have gone in a patch.
pub struct JumpTable {
    /// Path of the binary that holds the patch.
    pub lib: String,
    /// Old address and new address of each patched function; no old address occurs twice.
    pub map: Vec<(u64, u64)>,
    /// Base address of the running program.
    pub aslr_reference: u64,
    /// Base address of the patch.
    pub new_base_address: u64,
    /// How many entries the patch needs in the function table.
    pub ifunc_count: u64,
}

/// What a [`JumpTable`] says.
#[verifier::ext_equal]
pub struct JumpTableView {
    pub lib: Seq<char>,
    pub map: Map<u64, u64>,
    pub aslr_reference: u64,
    pub new_base_address: u64,
    pub ifunc_count: u64,
}

/// The map that a list of pairs spells.
pub open spec fn address_map(pairs: Seq<(u64, u64)>) -> Map<u64, u64>
    decreases pairs.len(),
{
    if pairs.len() == 0 {
        Map::empty()
    } else {
        address_map(pairs.drop_last()).insert(pairs.last().0, pairs.last().1)
    }
}

/// The map `m` with `base` added to every new address.
pub open spec fn shifted(m: Map<u64, u64>, base: int) -> Map<u64, u64> {
    m.map_values(|v: u64| (v + base) as u64)
}

impl View for JumpTable {
    type V = JumpTableView;

    open spec fn view(&self) -> JumpTableView {
        JumpTableView {
            lib: self.lib@,
            map: address_map(self.map@),
            aslr_reference: self.aslr_reference,
            new_base_address: self.new_base_address,
            ifunc_count: self.ifunc_count,
        }
    }
}

impl JumpTable {
    /// No old address occurs twice.
    pub open spec fn wf(&self) -> bool {
        forall|i: int, j: int|
            0 <= i < j < self.map@.len() ==> (#[trigger] self.map@[i]).0 != (
            #[trigger] self.map@[j]).0
    }

    /// Adds `table_base` to every new address: the addresses of a patch count from the start of
    /// the patch's own part of the function table.
    pub fn relocate(&mut self, table_base: u32)
        requires
            forall|i: int|
                0 <= i < old(self).map@.len() ==> (#[trigger] old(self).map@[i]).1 + table_base
                    <= u64::MAX,
        ensures
            final(self).map@.len() == old(self).map@.len(),
            forall|i: int|
                0 <= i < old(self).map@.len() ==> (#[trigger] final(self).map@[i]) == (
                    old(self).map@[i].0,
                    (old(self).map@[i].1 + table_base) as u64,
                ),
            final(self)@ == (JumpTableView {
                map: shifted(old(self)@.map, table_base as int),
                ..old(self)@
            }),
            old(self).wf() ==> final(self).wf(),
    {
        let ghost before = self.map@;
        let mut i: usize = 0;
        while i < self.map.len()
            invariant
                i <= self.map@.len() == before.len(),
                before == old(self).map@,
                self.lib == old(self).lib,
                self.aslr_reference == old(self).aslr_reference,
                self.new_base_address == old(self).new_base_address,
                self.ifunc_count == old(self).ifunc_count,
                forall|k: int|
                    0 <= k < before.len() ==> (#[trigger] before[k]).1 + table_base <= u64::MAX,
                forall|k: int|
                    0 <= k < i ==> (#[trigger] self.map@[k]) == (
                        before[k].0,
                        (before[k].1 + table_base) as u64,
                    ),
                forall|k: int| i <= k < before.len() ==> (#[trigger] self.map@[k]) == before[k],
            decreases self.map@.len() - i,
        {
            let (address, target) = self.map[i];
            self.map.set(i, (address, target + table_base as u64));
            i = i + 1;
        }
        proof {
            lemma_shifted_pairs(before, self.map@, table_base as int);
        }
    }
}

proof fn lemma_shifted_pairs(before: Seq<(u64, u64)>, after: Seq<(u64, u64)>, base: int)
    requires
        after.len() == before.len(),
        forall|k: int|
            0 <= k < before.len() ==> (#[trigger] after[k]) == (
                before[k].0,
                (before[k].1 + base) as u64,
            ),
    ensures
        address_map(after) =~= shifted(address_map(before), base),
    decreases before.len(),
{
    if before.len() != 0 {
        lemma_shifted_pairs(before.drop_last(), after.drop_last(), base);
    }
}

impl Clone for JumpTable {
    fn clone(&self) -> (copy: Self)
        ensures
            copy@ == self@,
            copy.map@ == self.map@,
    {
        let mut map: Vec<(u64, u64)> = Vec::with_capacity(self.map.len());
        let mut i: usize = 0;
        while i < self.map.len()
            invariant
                i <= self.map@.len(),
                map@ == self.map@.take(i as int),
            decreases self.map@.len() - i,
        {
            map.push(self.map[i]);
            i = i + 1;
        }
        assert(map@ =~= self.map@);
        JumpTable {
            lib: self.lib.clone(),
            map,
            aslr_reference: self.aslr_reference,
            new_base_address: self.new_base_address,
            ifunc_count: self.ifunc_count,
        }
    }
}

proof fn lemma_address_map(pairs: Seq<(u64, u64)>, address: u64)
    ensures
        address_map(pairs).dom().contains(address) <==> exists|i: int|
            0 <= i < pairs.len() && (#[trigger] pairs[i]).0 == address,
        address_map(pairs).dom().contains(address) ==> exists|i: int|
            0 <= i < pairs.len() && (#[trigger] pairs[i]) == (
                address,
                address_map(pairs)[address],
            ),
    decreases pairs.len(),
{
    if pairs.len() != 0 {
        let earlier = pairs.drop_last();
        lemma_address_map(earlier, address);
        assert(forall|i: int| 0 <= i < earlier.len() ==> earlier[i] == pairs[i]);
        if pairs.last().0 == address {
            assert(pairs[pairs.len() - 1] == (address, address_map(pairs)[address]));
        } else {
            if address_map(pairs).dom().contains(address) {
                let i = choose|i: int|
                    0 <= i < earlier.len() && (#[trigger] earlier[i]) == (
                        address,
                        address_map(earlier)[address],
                    );
                assert(pairs[i] == (address, address_map(pairs)[address]));
            }
            if exists|i: int| 0 <= i < pairs.len() && (#[trigger] pairs[i]).0 == address {
                let i = choose|i: int| 0 <= i < pairs.len() && (#[trigger] pairs[i]).0 == address;
                assert(earlier[i].0 == address);
            }
        }
    }
}

/// The table says of an old address what the pair with that address says, and it knows the old
/// addresses of its pairs and no others.
pub proof fn law_table_says_what_its_pairs_say(table: JumpTable, i: int, address: u64)
    requires
        table.wf(),
        0 <= i < table.map@.len(),
    ensures
        table@.map.dom().contains(table.map@[i].0),
        table@.map[table.map@[i].0] == table.map@[i].1,
        table@.map.dom().contains(address) <==> exists|k: int|
            0 <= k < table.map@.len() && (#[trigger] table.map@[k]).0 == address,
{
    lemma_address_map(table.map@, address);
    lemma_address_map(table.map@, table.map@[i].0);
}

/// Tables that say the same have the same path, the same numbers, and, whatever the order of their
/// pairs, every pair of one is a pair of the other.
pub proof fn law_same_view_same_table(a: JumpTable, b: JumpTable, i: int)
    requires
        a@ == b@,
        a.wf(),
        b.wf(),
        0 <= i < a.map@.len(),
    ensures
        a.lib@ == b.lib@,
        a.aslr_reference == b.aslr_reference,
        a.new_base_address == b.new_base_address,
        a.ifunc_count == b.ifunc_count,
        b.map@.contains(a.map@[i]),
{
    let address = a.map@[i].0;
    law_table_says_what_its_pairs_say(a, i, address);
    lemma_address_map(b.map@, address);
}

/// A table says its path and its numbers as they are, also where it has no pairs.
pub proof fn law_view_keeps_path_and_numbers(table: JumpTable)
    ensures
        table@.lib == table.lib@,
        table@.aslr_reference == table.aslr_reference,
        table@.new_base_address == table.new_base_address,
        table@.ifunc_count == table.ifunc_count,
{
}

/// A table is well-formed exactly if its old addresses are all different.
pub proof fn law_wf_means_distinct_addresses(table: JumpTable)
    ensures
        table.wf() <==> table.map@.map_values(|pair: (u64, u64)| pair.0).no_duplicates(),
{
    let addresses = table.map@.map_values(|pair: (u64, u64)| pair.0);
    if addresses.no_duplicates() {
        assert forall|i: int, j: int| 0 <= i < j < table.map@.len() implies (
        #[trigger] table.map@[i]).0 != (#[trigger] table.map@[j]).0 by {
            assert(addresses[i] != addresses[j]);
        }
    }
}

/// Adding a base to a map adds it to every new address, as integers, and leaves the old addresses
/// as they are.
pub proof fn law_shifting_adds(m: Map<u64, u64>, base: int, address: u64)
    requires
        m.dom().contains(address),
        0 <= m[address] + base <= u64::MAX,
    ensures
        shifted(m, base).dom() == m.dom(),
        shifted(m, base)[address] == m[address] + base,
{
}

/// No new address of a table is above the bound that holds for its pairs.
pub proof fn law_addresses_are_those_of_pairs(table: JumpTable, bound: int, address: u64)
    requires
        forall|i: int| 0 <= i < table.map@.len() ==> (#[trigger] table.map@[i]).1 <= bound,
        table@.map.dom().contains(address),
    ensures
        table@.map[address] <= bound,
{
    lemma_address_map(table.map@, address);
}

} // verus!
