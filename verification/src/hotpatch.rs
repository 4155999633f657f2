//! Bringing a patch into a program that runs on several threads.
//!
//! The function table of a WebAssembly instance cannot be shared, so every thread has to link the
//! patch into its own table, and the jump table that all threads share may change only when all of
//! them have done so.

use vstd::prelude::*;
use crate::dylink::DylinkSectionInfo;
use crate::jump_table::JumpTable;
use crate::jump_table::JumpTableView;
use crate::link::LinkPlan;
use crate::link::plan_link;
use crate::text::ends_with;

verus! {

/// Size of a WebAssembly memory page in bytes.
pub const PAGE_SIZE: u32 = 0x1_0000;

/// How many pages hold `memory_size` bytes.
pub open spec fn pages_for(memory_size: int) -> int {
    (memory_size + PAGE_SIZE - 1) / (PAGE_SIZE as int)
}

/// The address that the data of a patch with `memory_size` bytes counts from.
pub open spec fn memory_base_for(memory_size: int) -> int {
    (pages_for(memory_size) + 1) * PAGE_SIZE
}

/// Where the data of a patch goes.
#[derive(Debug, Clone, Copy, PartialEq, Eq, Structural)]
pub struct PatchLayout {
    /// How many pages the memory has to grow by.
    pub page_count: u32,
    /// The address that the data of the patch counts from.
    pub memory_base: u32,
}

/// Where the data of a patch that needs `memory_size` bytes goes.
pub fn patch_layout(memory_size: u32) -> (layout: PatchLayout)
    requires
        (pages_for(memory_size as int) + 1) * PAGE_SIZE <= u32::MAX,
    ensures
        layout.page_count == pages_for(memory_size as int),
        layout.memory_base == (layout.page_count + 1) * PAGE_SIZE,
        layout.memory_base == memory_base_for(memory_size as int),
{
    let page_count: u32 = if memory_size % PAGE_SIZE == 0 {
        memory_size / PAGE_SIZE
    } else {
        memory_size / PAGE_SIZE + 1
    };
    PatchLayout { page_count, memory_base: (page_count + 1) * PAGE_SIZE }
}

/// The pages of a patch hold its data with less than a page to spare, and its memory base lies on
/// a page border at least a page above the size of the data.
pub proof fn law_layout_fits(memory_size: u32, layout: PatchLayout)
    requires
        layout.page_count == pages_for(memory_size as int),
        layout.memory_base == (layout.page_count + 1) * PAGE_SIZE,
    ensures
        memory_size <= layout.page_count * PAGE_SIZE < memory_size + PAGE_SIZE,
        layout.memory_base % PAGE_SIZE == 0,
        layout.memory_base >= memory_size + PAGE_SIZE,
{
}

/// The path that the binary of a patch is fetched from; `None` if it names no `.wasm` file.
pub fn patch_binary_path(jump_table: &JumpTable) -> (path: Option<&str>)
    ensures
        path is Some <==> ".wasm"@.is_suffix_of(jump_table@.lib),
        path matches Some(p) ==> p@ == jump_table@.lib,
{
    let path: &str = jump_table.lib.as_str();
    if ends_with(path, ".wasm") {
        Some(path)
    } else {
        None
    }
}

/// No new address of the table runs over when `table_base` is added to it.
pub open spec fn relocatable(jump_table: &JumpTable, table_base: u32) -> bool {
    forall|i: int|
        0 <= i < jump_table.map@.len() ==> (#[trigger] jump_table.map@[i]).1 + table_base
            <= u64::MAX
}

/// The patch `jump_table` with every new address counted from the start of the function table.
pub open spec fn relocated(jump_table: JumpTableView, table_base: u32) -> JumpTableView {
    JumpTableView {
        map: crate::jump_table::shifted(jump_table.map, table_base as int),
        ..jump_table
    }
}

/// A patch on its way into all threads.
pub struct WasmMultiThreadedHotPatchApplier {
    /// The patch, with absolute addresses.
    pub jump_table: JumpTable,
    /// The length that the function table of every thread has before it links the patch.
    pub table_base: u64,
    /// The address that the data of the patch counts from.
    pub memory_base: u64,
    /// How many web workers have not linked the patch yet.
    pub pending_web_worker_count: i32,
}

/// The start of a patch.
pub struct HotpatchStart {
    /// The patch on its way.
    pub applier: WasmMultiThreadedHotPatchApplier,
    /// How many pages the memory has to grow by before any thread links the patch.
    pub page_count: u32,
}

/// Starts to bring a patch into all threads: `table_len` is the length of the function table, and
/// `section` is the `dylink.0` section of the patch.
pub fn wasm_multi_threaded_hotpatch_apply_begin(
    jump_table: JumpTable,
    table_len: u32,
    section: &DylinkSectionInfo,
    pending_web_worker_count: u32,
) -> (start: HotpatchStart)
    requires
        relocatable(&jump_table, table_len),
        (pages_for(section.mem_info.memory_size as int) + 1) * PAGE_SIZE <= u32::MAX,
    ensures
        start.page_count == pages_for(section.mem_info.memory_size as int),
        start.applier.jump_table@ == relocated(jump_table@, table_len),
        start.applier.jump_table.map@.len() == jump_table.map@.len(),
        forall|i: int|
            0 <= i < jump_table.map@.len() ==> (#[trigger] start.applier.jump_table.map@[i]).0
                == jump_table.map@[i].0 && start.applier.jump_table.map@[i].1
                == jump_table.map@[i].1 + table_len,
        jump_table.wf() ==> start.applier.jump_table.wf(),
        start.applier.table_base == table_len,
        start.applier.memory_base == (start.page_count + 1) * PAGE_SIZE,
        start.applier.memory_base == memory_base_for(section.mem_info.memory_size as int),
        start.applier.pending_web_worker_count == pending_web_worker_count as i32,
        pending_web_worker_count <= i32::MAX ==> start.applier.pending_web_worker_count
            == pending_web_worker_count,
{
    let mut jump_table = jump_table;
    jump_table.relocate(table_len);
    let layout = patch_layout(section.mem_info.memory_size);
    HotpatchStart {
        applier: WasmMultiThreadedHotPatchApplier {
            jump_table,
            table_base: table_len as u64,
            memory_base: layout.memory_base as u64,
            pending_web_worker_count: pending_web_worker_count as i32,
        },
        page_count: layout.page_count,
    }
}

impl WasmMultiThreadedHotPatchApplier {
    /// One web worker that has linked the patch is counted off `self`, which becomes `after`; the
    /// last one gets the jump table to commit.
    pub open spec fn counts_off(self, after: Self, commit: Option<JumpTable>) -> bool {
        &&& self.pending_web_worker_count >= 1
        &&& after.pending_web_worker_count == self.pending_web_worker_count - 1
        &&& after.jump_table == self.jump_table
        &&& after.table_base == self.table_base
        &&& after.memory_base == self.memory_base
        &&& commit is Some <==> self.pending_web_worker_count == 1
        &&& commit matches Some(table) ==> table@ == self.jump_table@ && table.map@
            == self.jump_table.map@
    }

    /// Counts off a web worker that has linked the patch into its table. The last one gets the
    /// jump table to commit.
    pub fn dynamic_link_in_existing_web_worker(&mut self) -> (commit: Option<JumpTable>)
        requires
            old(self).pending_web_worker_count >= 1,
        ensures
            old(self).counts_off(*final(self), commit),
    {
        let previous: i32 = self.pending_web_worker_count;
        self.pending_web_worker_count = previous - 1;
        if previous == 1 {
            Some(self.apply_change_to_jump_table())
        } else {
            None
        }
    }

    /// The jump table to commit once all threads have linked the patch.
    pub fn apply_change_to_jump_table(&self) -> (table: JumpTable)
        ensures
            table@ == self.jump_table@,
            table.map@ == self.jump_table.map@,
            self.jump_table.wf() ==> table.wf(),
    {
        self.jump_table.clone()
    }

    /// Plans how a web worker that starts while the patch is on its way links it. Such a worker
    /// is not counted.
    pub fn on_new_web_worker_initialize(&self, table_len: u32, names: &Vec<String>) -> (plan:
        LinkPlan)
        requires
            table_len == self.table_base,
        ensures
            plan.links(
                self.jump_table@.ifunc_count,
                crate::link::texts(names@),
                self.table_base,
                self.memory_base,
            ),
    {
        self.internal_per_thread_dynamic_link(table_len, names)
    }

    /// Plans how a thread links the patch, where `table_len` is the length of its function table
    /// and `names` are the exports of its instance.
    pub fn internal_per_thread_dynamic_link(&self, table_len: u32, names: &Vec<String>) -> (plan:
        LinkPlan)
        requires
            table_len == self.table_base,
        ensures
            plan.links(
                self.jump_table@.ifunc_count,
                crate::link::texts(names@),
                self.table_base,
                self.memory_base,
            ),
    {
        plan_link(self.jump_table.ifunc_count, names, self.table_base, self.memory_base)
    }
}

/// However many workers have been counted off, the jump table was handed out for committing only
/// to the last of those that were waited for: never before all have linked the patch, never
/// twice, and as it was at the start.
pub proof fn law_commit_waits_for_all(
    states: Seq<WasmMultiThreadedHotPatchApplier>,
    handed_out: Seq<Option<JumpTable>>,
)
    requires
        states.len() == handed_out.len() + 1,
        forall|i: int|
            0 <= i < handed_out.len() ==> states[i].counts_off(
                states[i + 1],
                #[trigger] handed_out[i],
            ),
    ensures
        forall|i: int|
            0 <= i < handed_out.len() ==> ((#[trigger] handed_out[i]) is Some <==> i
                == states[0].pending_web_worker_count - 1),
        forall|i: int|
            0 <= i < handed_out.len() ==> ((#[trigger] handed_out[i]) matches Some(table)
                ==> table@ == states[0].jump_table@ && table.map@ == states[0].jump_table.map@ && (
            states[0].jump_table.wf() ==> table.wf())),
        handed_out.len() != 0 ==> handed_out.len() <= states[0].pending_web_worker_count,
{
    assert forall|i: int| 0 <= i < states.len() implies (
    #[trigger] states[i]).pending_web_worker_count == states[0].pending_web_worker_count - i
        && states[i].jump_table == states[0].jump_table by {
        lemma_count_down(states, handed_out, i);
    }
    if handed_out.len() != 0 {
        assert(states[handed_out.len() - 1].counts_off(
            states[handed_out.len() as int],
            handed_out[handed_out.len() - 1],
        ));
    }
}

proof fn lemma_count_down(
    states: Seq<WasmMultiThreadedHotPatchApplier>,
    handed_out: Seq<Option<JumpTable>>,
    i: int,
)
    requires
        states.len() == handed_out.len() + 1,
        forall|i: int|
            0 <= i < handed_out.len() ==> states[i].counts_off(
                states[i + 1],
                #[trigger] handed_out[i],
            ),
        0 <= i < states.len(),
    ensures
        states[i].pending_web_worker_count == states[0].pending_web_worker_count - i,
        states[i].jump_table == states[0].jump_table,
    decreases i,
{
    if i > 0 {
        lemma_count_down(states, handed_out, i - 1);
        assert(states[i - 1].counts_off(states[i], handed_out[i - 1]));
    }
}

/// A patch that was made absolute takes every old address to its new address counted from
/// `table_base`, as integers: at or above the table base, as far from it as the patch said. It has
/// the same old addresses as before, and nothing else of it changes.
pub proof fn law_addresses_count_from_table_base(
    jump_table: JumpTable,
    table_base: u32,
    address: u64,
)
    requires
        relocatable(&jump_table, table_base),
    ensures
        relocated(jump_table@, table_base).map.dom() == jump_table@.map.dom(),
        jump_table@.map.dom().contains(address) ==> relocated(jump_table@, table_base).map[address]
            == jump_table@.map[address] + table_base,
        relocated(jump_table@, table_base).lib == jump_table.lib@,
        relocated(jump_table@, table_base).aslr_reference == jump_table.aslr_reference,
        relocated(jump_table@, table_base).new_base_address == jump_table.new_base_address,
        relocated(jump_table@, table_base).ifunc_count == jump_table.ifunc_count,
{
    if jump_table@.map.dom().contains(address) {
        crate::jump_table::law_addresses_are_those_of_pairs(
            jump_table,
            u64::MAX - table_base,
            address,
        );
        crate::jump_table::law_shifting_adds(jump_table@.map, table_base as int, address);
    }
}

/// Two threads whose tables differ in length by `more` get the same patch with every new address
/// apart by `more`.
pub proof fn law_relocation_goes_with_the_base(
    jump_table: JumpTable,
    table_base: u32,
    more: u32,
    address: u64,
)
    requires
        table_base + more <= u32::MAX,
        relocatable(&jump_table, (table_base + more) as u32),
        jump_table@.map.dom().contains(address),
    ensures
        relocated(jump_table@, (table_base + more) as u32).map[address] == relocated(
            jump_table@,
            table_base,
        ).map[address] + more,
{
    law_addresses_count_from_table_base(jump_table, (table_base + more) as u32, address);
    law_addresses_count_from_table_base(jump_table, table_base, address);
}

/// A patch can be made absolute exactly if no new address runs over 64 bits.
pub proof fn law_relocatable_unless_an_address_runs_over(jump_table: JumpTable, table_base: u32)
    ensures
        relocatable(&jump_table, table_base) <==> !exists|i: int|
            0 <= i < jump_table.map@.len() && (#[trigger] jump_table.map@[i]).1 + table_base
                >= 0x1_0000_0000_0000_0000,
{
}

/// A page has 65536 bytes; the pages for some data hold it, and one page less would not.
pub proof fn law_pages_hold_the_data(memory_size: u32)
    ensures
        PAGE_SIZE == 65536,
        pages_for(memory_size as int) >= 0,
        pages_for(memory_size as int) * 65536 >= memory_size,
        (pages_for(memory_size as int) - 1) * 65536 < memory_size,
{
}

/// Counting off a worker takes one off those that are waited for and changes nothing else; the
/// jump table is handed out exactly when nobody is waited for any more, and it is the table of the
/// patch, pair for pair.
pub proof fn law_counting_off(
    before: WasmMultiThreadedHotPatchApplier,
    after: WasmMultiThreadedHotPatchApplier,
    commit: Option<JumpTable>,
)
    requires
        before.counts_off(after, commit),
    ensures
        before.pending_web_worker_count == after.pending_web_worker_count + 1,
        after.pending_web_worker_count >= 0,
        commit is Some <==> after.pending_web_worker_count == 0,
        after.jump_table == before.jump_table,
        after.table_base == before.table_base,
        after.memory_base == before.memory_base,
        commit matches Some(table) ==> table.map@ == before.jump_table.map@ && table.lib@
            == before.jump_table.lib@ && table.ifunc_count == before.jump_table.ifunc_count
            && table.aslr_reference == before.jump_table.aslr_reference
            && table.new_base_address == before.jump_table.new_base_address,
{
    if let Some(table) = commit {
        crate::jump_table::law_view_keeps_path_and_numbers(table);
        crate::jump_table::law_view_keeps_path_and_numbers(before.jump_table);
    }
}

/// The memory base is a page border, with the data's own pages and one page more below it.
pub proof fn law_memory_base_is_a_page_above_the_data(memory_size: u32)
    ensures
        memory_base_for(memory_size as int) % 65536 == 0,
        memory_size + 65536 <= memory_base_for(memory_size as int),
        memory_base_for(memory_size as int) < memory_size + 2 * 65536,
        memory_base_for(memory_size as int) == 65536 * (pages_for(memory_size as int) + 1),
{
}

} // verus!
