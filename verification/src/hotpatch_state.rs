//! The state that threads share while a patch is applied by broadcast.

use vstd::prelude::*;
use crate::dylink::DylinkSectionInfo;
use crate::hotpatch::PAGE_SIZE;
use crate::hotpatch::patch_layout;
use crate::jump_table::JumpTable;
use crate::link::LinkPlan;
use crate::link::plan_link;

verus! {

/// How far the program is with patches.
pub enum HotPatchState {
    /// No patch was applied yet.
    HaventHotpatched,
    /// A patch is being applied.
    Hotpatching(StateWhenHotpatching),
    /// The last patch was applied.
    Hotpatched,
}

/// A patch that is being applied.
pub struct StateWhenHotpatching {
    /// The jump table to commit in the end.
    pub jump_table: Option<JumpTable>,
    /// How many web workers have not loaded the patch yet.
    pub remaining_hotpatch_webworker_num: u32,
}

impl HotPatchState {
    /// One web worker has loaded the patch: `self` becomes `after`, and `last` says whether it was
    /// the last one.
    pub open spec fn loads(self, after: Self, last: bool) -> bool {
        &&& self matches HotPatchState::Hotpatching(s)
        &&& after == HotPatchState::Hotpatching(
            StateWhenHotpatching {
                jump_table: s.jump_table,
                remaining_hotpatch_webworker_num: if s.remaining_hotpatch_webworker_num == 0 {
                    u32::MAX
                } else {
                    (s.remaining_hotpatch_webworker_num - 1) as u32
                },
            },
        )
        &&& last == (s.remaining_hotpatch_webworker_num == 1)
    }

    /// All web workers have loaded the patch, and its jump table was not committed yet.
    pub open spec fn can_finalize(self) -> bool {
        self matches HotPatchState::Hotpatching(s) && s.remaining_hotpatch_webworker_num == 0
            && s.jump_table is Some
    }
}

/// A patch that every thread can link.
pub struct BroadcastPatch {
    /// The patch, with absolute addresses.
    pub jump_table: JumpTable,
    /// The length that the function table of every thread has before it links the patch.
    pub table_base: u32,
    /// The address that the data of the patch counts from.
    pub memory_base: u32,
    /// How many pages the memory has to grow by before any thread links the patch.
    pub page_count: u32,
}

/// Prepares a patch for being linked by every thread: `table_len` is the length of the function
/// table, and `section` is the `dylink.0` section of the patch.
pub fn wasm_mt_apply_patch(
    jump_table: JumpTable,
    table_len: u32,
    section: &DylinkSectionInfo,
) -> (patch: BroadcastPatch)
    requires
        crate::hotpatch::relocatable(&jump_table, table_len),
        (crate::hotpatch::pages_for(section.mem_info.memory_size as int) + 1) * PAGE_SIZE
            <= u32::MAX,
    ensures
        patch.page_count == crate::hotpatch::pages_for(section.mem_info.memory_size as int),
        patch.memory_base == (patch.page_count + 1) * PAGE_SIZE,
        patch.memory_base == crate::hotpatch::memory_base_for(section.mem_info.memory_size as int),
        patch.table_base == table_len,
        patch.jump_table@ == crate::hotpatch::relocated(jump_table@, table_len),
        patch.jump_table.map@.len() == jump_table.map@.len(),
        forall|i: int|
            0 <= i < jump_table.map@.len() ==> (#[trigger] patch.jump_table.map@[i]).0
                == jump_table.map@[i].0 && patch.jump_table.map@[i].1 == jump_table.map@[i].1
                + table_len,
        jump_table.wf() ==> patch.jump_table.wf(),
{
    let layout = patch_layout(section.mem_info.memory_size);
    let mut jump_table = jump_table;
    jump_table.relocate(table_len);
    BroadcastPatch {
        jump_table,
        table_base: table_len,
        memory_base: layout.memory_base,
        page_count: layout.page_count,
    }
}

/// Opens a patch that the main thread has linked to `web_worker_num` web workers, which all have
/// to load it.
pub fn wait_for_web_workers(
    state: &mut HotPatchState,
    jump_table: JumpTable,
    web_worker_num: usize,
)
    requires
        !(*old(state) is Hotpatching),
    ensures
        *final(state) == HotPatchState::Hotpatching(
            StateWhenHotpatching {
                jump_table: Some(jump_table),
                remaining_hotpatch_webworker_num: web_worker_num as u32,
            },
        ),
        web_worker_num <= u32::MAX ==> final(state)->Hotpatching_0.remaining_hotpatch_webworker_num
            == web_worker_num,
{
    *state = HotPatchState::Hotpatching(
        StateWhenHotpatching {
            jump_table: Some(jump_table),
            remaining_hotpatch_webworker_num: web_worker_num as u32,
        },
    );
}

/// Plans how a thread links the patch, where `table_len` is the length of its function table and
/// `names` are the exports of its instance.
pub fn do_per_thread_hotpatch(
    table_base: u32,
    jump_table: &JumpTable,
    table_len: u32,
    names: &Vec<String>,
    memory_base: u32,
) -> (plan: LinkPlan)
    requires
        table_len == table_base,
    ensures
        plan.links(
            jump_table@.ifunc_count,
            crate::link::texts(names@),
            table_base as u64,
            memory_base as u64,
        ),
{
    plan_link(jump_table.ifunc_count, names, table_len as u64, memory_base as u64)
}

/// Counts off a web worker that has loaded the patch; true for the last one.
pub fn web_worker_loaded_patch(state: &mut HotPatchState) -> (last: bool)
    requires
        *old(state) is Hotpatching,
    ensures
        old(state).loads(*final(state), last),
{
    match state {
        HotPatchState::Hotpatching(s) => {
            let remaining: u32 = s.remaining_hotpatch_webworker_num;
            s.remaining_hotpatch_webworker_num = remaining.wrapping_sub(1);
            remaining == 1
        },
        _ => false,
    }
}

/// Ends a patch that all web workers have loaded, and gives the jump table to commit.
pub fn finalize_hotpatch_after_all_web_workers_loaded_patch(state: &mut HotPatchState) -> (table:
    JumpTable)
    requires
        old(state).can_finalize(),
    ensures
        *final(state) == HotPatchState::Hotpatched,
        old(state)->Hotpatching_0.jump_table == Some(table),
{
    let table: Option<JumpTable> = match state {
        HotPatchState::Hotpatching(s) => s.jump_table.take(),
        _ => None,
    };
    *state = HotPatchState::Hotpatched;
    table.unwrap()
}

/// While a patch for `n` web workers is loaded by one worker after the other, only the `n`-th is
/// told that it is the last, and only then can the patch be ended; the jump table stays as it was.
pub proof fn law_patch_ends_after_all_loads(states: Seq<HotPatchState>, last: Seq<bool>)
    requires
        states.len() == last.len() + 1,
        states[0] is Hotpatching,
        last.len() <= states[0]->Hotpatching_0.remaining_hotpatch_webworker_num,
        forall|i: int|
            0 <= i < last.len() ==> states[i].loads(states[i + 1], #[trigger] last[i]),
    ensures
        forall|i: int|
            0 <= i < last.len() ==> (#[trigger] last[i] <==> i + 1
                == states[0]->Hotpatching_0.remaining_hotpatch_webworker_num),
        forall|i: int|
            0 <= i < states.len() ==> (#[trigger] states[i]) is Hotpatching
                && states[i]->Hotpatching_0.jump_table == states[0]->Hotpatching_0.jump_table,
        forall|i: int|
            0 <= i < states.len() ==> ((#[trigger] states[i]).can_finalize() <==> i
                == states[0]->Hotpatching_0.remaining_hotpatch_webworker_num
                && states[0]->Hotpatching_0.jump_table is Some),
{
    assert forall|i: int| 0 <= i < states.len() implies (#[trigger] states[i]) is Hotpatching
        && states[i]->Hotpatching_0.jump_table == states[0]->Hotpatching_0.jump_table
        && states[i]->Hotpatching_0.remaining_hotpatch_webworker_num
        == states[0]->Hotpatching_0.remaining_hotpatch_webworker_num - i by {
        lemma_loads_count_down(states, last, i);
    }
}

proof fn lemma_loads_count_down(states: Seq<HotPatchState>, last: Seq<bool>, i: int)
    requires
        states.len() == last.len() + 1,
        states[0] is Hotpatching,
        last.len() <= states[0]->Hotpatching_0.remaining_hotpatch_webworker_num,
        forall|i: int|
            0 <= i < last.len() ==> states[i].loads(states[i + 1], #[trigger] last[i]),
        0 <= i < states.len(),
    ensures
        states[i] is Hotpatching,
        states[i]->Hotpatching_0.jump_table == states[0]->Hotpatching_0.jump_table,
        states[i]->Hotpatching_0.remaining_hotpatch_webworker_num
            == states[0]->Hotpatching_0.remaining_hotpatch_webworker_num - i,
    decreases i,
{
    if i > 0 {
        lemma_loads_count_down(states, last, i - 1);
        assert(states[i - 1].loads(states[i], last[i - 1]));
    }
}

/// Loading a patch keeps its jump table, takes one off those that are waited for, and tells a
/// worker that it is the last exactly when nobody is waited for any more.
pub proof fn law_loading_counts_off(before: HotPatchState, after: HotPatchState, last: bool)
    requires
        before.loads(after, last),
    ensures
        before is Hotpatching,
        after is Hotpatching,
        after->Hotpatching_0.jump_table == before->Hotpatching_0.jump_table,
        before->Hotpatching_0.remaining_hotpatch_webworker_num >= 1
            ==> before->Hotpatching_0.remaining_hotpatch_webworker_num
            == after->Hotpatching_0.remaining_hotpatch_webworker_num + 1,
        before->Hotpatching_0.remaining_hotpatch_webworker_num == 0
            ==> after->Hotpatching_0.remaining_hotpatch_webworker_num == 0xffff_ffff,
        last <==> after->Hotpatching_0.remaining_hotpatch_webworker_num == 0,
{
}

/// A patch can be ended exactly while it is being applied, nobody is waited for, and its jump
/// table is still there.
pub proof fn law_what_can_be_finalized(
    jump_table: Option<JumpTable>,
    remaining_hotpatch_webworker_num: u32,
)
    ensures
        HotPatchState::Hotpatching(
            StateWhenHotpatching { jump_table, remaining_hotpatch_webworker_num },
        ).can_finalize() <==> jump_table is Some && remaining_hotpatch_webworker_num == 0,
        !HotPatchState::HaventHotpatched.can_finalize(),
        !HotPatchState::Hotpatched.can_finalize(),
{
}

} // verus!
