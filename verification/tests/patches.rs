use hotswap::dylink::{
    checked_parse_dylink_section, parse_dylink_section, read_u8, DylinkError, DylinkMemInfo,
    DylinkSectionInfo,
};
use hotswap::hotpatch::{
    patch_binary_path, patch_layout, wasm_multi_threaded_hotpatch_apply_begin, PatchLayout,
    WasmMultiThreadedHotPatchApplier,
};
use hotswap::hotpatch_state::{
    do_per_thread_hotpatch, finalize_hotpatch_after_all_web_workers_loaded_patch,
    wait_for_web_workers, wasm_mt_apply_patch, web_worker_loaded_patch, HotPatchState,
    StateWhenHotpatching,
};
use hotswap::jump_table::JumpTable;
use hotswap::link::{plan_link, EnvImport};
use hotswap::uleb128::Leb128Error;

fn table(map: Vec<(u64, u64)>) -> JumpTable {
    JumpTable {
        lib: "/wasm/patch-1.wasm".to_string(),
        map,
        aslr_reference: 7,
        new_base_address: 8,
        ifunc_count: 5,
    }
}

fn section(memory_size: u32) -> DylinkSectionInfo {
    DylinkSectionInfo {
        mem_info: DylinkMemInfo {
            memory_size,
            memory_alignment: 4,
            table_size: 2,
            table_alignment: 0,
        },
    }
}

#[test]
fn a_byte_is_taken_off_the_front() {
    let bytes = [3u8, 9];
    let mut buf: &[u8] = &bytes;
    assert_eq!(read_u8(&mut buf), Ok(3));
    assert_eq!(buf, &[9u8]);
    assert_eq!(read_u8(&mut buf), Ok(9));
    assert_eq!(read_u8(&mut buf), Err(DylinkError::UnexpectedEnd));
    assert!(buf.is_empty());
}

#[test]
fn a_section_with_mem_info_is_read() {
    // 300 is spelt 0xac 0x02
    let bytes = [1u8, 5, 0xac, 0x02, 4, 2, 0];
    assert_eq!(parse_dylink_section(&bytes), Ok(section(300)));
    assert_eq!(checked_parse_dylink_section(&bytes), Some(Ok(section(300))));
}

#[test]
fn other_subsections_are_passed_over() {
    let bytes = [9u8, 3, 1, 1, 1, 1, 4, 10, 4, 2, 0, 2, 0];
    assert_eq!(parse_dylink_section(&bytes), Ok(section(10)));
}

#[test]
fn the_last_mem_info_counts() {
    let bytes = [1u8, 4, 10, 9, 9, 9, 1, 4, 20, 4, 2, 0];
    assert_eq!(parse_dylink_section(&bytes), Ok(section(20)));
}

#[test]
fn bytes_behind_the_fourth_number_do_not_matter() {
    let bytes = [1u8, 6, 10, 4, 2, 0, 77, 0xff];
    assert_eq!(parse_dylink_section(&bytes), Ok(section(10)));
}

#[test]
fn the_first_mem_info_that_cannot_be_read_rejects() {
    let end = DylinkError::Number(Leb128Error::UnexpectedEnd);
    let overflow = DylinkError::Number(Leb128Error::Overflow);
    let good = [1u8, 4, 10, 4, 2, 0];
    let other = [7u8, 2, 0x80, 0x80];
    let short = [1u8, 3, 10, 4, 2];
    let large = [1u8, 10, 0x80, 0x80, 0x80, 0x80, 0x80, 0x80, 0x80, 0x80, 0x80, 2];
    let parse = |parts: &[&[u8]]| parse_dylink_section(&parts.concat());
    assert_eq!(parse(&[&good, &other]), Ok(section(10)));
    assert_eq!(parse(&[&good, &other, &short, &large]), Err(end));
    assert_eq!(parse(&[&other, &large, &short, &good]), Err(overflow));
}

#[test]
fn a_section_without_mem_info_is_rejected() {
    assert_eq!(parse_dylink_section(&[]), Err(DylinkError::NoMemInfo));
    assert_eq!(parse_dylink_section(&[2u8, 0]), Err(DylinkError::NoMemInfo));
}

#[test]
fn a_section_that_ends_inside_a_number_is_rejected() {
    let end = DylinkError::Number(Leb128Error::UnexpectedEnd);
    assert_eq!(parse_dylink_section(&[1u8]), Err(end));
    assert_eq!(parse_dylink_section(&[1u8, 0x80]), Err(end));
    assert_eq!(parse_dylink_section(&[1u8, 2, 10, 4]), Err(end));
    // eleven bytes that all continue
    let mut bytes = vec![1u8];
    bytes.extend_from_slice(&[0xff; 11]);
    assert_eq!(parse_dylink_section(&bytes), Err(end));
}

#[test]
fn a_number_above_64_bits_is_rejected() {
    let overflow = DylinkError::Number(Leb128Error::Overflow);
    // the tenth byte may be 0 or 1 only
    let mut bytes = vec![1u8];
    bytes.extend_from_slice(&[0x80; 9]);
    bytes.push(2);
    assert_eq!(parse_dylink_section(&bytes), Err(overflow));
    // zero in eleven bytes
    let mut bytes = vec![1u8];
    bytes.extend_from_slice(&[0x80; 10]);
    bytes.push(0);
    assert_eq!(parse_dylink_section(&bytes), Err(overflow));
}

#[test]
fn a_number_of_ten_bytes_is_read_and_cut_to_32_bits() {
    // u64::MAX as memory size
    let mut payload = vec![0xffu8; 9];
    payload.push(1);
    payload.extend_from_slice(&[4, 2, 0]);
    let mut bytes = vec![1u8, payload.len() as u8];
    bytes.extend_from_slice(&payload);
    assert_eq!(parse_dylink_section(&bytes), Ok(section(u32::MAX)));
    // 2^32 + 5 as memory size: 0x85 0x80 0x80 0x80 0x10
    let bytes = [1u8, 8, 0x85, 0x80, 0x80, 0x80, 0x10, 4, 2, 0];
    assert_eq!(parse_dylink_section(&bytes), Ok(section(5)));
}

#[test]
fn a_payload_that_overruns_the_section_is_seen() {
    assert_eq!(checked_parse_dylink_section(&[1u8, 9, 10, 4, 2, 0]), None);
    assert_eq!(checked_parse_dylink_section(&[2u8, 1]), None);
}

#[test]
fn layout_of_patch_data() {
    assert_eq!(patch_layout(0), PatchLayout { page_count: 0, memory_base: 0x1_0000 });
    assert_eq!(patch_layout(1), PatchLayout { page_count: 1, memory_base: 0x2_0000 });
    assert_eq!(patch_layout(0x1_0000), PatchLayout { page_count: 1, memory_base: 0x2_0000 });
    assert_eq!(patch_layout(0x1_0001), PatchLayout { page_count: 2, memory_base: 0x3_0000 });
    assert_eq!(
        patch_layout(0xfffe_0000),
        PatchLayout { page_count: 0xfffe, memory_base: 0xffff_0000 }
    );
}

#[test]
fn only_wasm_files_are_fetched() {
    let mut t = table(vec![]);
    assert_eq!(patch_binary_path(&t), Some("/wasm/patch-1.wasm"));
    t.lib = "libpatch.so".to_string();
    assert_eq!(patch_binary_path(&t), None);
    t.lib = ".wasm".to_string();
    assert_eq!(patch_binary_path(&t), Some(".wasm"));
    t.lib = "wasm".to_string();
    assert_eq!(patch_binary_path(&t), None);
}

#[test]
fn relocation_shifts_new_addresses_only() {
    let mut t = table(vec![(10, 1), (20, 2)]);
    t.relocate(100);
    assert_eq!(t.map, vec![(10, 101), (20, 102)]);
    assert_eq!(t.ifunc_count, 5);
    assert_eq!(t.lib, "/wasm/patch-1.wasm");
}

fn start(workers: u32) -> WasmMultiThreadedHotPatchApplier {
    let begun = wasm_multi_threaded_hotpatch_apply_begin(
        table(vec![(10, 1), (20, 2)]),
        100,
        &section(0x1_0001),
        workers,
    );
    assert_eq!(begun.page_count, 2);
    begun.applier
}

#[test]
fn a_patch_starts_with_absolute_addresses() {
    let applier = start(3);
    assert_eq!(applier.table_base, 100);
    assert_eq!(applier.memory_base, 0x3_0000);
    assert_eq!(applier.pending_web_worker_count, 3);
    assert_eq!(applier.jump_table.map, vec![(10, 101), (20, 102)]);
}

#[test]
fn the_last_worker_commits() {
    let mut applier = start(3);
    assert!(applier.dynamic_link_in_existing_web_worker().is_none());
    assert!(applier.dynamic_link_in_existing_web_worker().is_none());
    let committed = applier.dynamic_link_in_existing_web_worker().unwrap();
    assert_eq!(committed.map, vec![(10, 101), (20, 102)]);
    assert_eq!(committed.lib, "/wasm/patch-1.wasm");
    assert_eq!(committed.aslr_reference, 7);
    assert_eq!(committed.new_base_address, 8);
    assert_eq!(applier.pending_web_worker_count, 0);
}

#[test]
fn a_new_worker_links_without_being_counted() {
    let applier = start(2);
    let plan = applier.on_new_web_worker_initialize(100, &vec!["memory".to_string()]);
    assert_eq!(applier.pending_web_worker_count, 2);
    assert_eq!(plan.table_growth, 5);
    assert_eq!(
        plan.env,
        vec![
            ("memory".to_string(), EnvImport::Export),
            ("__table_base".to_string(), EnvImport::Global(100)),
            ("__memory_base".to_string(), EnvImport::Global(0x3_0000)),
        ]
    );
}

#[test]
fn link_plan_overrides_exported_bases() {
    let names = vec!["__memory_base".to_string(), "f".to_string(), "f".to_string()];
    let plan = plan_link(0x1_0000_0002, &names, 40, 41);
    assert_eq!(plan.table_growth, 2);
    assert_eq!(
        plan.env,
        vec![
            ("__memory_base".to_string(), EnvImport::Global(41)),
            ("f".to_string(), EnvImport::Export),
            ("__table_base".to_string(), EnvImport::Global(40)),
        ]
    );
    assert_eq!(
        plan.calls,
        vec!["__wasm_apply_data_relocs", "__wasm_apply_global_relocs", "__wasm_call_ctors"]
    );
}

#[test]
fn broadcast_plan_counts_from_the_table() {
    let plan = do_per_thread_hotpatch(9, &table(vec![]), 9, &vec![], 0x2_0000);
    assert_eq!(plan.table_growth, 5);
    assert_eq!(
        plan.env,
        vec![
            ("__table_base".to_string(), EnvImport::Global(9)),
            ("__memory_base".to_string(), EnvImport::Global(0x2_0000)),
        ]
    );
}

#[test]
fn a_broadcast_patch_ends_after_the_last_load() {
    let mut state = HotPatchState::HaventHotpatched;
    wait_for_web_workers(&mut state, table(vec![(1, 2)]), 2);
    assert!(!web_worker_loaded_patch(&mut state));
    assert!(web_worker_loaded_patch(&mut state));
    let committed = finalize_hotpatch_after_all_web_workers_loaded_patch(&mut state);
    assert_eq!(committed.map, vec![(1, 2)]);
    assert!(matches!(state, HotPatchState::Hotpatched));
    // the next patch can start
    wait_for_web_workers(&mut state, table(vec![(3, 4)]), 1);
    assert!(web_worker_loaded_patch(&mut state));
    let committed = finalize_hotpatch_after_all_web_workers_loaded_patch(&mut state);
    assert_eq!(committed.map, vec![(3, 4)]);
}

#[test]
fn a_broadcast_patch_is_relocated_and_laid_out() {
    let patch = wasm_mt_apply_patch(table(vec![(1, 2), (9, 0)]), 100, &section(65537));
    assert_eq!(patch.jump_table.map, vec![(1, 102), (9, 100)]);
    assert_eq!(patch.jump_table.ifunc_count, 5);
    assert_eq!(patch.table_base, 100);
    assert_eq!(patch.page_count, 2);
    assert_eq!(patch.memory_base, 3 * 65536);
}

#[test]
fn a_load_too_many_wraps_around() {
    let mut state = HotPatchState::Hotpatching(StateWhenHotpatching {
        jump_table: None,
        remaining_hotpatch_webworker_num: 0,
    });
    assert!(!web_worker_loaded_patch(&mut state));
    assert!(matches!(
        state,
        HotPatchState::Hotpatching(StateWhenHotpatching {
            remaining_hotpatch_webworker_num: u32::MAX,
            ..
        })
    ));
}
