use std::cell::{Cell, RefCell};
use std::sync::{Mutex, RwLock};

use hotswap::counter::Counter;
use hotswap::devserver::{
    devserver_url, on_page_text, on_parallel_page_text, page_action, parallel_page_action,
    DevserverAction, DevserverMessage,
};
use hotswap::jump_table::JumpTable;
use hotswap::render::{
    image_range, pixel_buffer_len, pixel_place, render_pixel, write_pixel,
};
use hotswap::server::get_str;
use hotswap::text::{decimal_text, ends_with, hex_text, same_text};
use hotswap::web_mutex::{
    is_main_thread, is_worker_thread_cached, lock_mode, main_thread_violation, settle, spin,
    take_lock, worker_thread_violation, LockAttempt, LockMode, MutexWebExt, RwLockWebExt,
    ThreadContext, Tries,
};

#[test]
fn numbers_as_text() {
    for n in [0, 7, 10, 99, 120, 65_536, u64::MAX] {
        assert_eq!(decimal_text(n), n.to_string());
        assert_eq!(hex_text(n), format!("{:x}", n));
    }
}

#[test]
fn comparing_text() {
    assert!(same_text("a", "a"));
    assert!(!same_text("a", "ab"));
    assert!(ends_with("p\u{e4}tch.wasm", ".wasm"));
    assert!(ends_with("x", ""));
    assert!(!ends_with("sm", ".wasm"));
}

#[test]
fn the_server_page_shows_both_addresses() {
    assert_eq!(
        get_str(0x55d0, 0),
        "test2. curr crate data addr 0x55d0 \nexternal crate data addr 0x0"
    );
    assert!(get_str(usize::MAX, 1).contains(&format!("{:#x}", usize::MAX)));
}

#[test]
fn a_click_doubles() {
    let mut counter = Counter::new();
    assert_eq!(counter.click(), "0");
    assert_eq!(counter.click(), "0");
    let mut counter = Counter { count: 21 };
    assert_eq!(counter.click(), "42");
    assert_eq!(counter.count, 42);
    let mut counter = Counter { count: i32::MIN / 2 };
    assert_eq!(counter.click(), "-2147483648");
}

#[test]
fn the_devserver_is_on_the_own_host() {
    assert_eq!(
        devserver_url("https:", "example.org:8080", 0),
        "wss://example.org:8080/_dioxus?build_id=0"
    );
    assert_eq!(devserver_url("http:", "localhost", 42), "ws://localhost/_dioxus?build_id=42");
    assert_eq!(devserver_url("https", "h", 1), "ws://h/_dioxus?build_id=1");
}

const PATCH: &str = r#"{"HotReload":{"templates":[],"assets":[],"ms_elapsed":3,
    "jump_table":{"lib":"/patch.wasm","map":{"10":1,"20":2},"aslr_reference":4,
    "new_base_address":5,"ifunc_count":6},"for_build_id":null,"for_pid":null}}"#;

const NO_PATCH: &str = r#"{"HotReload":{"templates":[],"assets":["/a.css"],"ms_elapsed":3,
    "jump_table":null,"for_build_id":null,"for_pid":null}}"#;

fn assert_patch(table: JumpTable) {
    let mut map = table.map;
    map.sort();
    assert_eq!(table.lib, "/patch.wasm");
    assert_eq!(map, vec![(10, 1), (20, 2)]);
    assert_eq!(table.aslr_reference, 4);
    assert_eq!(table.new_base_address, 5);
    assert_eq!(table.ifunc_count, 6);
}

#[test]
fn a_patch_reaches_the_pages() {
    match on_page_text(PATCH) {
        DevserverAction::Reload(Some(table)) => assert_patch(table),
        _ => panic!("no patch"),
    }
    match on_parallel_page_text(PATCH) {
        DevserverAction::BeginPatch(table) => assert_patch(table),
        _ => panic!("no patch"),
    }
}

#[test]
fn a_reload_without_patch() {
    assert!(matches!(on_page_text(NO_PATCH), DevserverAction::Reload(None)));
    assert!(matches!(on_parallel_page_text(NO_PATCH), DevserverAction::Nothing));
}

fn logged(action: DevserverAction) -> (bool, String) {
    match action {
        DevserverAction::LogError(text) => (true, text),
        DevserverAction::LogInfo(text) => (false, text),
        _ => panic!("nothing logged"),
    }
}

#[test]
fn other_messages_are_logged() {
    let closed = (true, "Connection to the devserver was closed".to_string());
    assert_eq!(logged(on_page_text("\"Shutdown\"")), closed);
    assert_eq!(logged(on_parallel_page_text("\"Shutdown\"")), closed);
    let ignored = (false, "Ignore devserver message: FullReloadStart".to_string());
    assert_eq!(logged(on_page_text("\"FullReloadStart\"")), ignored);
    assert_eq!(logged(on_parallel_page_text("\"FullReloadStart\"")), ignored);
}

#[test]
fn what_is_no_message_is_logged() {
    for text in ["", "{", "\"Nonsense\""] {
        let (error, line) = logged(on_page_text(text));
        assert!(error);
        assert!(line.starts_with("Error parsing devserver message: "));
        assert!(line.len() > "Error parsing devserver message: ".len());
        assert_eq!(logged(on_parallel_page_text(text)), (error, line));
    }
}

#[test]
fn actions_on_messages_that_were_read() {
    let malformed = || DevserverMessage::Malformed("bad".to_string());
    let line = (true, "Error parsing devserver message: bad".to_string());
    assert_eq!(logged(page_action(malformed())), line);
    assert_eq!(logged(parallel_page_action(malformed())), line);
    let other = || DevserverMessage::Other("x".to_string());
    assert_eq!(logged(page_action(other())), (false, "Ignore devserver message: x".to_string()));
    assert!(matches!(
        parallel_page_action(DevserverMessage::HotReload(None)),
        DevserverAction::Nothing
    ));
}

#[test]
fn pixels_of_an_image() {
    assert_eq!(pixel_buffer_len(3, 2), 24);
    assert_eq!(pixel_buffer_len(0, 9), 0);
    let places: Vec<(u32, u32)> = (0..6).map(|i| pixel_place(i, 3)).collect();
    assert_eq!(places, vec![(0, 0), (1, 0), (2, 0), (0, 1), (1, 1), (2, 1)]);
    let mut chunk = [9u8; 4];
    write_pixel(&mut chunk, [1, 2, 3, 4]);
    assert_eq!(chunk, [255, 2, 3, 4]);
}

#[test]
fn rendering_a_small_image() {
    let mut data = vec![0u8; pixel_buffer_len(2, 2)];
    for (i, chunk) in data.chunks_mut(4).enumerate() {
        render_pixel(i, chunk, 2, |x, y| [7, x as u8, y as u8, 200]);
    }
    assert_eq!(
        data,
        vec![255, 0, 0, 200, 255, 1, 0, 200, 255, 0, 1, 200, 255, 1, 1, 200]
    );
}

#[test]
fn the_pixels_in_memory() {
    assert_eq!(image_range(1000, 24), (1000, 1024));
    assert_eq!(image_range(0x1_0000_0001, 2), (1, 3));
}

#[test]
fn which_thread_is_the_main_thread() {
    assert!(is_main_thread(ThreadContext::Window));
    assert!(!is_main_thread(ThreadContext::Worker));
    assert!(!is_main_thread(ThreadContext::Native));
    assert!(!is_worker_thread_cached(ThreadContext::Window));
    assert!(is_worker_thread_cached(ThreadContext::Worker));
    assert!(is_worker_thread_cached(ThreadContext::Native));
}

#[test]
fn calls_from_the_wrong_thread() {
    assert_eq!(main_thread_violation(ThreadContext::Window, "a.rs", 12), None);
    assert_eq!(
        main_thread_violation(ThreadContext::Worker, "a.rs", 12),
        Some("a.rs:12 can only be called from the main thread".to_string())
    );
    assert_eq!(worker_thread_violation(ThreadContext::Worker, "a.rs", 12), None);
    assert_eq!(
        worker_thread_violation(ThreadContext::Window, "a.rs", 12),
        Some("a.rs:12 can only be called from a worker thread".to_string())
    );
}

#[test]
fn only_the_main_thread_spins() {
    assert_eq!(lock_mode(ThreadContext::Window), LockMode::Spin);
    assert_eq!(lock_mode(ThreadContext::Worker), LockMode::Block);
    assert_eq!(lock_mode(ThreadContext::Native), LockMode::Block);
}

#[test]
fn attempts_settle() {
    assert_eq!(settle(LockAttempt::Acquired::<u8, u8>(3)), Some(Ok(3)));
    assert_eq!(settle(LockAttempt::WouldBlock::<u8, u8>), None);
    assert_eq!(settle(LockAttempt::Poisoned::<u8, u8>(4)), Some(Err(4)));
}

#[test]
fn spinning_ends_with_the_first_attempt_that_settles() {
    let turns = RefCell::new(Vec::new());
    let mut source = Tries::new(|turn: u64| {
        turns.borrow_mut().push(turn);
        if turn < 2 {
            LockAttempt::WouldBlock::<u64, &str>
        } else if turn == 2 {
            LockAttempt::Acquired(turn)
        } else {
            LockAttempt::Poisoned("torn")
        }
    });
    assert_eq!(spin(&mut source, 0), None);
    assert!(turns.borrow().is_empty());
    assert_eq!(spin(&mut source, 2), None);
    assert_eq!(*turns.borrow(), vec![0, 1]);
    assert_eq!(spin(&mut source, 10), Some(Ok(2)));
    assert_eq!(*turns.borrow(), vec![0, 1, 2]);
    assert_eq!(spin(&mut source, 10), Some(Err("torn")));
    assert_eq!(*turns.borrow(), vec![0, 1, 2, 3]);
}

#[test]
fn taking_a_mutex_on_the_main_thread() {
    let lock = Mutex::new(5);
    let other = Mutex::new(40);
    let take = |attempts: u64| {
        let kept_trying = Cell::new(false);
        let go_on = || {
            kept_trying.set(true);
            other.lock()
        };
        let taken = *lock
            .web_safe_lock(ThreadContext::Window, attempts, go_on, || panic!("may not wait"))
            .unwrap();
        (taken, kept_trying.get())
    };
    assert_eq!(take(1), (5, false));
    assert_eq!(take(0), (40, true));
    {
        let _held = lock.lock().unwrap();
        assert_eq!(take(3), (40, true));
    }
    assert_eq!(take(3), (5, false));
}

#[test]
fn taking_a_read_write_lock_on_the_main_thread() {
    let lock = RwLock::new(5);
    let other = RwLock::new(40);
    let read = |attempts: u64| {
        *lock
            .web_safe_read(
                ThreadContext::Window,
                attempts,
                || other.read(),
                || panic!("may not wait"),
            )
            .unwrap()
    };
    let write = |attempts: u64, value: i32| {
        let mut guard = lock
            .web_safe_write(
                ThreadContext::Window,
                attempts,
                || other.write(),
                || panic!("may not wait"),
            )
            .unwrap();
        *guard = value;
    };
    {
        let _reader = lock.read().unwrap();
        assert_eq!(read(1), 5);
        write(3, 41);
    }
    assert_eq!(*other.read().unwrap(), 41);
    write(1, 8);
    assert_eq!(read(1), 8);
    assert_eq!(read(0), 41);
    let _writer = lock.write().unwrap();
    assert_eq!(read(3), 41);
}

#[test]
fn other_threads_wait_for_a_lock() {
    let waited = Cell::new(0);
    let mutex = Mutex::new(1);
    let lock = RwLock::new(2);
    for context in [ThreadContext::Worker, ThreadContext::Native] {
        let wait = || {
            waited.set(waited.get() + 1);
            mutex.lock()
        };
        let guard = mutex.web_safe_lock(context, 9, || panic!("may not try"), wait);
        assert_eq!(*guard.unwrap(), 1);
        let wait = || {
            waited.set(waited.get() + 1);
            lock.read()
        };
        let guard = lock.web_safe_read(context, 9, || panic!("may not try"), wait);
        assert_eq!(*guard.unwrap(), 2);
        let wait = || {
            waited.set(waited.get() + 1);
            lock.write()
        };
        let guard = lock.web_safe_write(context, 9, || panic!("may not try"), wait);
        assert_eq!(*guard.unwrap(), 2);
    }
    assert_eq!(waited.get(), 6);
}

#[test]
fn a_source_is_tried_on_the_main_thread_alone() {
    let tried = Cell::new(0);
    let mut source = Tries::new(|turn: u64| {
        tried.set(tried.get() + 1);
        if turn < 3 {
            LockAttempt::WouldBlock::<&str, &str>
        } else {
            LockAttempt::Poisoned("torn")
        }
    });
    let outcome = take_lock(&mut source, ThreadContext::Worker, 5, || Ok("on"), || Ok("waited"));
    assert_eq!(outcome, Ok("waited"));
    assert_eq!(tried.get(), 0);
    let outcome = take_lock(&mut source, ThreadContext::Window, 2, || Ok("on"), || Ok("waited"));
    assert_eq!(outcome, Ok("on"));
    assert_eq!(tried.get(), 2);
    let outcome = take_lock(&mut source, ThreadContext::Window, 9, || Ok("on"), || Ok("waited"));
    assert_eq!(outcome, Err("torn"));
    assert_eq!(tried.get(), 4);
}
