use hotswap::manager::{
    __wwm_internal_worker_init, init_web_worker_manager, my_thread_id, run_first_callback,
    send_to_thread, web_workers_are_up, worker_count, MainThreadState, Route, SendError,
    ThreadState,
};
use hotswap::messages::{
    __wwm_internal_worker_handle_message, create_callback_array, handle_message_from_channel,
    handle_message_from_worker, parse_callback_array, task_message, CallbackField, FieldValue,
    MessageAction,
};
use hotswap::ports::{plan_ports, PortEnd, PortRef};
use hotswap::thread_id::ThreadId;
use hotswap::web_mutex::ThreadContext;
use hotswap::worker_status::{
    get_worker_status, init_worker_status_array, note_event, set_worker_status,
    worker_is_initialized, worker_is_spawned, WorkerEvent, WorkerStatus,
};

fn port(channel: usize, end: PortEnd) -> Option<PortRef> {
    Some(PortRef { channel, end })
}

#[test]
fn thread_ids() {
    assert!(ThreadId(0).is_main());
    assert!(!ThreadId(1).is_main());
    assert_eq!(ThreadId::main_thread(), ThreadId(0));
    assert_eq!(ThreadId(120).show(), "ThreadId(120)");
    assert_eq!(ThreadId(120).show(), format!("{:?}", ThreadId(120)));
}

#[test]
fn status_cells() {
    assert_eq!(WorkerStatus::from_u8(0), WorkerStatus::Uninitialized);
    assert_eq!(WorkerStatus::from_u8(1), WorkerStatus::Initializing);
    assert_eq!(WorkerStatus::from_u8(2), WorkerStatus::Normal);
    assert_eq!(WorkerStatus::from_u8(3), WorkerStatus::DynamicLinking);
    assert_eq!(WorkerStatus::from_u8(4), WorkerStatus::Uninitialized);
    assert_eq!(WorkerStatus::from_u8(255), WorkerStatus::Uninitialized);
    for v in 0u8..4 {
        assert_eq!(WorkerStatus::from_u8(v).to_u8(), v);
    }
}

#[test]
fn statuses_before_the_manager_is_initialized() {
    let mut array = None;
    assert_eq!(get_worker_status(&array, ThreadId(0)), WorkerStatus::Normal);
    assert_eq!(get_worker_status(&array, ThreadId(1)), WorkerStatus::Uninitialized);
    set_worker_status(&mut array, ThreadId(1), WorkerStatus::Normal);
    assert_eq!(get_worker_status(&array, ThreadId(1)), WorkerStatus::Uninitialized);
}

#[test]
fn statuses_of_workers() {
    let mut array = Some(init_worker_status_array(2));
    assert_eq!(get_worker_status(&array, ThreadId(1)), WorkerStatus::Uninitialized);
    set_worker_status(&mut array, ThreadId(1), WorkerStatus::Initializing);
    set_worker_status(&mut array, ThreadId(2), WorkerStatus::Normal);
    assert_eq!(get_worker_status(&array, ThreadId(1)), WorkerStatus::Initializing);
    assert_eq!(get_worker_status(&array, ThreadId(2)), WorkerStatus::Normal);
    // neither the main thread nor a thread that is not there has a cell
    set_worker_status(&mut array, ThreadId(0), WorkerStatus::DynamicLinking);
    set_worker_status(&mut array, ThreadId(3), WorkerStatus::DynamicLinking);
    assert_eq!(get_worker_status(&array, ThreadId(0)), WorkerStatus::Normal);
    assert_eq!(get_worker_status(&array, ThreadId(3)), WorkerStatus::Uninitialized);
    assert_eq!(get_worker_status(&array, ThreadId(1)), WorkerStatus::Initializing);
}

#[test]
fn a_worker_comes_up() {
    let mut page: ThreadState<(), ()> = ThreadState::new();
    let plan = init_web_worker_manager(&mut page, ThreadContext::Window, 2);
    let mut array = Some(plan.statuses);
    worker_is_spawned(&mut array, ThreadId(1));
    assert_eq!(get_worker_status(&array, ThreadId(1)), WorkerStatus::Initializing);
    assert_eq!(get_worker_status(&array, ThreadId(2)), WorkerStatus::Uninitialized);
    worker_is_initialized(&mut array, ThreadId(1));
    assert_eq!(get_worker_status(&array, ThreadId(1)), WorkerStatus::Normal);
    // a fast worker is up before the main thread notes that it was spawned
    worker_is_initialized(&mut array, ThreadId(2));
    worker_is_spawned(&mut array, ThreadId(2));
    assert_eq!(get_worker_status(&array, ThreadId(2)), WorkerStatus::Normal);
    assert_eq!(get_worker_status(&array, ThreadId(1)), WorkerStatus::Normal);
}

#[test]
fn the_first_callback_runs_once_with_the_workers_id() {
    let mut array = Some(init_worker_status_array(2));
    note_event(&mut array, WorkerEvent::Spawned(ThreadId(1)));
    note_event(&mut array, WorkerEvent::Spawned(ThreadId(2)));
    let two = worker(2, vec![None, None, None], 3);
    let mut called = Vec::new();
    let event = run_first_callback(&two, |my_id: ThreadId| {
        assert_eq!(get_worker_status(&array, my_id), WorkerStatus::Initializing);
        called.push(my_id);
    });
    assert_eq!(called, vec![ThreadId(2)]);
    assert_eq!(event, WorkerEvent::Initialized(ThreadId(2)));
    note_event(&mut array, event);
    assert_eq!(get_worker_status(&array, ThreadId(2)), WorkerStatus::Normal);
    assert_eq!(get_worker_status(&array, ThreadId(1)), WorkerStatus::Initializing);
}

#[test]
fn only_workers_come_up() {
    let mut array = Some(init_worker_status_array(1));
    worker_is_spawned(&mut array, ThreadId(0));
    worker_is_spawned(&mut array, ThreadId(2));
    worker_is_initialized(&mut array, ThreadId(2));
    assert_eq!(array.as_ref().unwrap().cells, vec![0]);
    assert_eq!(get_worker_status(&array, ThreadId(0)), WorkerStatus::Normal);
    set_worker_status(&mut array, ThreadId(1), WorkerStatus::DynamicLinking);
    worker_is_spawned(&mut array, ThreadId(1));
    assert_eq!(get_worker_status(&array, ThreadId(1)), WorkerStatus::DynamicLinking);
    let mut missing = None;
    worker_is_spawned(&mut missing, ThreadId(1));
    worker_is_initialized(&mut missing, ThreadId(1));
    assert!(missing.is_none());
}

#[test]
fn channels_between_three_workers() {
    let plan = plan_ports(4);
    assert_eq!(plan.channels, vec![(1, 2), (1, 3), (2, 3)]);
    assert_eq!(plan.ports[0], vec![None, None, None, None]);
    assert_eq!(
        plan.ports[1],
        vec![None, None, port(0, PortEnd::Port1), port(1, PortEnd::Port1)]
    );
    assert_eq!(
        plan.ports[2],
        vec![None, port(0, PortEnd::Port2), None, port(2, PortEnd::Port1)]
    );
    assert_eq!(
        plan.ports[3],
        vec![None, port(1, PortEnd::Port2), port(2, PortEnd::Port2), None]
    );
    assert!(plan_ports(1).channels.is_empty());
    assert_eq!(plan_ports(9).channels.len(), 28);
}

#[test]
fn workers_are_brought_up() {
    let mut state: ThreadState<(), ()> = ThreadState::new();
    let plan = init_web_worker_manager(&mut state, ThreadContext::Window, 2);
    assert_eq!(my_thread_id(&state), ThreadId(0));
    assert_eq!(plan.statuses.cells, vec![0, 0]);
    assert_eq!(plan.channels, vec![(1, 2)]);
    assert_eq!(plan.messages.len(), 2);
    let first = &plan.messages[0];
    assert_eq!(first.thread_id, ThreadId(1));
    assert_eq!(first.sender_id, ThreadId(0));
    assert_eq!(first.js_payload, 1);
    assert_eq!(first.thread_count, 3);
    assert_eq!(first.ports, vec![None, None, port(0, PortEnd::Port1)]);
    assert_eq!(first.transfer, vec![PortRef { channel: 0, end: PortEnd::Port1 }]);
    let second = &plan.messages[1];
    assert_eq!(second.thread_id, ThreadId(2));
    assert_eq!(second.js_payload, 2);
    assert_eq!(second.ports, vec![None, port(0, PortEnd::Port2), None]);
    assert_eq!(second.transfer, vec![PortRef { channel: 0, end: PortEnd::Port2 }]);
}

#[test]
fn no_workers_at_all() {
    let mut state: ThreadState<(), ()> = ThreadState::new();
    let plan = init_web_worker_manager(&mut state, ThreadContext::Window, 0);
    assert!(plan.channels.is_empty());
    assert!(plan.messages.is_empty());
    web_workers_are_up(&mut state, MainThreadState::new());
    assert_eq!(worker_count(&state, ThreadContext::Window), 0);
}

#[test]
fn the_main_thread_reaches_its_workers() {
    let mut state: ThreadState<&str, ()> = ThreadState::new();
    init_web_worker_manager(&mut state, ThreadContext::Window, 2);
    let mut main = MainThreadState::new();
    assert_eq!(main.add_worker("one"), ThreadId(1));
    assert_eq!(main.add_worker("two"), ThreadId(2));
    web_workers_are_up(&mut state, main);
    assert_eq!(my_thread_id(&state), ThreadId(0));
    assert!(state.main.is_some() && state.worker.is_none());
    assert_eq!(worker_count(&state, ThreadContext::Window), 2);

    let to_two = send_to_thread(&state, ThreadId(2)).ok().unwrap();
    assert_eq!(to_two.sender_id, ThreadId(0));
    assert!(matches!(to_two.route, Route::ToWorker(w) if *w == "two"));
    assert!(matches!(
        send_to_thread(&state, ThreadId(0)).ok().unwrap().route,
        Route::OwnPageQueue
    ));
    let error = send_to_thread(&state, ThreadId(3)).err().unwrap();
    assert_eq!(error, SendError::WorkerNotFound);
    assert_eq!(error.message(), "Worker not found");
}

fn shown<J: std::fmt::Debug>(fields: Vec<(&'static str, FieldValue<J>)>) -> Vec<String> {
    let shown = |(name, value): (&str, FieldValue<J>)| match value {
        FieldValue::WasmModule => format!("{} module", name),
        FieldValue::WasmMemory => format!("{} memory", name),
        FieldValue::Callback(field) => format!("{} {:?}", name, parse_callback_array(&field)),
        FieldValue::Payload(payload) => format!("{} payload {:?}", name, payload),
        FieldValue::Number(number) => format!("{} {}", name, number),
        FieldValue::Ports => format!("{} ports", name),
    };
    fields.into_iter().map(shown).collect()
}

#[test]
fn what_a_task_message_holds() {
    let message = task_message(ThreadId(7), 11, 12, "hello", Some("canvas"));
    assert_eq!(message.transfer, Some("canvas"));
    assert_eq!(
        shown(message.fields),
        vec![
            "__wwm_callback Some((11, 12))",
            "__wwm_js_payload payload \"hello\"",
            "__wwm_sender_id 7",
        ]
    );
    let two = worker(2, vec![None, None, None, port(0, PortEnd::Port1)], 4);
    let delivery = send_to_thread(&two, ThreadId(3)).ok().unwrap();
    let message = delivery.message(1, 2, 'x', None::<()>);
    assert_eq!(message.transfer, None);
    assert_eq!(
        shown(message.fields),
        vec!["__wwm_callback Some((1, 2))", "__wwm_js_payload payload 'x'", "__wwm_sender_id 2"]
    );
}

#[test]
fn what_a_first_message_holds() {
    let mut state: ThreadState<(), ()> = ThreadState::new();
    let plan = init_web_worker_manager(&mut state, ThreadContext::Window, 2);
    assert_eq!(
        shown(plan.messages[1].fields(5, 6)),
        vec![
            "__wwm_wasm_module module",
            "__wwm_wasm_memory memory",
            "__wwm_callback Some((5, 6))",
            "__wwm_js_payload payload 2",
            "__wwm_thread_id 2",
            "__wwm_sender_id 0",
            "__wwm_ports ports",
            "__wwm_thread_count 3",
        ]
    );
}

fn worker(thread_id: u32, ports: Vec<Option<PortRef>>, count: u32) -> ThreadState<(), PortRef> {
    let mut state = ThreadState::new();
    __wwm_internal_worker_init(&mut state, ThreadContext::Worker, thread_id, ports, count);
    state
}

#[test]
fn a_worker_reaches_all_threads() {
    let mut page: ThreadState<(), ()> = ThreadState::new();
    let mut plan = init_web_worker_manager(&mut page, ThreadContext::Window, 3);
    let third = plan.messages.pop().unwrap();
    let second = plan.messages.pop().unwrap();
    let three = worker(3, third.ports, 4);
    let two = worker(2, second.ports, 4);
    assert_eq!(my_thread_id(&two), ThreadId(2));
    assert_eq!(worker_count(&two, ThreadContext::Worker), 3);

    // what goes in at one port of the channel comes out at the other
    let to_three = send_to_thread(&two, ThreadId(3)).ok().unwrap();
    assert_eq!(to_three.sender_id, ThreadId(2));
    let Route::Through(sent) = to_three.route else { panic!("not through a port") };
    let received = three.worker.as_ref().unwrap().ports[2].unwrap();
    assert_eq!(sent.channel, received.channel);
    assert_ne!(sent.end, received.end);

    assert!(matches!(send_to_thread(&two, ThreadId(0)).ok().unwrap().route, Route::ToMain));
    assert!(matches!(
        send_to_thread(&two, ThreadId(2)).ok().unwrap().route,
        Route::OwnWorkerQueue
    ));
    let error = send_to_thread(&two, ThreadId(4)).err().unwrap();
    assert_eq!(error, SendError::NoPort);
    assert_eq!(error.message(), "No MessagePort to target worker");
}

#[test]
fn a_worker_listens_where_it_has_ports() {
    let mut state: ThreadState<(), char> = ThreadState::new();
    let ports = vec![None, Some('a'), None, Some('b'), Some('c')];
    let senders =
        __wwm_internal_worker_init(&mut state, ThreadContext::Worker, 2, ports.clone(), 4);
    assert_eq!(senders, vec![ThreadId(1), ThreadId(3)]);
    assert_eq!(state.worker.unwrap().ports, vec![None, Some('a'), None, Some('b')]);

    let mut state: ThreadState<(), char> = ThreadState::new();
    let senders = __wwm_internal_worker_init(&mut state, ThreadContext::Worker, 2, ports, 7);
    assert_eq!(senders, vec![ThreadId(1), ThreadId(3), ThreadId(4)]);
    let padded = vec![None, Some('a'), None, Some('b'), Some('c'), None, None];
    assert_eq!(state.worker.unwrap().ports, padded);
}

#[test]
fn callbacks_make_the_trip() {
    let field = create_callback_array(4096, 77);
    assert_eq!(parse_callback_array(&field), Some((4096, 77)));
    for bad in [
        CallbackField::Missing,
        CallbackField::Undefined,
        CallbackField::Null,
        CallbackField::NotAnArray,
        CallbackField::Slots { data: None, vtable: Some(1) },
        CallbackField::Slots { data: Some(1), vtable: None },
    ] {
        assert_eq!(parse_callback_array(&bad), None);
    }
}

#[test]
fn messages_run_their_callback() {
    let field = create_callback_array(1, 2);
    let run = |action: MessageAction| match action {
        MessageAction::Invoke { sender_id, data, vtable } => (sender_id.0, data, vtable),
        MessageAction::LogError(text) => panic!("{}", text),
    };
    assert_eq!(run(handle_message_from_worker(ThreadId(3), &field, "x")), (3, 1, 2));
    assert_eq!(run(handle_message_from_channel(ThreadId(4), &field, "x")), (4, 1, 2));
    let action = __wwm_internal_worker_handle_message(ThreadContext::Worker, 5, &field);
    assert_eq!(run(action), (5, 1, 2));
}

#[test]
fn messages_without_callback_are_logged() {
    let logged = |action: MessageAction| match action {
        MessageAction::LogError(text) => text,
        MessageAction::Invoke { .. } => panic!("no callback expected"),
    };
    assert_eq!(
        logged(handle_message_from_worker(ThreadId(3), &CallbackField::Missing, "JsValue(7)")),
        "[WWM] Unknown message format from worker ThreadId(3): JsValue(7)"
    );
    assert_eq!(
        logged(handle_message_from_channel(ThreadId(12), &CallbackField::Null, "JsValue(7)")),
        "[WWM] Unknown message format from channel (sender ThreadId(12)): JsValue(7)"
    );
    let action = __wwm_internal_worker_handle_message(
        ThreadContext::Worker,
        1,
        &CallbackField::NotAnArray,
    );
    assert_eq!(logged(action), "[WWM] Invalid callback array format");
}
