//! The web worker manager: who is who, who can reach whom, and what to do with a message.
//!
//! `ThreadId(0)` is the main thread, `ThreadId(1..=n)` are the workers. Handles of workers and
//! ports are whatever the page holds them by.

use vstd::prelude::*;
use crate::messages::CALLBACK;
use crate::messages::FieldValue;
use crate::messages::JS_PAYLOAD;
use crate::messages::PORTS;
use crate::messages::SENDER_ID;
use crate::messages::TaskMessage;
use crate::messages::THREAD_COUNT;
use crate::messages::THREAD_ID;
use crate::messages::WASM_MEMORY;
use crate::messages::WASM_MODULE;
use crate::messages::create_callback_array;
use crate::messages::task_message;
use crate::ports::PortRef;
use crate::ports::plan_ports;
use crate::thread_id::ThreadId;
use crate::web_mutex::ThreadContext;
use crate::web_mutex::is_main_thread;
use crate::worker_status::WorkerEvent;
use crate::worker_status::WorkerStatus;
use crate::worker_status::WorkerStatusArray;
use crate::worker_status::init_worker_status_array;

verus! {

/// What the main thread knows of the workers.
pub struct MainThreadState<W> {
    /// Handles by thread ID; the first place, that of the main thread, is not used.
    pub workers: Vec<Option<W>>,
}

impl<W> MainThreadState<W> {
    /// Every worker has a handle, and the main thread has none.
    pub open spec fn wf(&self) -> bool {
        &&& self.workers@.len() >= 1
        &&& self.workers@[0] is None
        &&& forall|i: int| 1 <= i < self.workers@.len() ==> (#[trigger] self.workers@[i]) is Some
    }

    /// No worker yet.
    pub fn new() -> (state: Self)
        ensures
            state.wf(),
            state.workers@.len() == 1,
    {
        let mut workers: Vec<Option<W>> = Vec::new();
        workers.push(None);
        MainThreadState { workers }
    }

    /// Takes in the handle of the next worker and gives its ID.
    pub fn add_worker(&mut self, worker: W) -> (thread_id: ThreadId)
        requires
            old(self).wf(),
            old(self).workers@.len() <= u32::MAX,
        ensures
            final(self).wf(),
            final(self).workers@ == old(self).workers@.push(Some(worker)),
            thread_id.0 == old(self).workers@.len(),
    {
        let thread_id = ThreadId(self.workers.len() as u32);
        self.workers.push(Some(worker));
        thread_id
    }
}

/// What a worker knows of the other workers.
pub struct WorkerThreadState<P> {
    /// Ports by thread ID; there is none to the main thread and to the worker itself.
    pub ports: Vec<Option<P>>,
}

/// What a thread knows of itself and the others.
pub struct ThreadState<W, P> {
    /// The thread's own ID, once it is known.
    pub my_thread_id: Option<ThreadId>,
    /// Only there on the main thread, once the manager is initialized.
    pub main: Option<MainThreadState<W>>,
    /// Only there on a worker, once it is initialized.
    pub worker: Option<WorkerThreadState<P>>,
}

impl<W, P> ThreadState<W, P> {
    /// A thread that knows nothing yet.
    pub fn new() -> (state: Self)
        ensures
            state.my_thread_id is None,
            state.main is None,
            state.worker is None,
    {
        ThreadState { my_thread_id: None, main: None, worker: None }
    }

    /// The manager can be initialized: on the main thread, and only once.
    pub open spec fn can_initialize(self, context: ThreadContext) -> bool {
        context == ThreadContext::Window && self.main is None
    }

    /// The main thread has taken in the workers of `main`: `self` becomes `after`.
    pub open spec fn comes_up(self, main: MainThreadState<W>, after: Self) -> bool {
        &&& self.main is None
        &&& main.wf()
        &&& after.main == Some(main)
        &&& after.my_thread_id == self.my_thread_id
        &&& after.worker == self.worker
    }
}

/// The thread's own ID.
pub fn my_thread_id<W, P>(state: &ThreadState<W, P>) -> (thread_id: ThreadId)
    requires
        state.my_thread_id is Some,
    ensures
        state.my_thread_id == Some(thread_id),
{
    state.my_thread_id.unwrap()
}

/// The number of workers, where `places` counts the main thread too.
pub open spec fn workers_of(places: nat) -> int {
    if places == 0 {
        0
    } else {
        places - 1
    }
}

/// The number of workers.
pub fn worker_count<W, P>(state: &ThreadState<W, P>, context: ThreadContext) -> (count: usize)
    requires
        context == ThreadContext::Window ==> state.main is Some,
        context != ThreadContext::Window ==> state.worker is Some,
    ensures
        context == ThreadContext::Window ==> count == workers_of(state.main->0.workers@.len()),
        context != ThreadContext::Window ==> count == workers_of(state.worker->0.ports@.len()),
{
    let places: usize = if is_main_thread(context) {
        match &state.main {
            Some(main) => main.workers.len(),
            None => 0,
        }
    } else {
        match &state.worker {
            Some(worker) => worker.ports.len(),
            None => 0,
        }
    };
    if places == 0 {
        0
    } else {
        places - 1
    }
}

/// What the first message to a worker says.
pub struct InitMessage {
    /// The worker's own ID.
    pub thread_id: ThreadId,
    /// The sender's ID.
    pub sender_id: ThreadId,
    /// The payload for the callback: the number of the worker's own ID.
    pub js_payload: u32,
    /// The number of threads, with the main thread.
    pub thread_count: usize,
    /// The worker's ports by thread ID.
    pub ports: Vec<Option<PortRef>>,
    /// The ports to transfer with the message.
    pub transfer: Vec<PortRef>,
}

impl InitMessage {
    /// The message to worker `thread_id` of `thread_count` threads.
    pub open spec fn introduces(&self, thread_id: int, thread_count: int) -> bool {
        &&& self.thread_id.0 == thread_id
        &&& self.sender_id == ThreadId::main_thread()
        &&& self.js_payload == thread_id
        &&& self.thread_count == thread_count
        &&& self.ports@ == crate::ports::ports_of(thread_id, thread_count)
        &&& self.transfer@ == crate::ports::present(self.ports@)
    }

    /// The fields of the message, where `data` and `vtable` are the halves of its callback.
    pub fn fields(&self, data: usize, vtable: usize) -> (fields: Vec<
        (&'static str, FieldValue<u32>),
    >)
        ensures
            crate::messages::fields_of(fields@) == seq![
                ("__wwm_wasm_module"@, FieldValue::WasmModule),
                ("__wwm_wasm_memory"@, FieldValue::WasmMemory),
                ("__wwm_callback"@, crate::messages::callback_value(data, vtable)),
                ("__wwm_js_payload"@, FieldValue::Payload(self.js_payload)),
                ("__wwm_thread_id"@, FieldValue::Number(self.thread_id.0 as u64)),
                ("__wwm_sender_id"@, FieldValue::Number(self.sender_id.0 as u64)),
                ("__wwm_ports"@, FieldValue::Ports),
                ("__wwm_thread_count"@, FieldValue::Number(self.thread_count as u64)),
            ],
    {
        let mut fields: Vec<(&'static str, FieldValue<u32>)> = Vec::new();
        fields.push((WASM_MODULE, FieldValue::WasmModule));
        fields.push((WASM_MEMORY, FieldValue::WasmMemory));
        fields.push((CALLBACK, FieldValue::Callback(create_callback_array(data, vtable))));
        fields.push((JS_PAYLOAD, FieldValue::Payload(self.js_payload)));
        fields.push((THREAD_ID, FieldValue::Number(self.thread_id.0 as u64)));
        fields.push((SENDER_ID, FieldValue::Number(self.sender_id.0 as u64)));
        fields.push((PORTS, FieldValue::Ports));
        fields.push((THREAD_COUNT, FieldValue::Number(self.thread_count as u64)));
        assert(crate::messages::fields_of(fields@) =~= seq![
            ("__wwm_wasm_module"@, FieldValue::WasmModule),
            ("__wwm_wasm_memory"@, FieldValue::WasmMemory),
            ("__wwm_callback"@, crate::messages::callback_value(data, vtable)),
            ("__wwm_js_payload"@, FieldValue::Payload(self.js_payload)),
            ("__wwm_thread_id"@, FieldValue::Number(self.thread_id.0 as u64)),
            ("__wwm_sender_id"@, FieldValue::Number(self.sender_id.0 as u64)),
            ("__wwm_ports"@, FieldValue::Ports),
            ("__wwm_thread_count"@, FieldValue::Number(self.thread_count as u64)),
        ]);
        fields
    }
}

/// The steps to bring up the workers.
pub struct InitPlan {
    /// The status array, with no worker spawned.
    pub statuses: WorkerStatusArray,
    /// The channels to create: their two workers, the smaller first.
    pub channels: Vec<(usize, usize)>,
    /// The first message to each worker, in the order in which they are spawned.
    pub messages: Vec<InitMessage>,
}

impl InitPlan {
    /// The plan for `worker_count` workers.
    pub open spec fn brings_up(&self, worker_count: int) -> bool {
        &&& self.statuses@ == Seq::new(
            worker_count as nat,
            |i: int| WorkerStatus::Uninitialized,
        )
        &&& crate::ports::lists_channels(self.channels@, worker_count + 1)
        &&& self.messages@.len() == worker_count
        &&& forall|i: int|
            0 <= i < worker_count ==> (#[trigger] self.messages@[i]).introduces(
                i + 1,
                worker_count + 1,
            )
    }
}

fn init_message(
    thread_id: usize,
    thread_count: usize,
    row: &Vec<Option<PortRef>>,
) -> (message: InitMessage)
    requires
        thread_id <= u32::MAX,
        row@ == crate::ports::ports_of(thread_id as int, thread_count as int),
    ensures
        message.introduces(thread_id as int, thread_count as int),
{
    let mut ports: Vec<Option<PortRef>> = Vec::with_capacity(row.len());
    let mut transfer: Vec<PortRef> = Vec::new();
    let mut i: usize = 0;
    while i < row.len()
        invariant
            i <= row@.len(),
            ports@ == row@.take(i as int),
            transfer@ == crate::ports::present(row@.take(i as int)),
        decreases row@.len() - i,
    {
        assert(row@.take(i + 1).drop_last() =~= row@.take(i as int));
        let port: Option<PortRef> = row[i];
        ports.push(port);
        match port {
            Some(port) => {
                transfer.push(port);
            },
            None => {},
        }
        i = i + 1;
    }
    assert(row@.take(i as int) =~= row@);
    InitMessage {
        thread_id: ThreadId(thread_id as u32),
        sender_id: ThreadId::main_thread(),
        js_payload: thread_id as u32,
        thread_count,
        ports,
        transfer,
    }
}

/// Makes the main thread the manager of `worker_count` workers and plans how to bring them up. IDs
/// have 32 bits, and the main thread needs one too.
pub fn init_web_worker_manager<W, P>(
    state: &mut ThreadState<W, P>,
    context: ThreadContext,
    worker_count: usize,
) -> (plan: InitPlan)
    requires
        old(state).can_initialize(context),
        worker_count < u32::MAX,
    ensures
        final(state).my_thread_id == Some(ThreadId::main_thread()),
        final(state).main == old(state).main,
        final(state).worker == old(state).worker,
        plan.brings_up(worker_count as int),
{
    state.my_thread_id = Some(ThreadId::main_thread());
    let thread_count: usize = worker_count + 1;
    let statuses = init_worker_status_array(worker_count);
    let port_plan = plan_ports(thread_count);
    let mut messages: Vec<InitMessage> = Vec::with_capacity(worker_count);
    let mut thread_id: usize = 1;
    while thread_id < thread_count
        invariant
            1 <= thread_id <= thread_count <= u32::MAX,
            port_plan.plans(thread_count as int),
            messages@.len() == thread_id - 1,
            forall|i: int|
                0 <= i < thread_id - 1 ==> (#[trigger] messages@[i]).introduces(
                    i + 1,
                    thread_count as int,
                ),
        decreases thread_count - thread_id,
    {
        messages.push(init_message(thread_id, thread_count, &port_plan.ports[thread_id]));
        thread_id = thread_id + 1;
    }
    InitPlan { statuses, channels: port_plan.channels, messages }
}

/// Ends the initialization: all workers were spawned, and `main` holds their handles.
pub fn web_workers_are_up<W, P>(state: &mut ThreadState<W, P>, main: MainThreadState<W>)
    requires
        old(state).main is None,
        main.wf(),
    ensures
        old(state).comes_up(main, *final(state)),
{
    state.main = Some(main);
}

/// The ports of a worker by thread ID, one for each of `thread_count` threads, where `given` is
/// what the first message brought: what is missing there is no port.
pub open spec fn ports_by_thread<P>(given: Seq<Option<P>>, thread_count: u32) -> Seq<Option<P>> {
    Seq::new(
        thread_count as nat,
        |i: int|
            if i < given.len() {
                given[i]
            } else {
                None
            },
    )
}

/// The threads that `ports` has a port to, in order.
pub open spec fn threads_with_port<P>(ports: Seq<Option<P>>) -> Seq<ThreadId>
    decreases ports.len(),
{
    if ports.len() == 0 {
        Seq::empty()
    } else if ports.last() is Some {
        threads_with_port(ports.drop_last()).push(ThreadId((ports.len() - 1) as u32))
    } else {
        threads_with_port(ports.drop_last())
    }
}

/// Makes a thread the worker `thread_id` and gives the threads to listen to: what comes in on the
/// port to a thread is sent by that thread.
pub fn __wwm_internal_worker_init<W, P>(
    state: &mut ThreadState<W, P>,
    context: ThreadContext,
    thread_id: u32,
    ports: Vec<Option<P>>,
    thread_count: u32,
) -> (senders: Vec<ThreadId>)
    requires
        context != ThreadContext::Window,
    ensures
        final(state).my_thread_id == Some(ThreadId(thread_id)),
        final(state).main == old(state).main,
        final(state).worker is Some,
        final(state).worker->0.ports@ == ports_by_thread(ports@, thread_count),
        senders@ == threads_with_port(final(state).worker->0.ports@),
{
    let ghost given = ports@;
    let mut ports: Vec<Option<P>> = ports;
    let mut senders: Vec<ThreadId> = Vec::new();
    let ghost wanted = ports_by_thread(given, thread_count);
    let mut tid: u32 = 0;
    assert(wanted.take(0) =~= Seq::empty());
    while tid < thread_count
        invariant
            tid <= thread_count,
            wanted == ports_by_thread(given, thread_count),
            ports@.len() == if given.len() < tid {
                tid as nat
            } else {
                given.len()
            },
            forall|i: int| 0 <= i < given.len() ==> (#[trigger] ports@[i]) == given[i],
            forall|i: int|
                given.len() <= i < ports@.len() ==> (#[trigger] ports@[i]) is None,
            senders@ == threads_with_port(wanted.take(tid as int)),
        decreases thread_count - tid,
    {
        assert(wanted.take(tid + 1).drop_last() =~= wanted.take(tid as int));
        let at: usize = tid as usize;
        if at >= ports.len() {
            ports.push(None);
        }
        if ports[at].is_some() {
            senders.push(ThreadId(tid));
        }
        tid = tid + 1;
    }
    assert(wanted.take(tid as int) =~= wanted);
    ports.truncate(thread_count as usize);
    assert(ports@ =~= wanted);
    state.my_thread_id = Some(ThreadId(thread_id));
    state.worker = Some(WorkerThreadState { ports });
    senders
}

/// Runs the callback of a worker's first message: `on_init` is called once, with the worker's own
/// ID, and gives the event to note when it has returned.
pub fn run_first_callback<W, P, F: FnOnce(ThreadId)>(
    state: &ThreadState<W, P>,
    on_init: F,
) -> (event: WorkerEvent)
    requires
        state.my_thread_id is Some,
        call_requires(on_init, (state.my_thread_id->0,)),
    ensures
        call_ensures(on_init, (state.my_thread_id->0,), ()),
        event == WorkerEvent::Initialized(state.my_thread_id->0),
{
    let my_id: ThreadId = my_thread_id(state);
    on_init(my_id);
    WorkerEvent::Initialized(my_id)
}

/// The way that a message takes.
pub enum Route<'a, W, P> {
    /// The microtask queue of the sender itself, in a page.
    OwnPageQueue,
    /// The microtask queue of the sender itself, in a worker.
    OwnWorkerQueue,
    /// From the main thread to a worker.
    ToWorker(&'a W),
    /// From a worker to the main thread.
    ToMain,
    /// From a worker to another worker.
    Through(&'a P),
}

/// Why a message cannot be sent.
#[derive(Debug, Clone, Copy, PartialEq, Eq, Structural)]
pub enum SendError {
    /// The main thread has no handle of the target.
    WorkerNotFound,
    /// The worker has no port to the target.
    NoPort,
}

impl SendError {
    /// What the sender is told.
    pub open spec fn text(self) -> Seq<char> {
        match self {
            SendError::WorkerNotFound => "Worker not found"@,
            SendError::NoPort => "No MessagePort to target worker"@,
        }
    }

    /// What the sender is told.
    pub fn message(&self) -> (text: String)
        ensures
            text@ == self.text(),
    {
        match self {
            SendError::WorkerNotFound => "Worker not found".to_owned(),
            SendError::NoPort => "No MessagePort to target worker".to_owned(),
        }
    }
}

/// A message on its way.
pub struct Delivery<'a, W, P> {
    /// The sender's ID, which goes with the message.
    pub sender_id: ThreadId,
    /// The way that it takes.
    pub route: Route<'a, W, P>,
}

impl<'a, W, P> Delivery<'a, W, P> {
    /// The message to post on the way, which runs the callback with the halves `data` and
    /// `vtable` on the thread at its end.
    pub fn message<J, X>(
        &self,
        data: usize,
        vtable: usize,
        js_payload: J,
        transfer: Option<X>,
    ) -> (message: TaskMessage<J, X>)
        ensures
            message.carries(self.sender_id, data, vtable, js_payload, transfer),
            message.transfer == transfer,
    {
        task_message(self.sender_id, data, vtable, js_payload, transfer)
    }
}

/// What is held at the place of a thread.
pub open spec fn held_at<T>(places: Seq<Option<T>>, thread_id: ThreadId) -> Option<T> {
    if thread_id.0 < places.len() {
        places[thread_id.0 as int]
    } else {
        None
    }
}

/// The way that a message takes from the thread `my_id` to the thread `target`.
pub open spec fn route_of<W, P>(
    state: ThreadState<W, P>,
    my_id: ThreadId,
    target: ThreadId,
) -> Result<Route<'static, W, P>, SendError> {
    if my_id == target && my_id == ThreadId::main_thread() {
        Ok(Route::OwnPageQueue)
    } else if my_id == target {
        Ok(Route::OwnWorkerQueue)
    } else if my_id == ThreadId::main_thread() {
        match held_at(state.main->0.workers@, target) {
            Some(worker) => Ok(Route::ToWorker(&worker)),
            None => Err(SendError::WorkerNotFound),
        }
    } else if target == ThreadId::main_thread() {
        Ok(Route::ToMain)
    } else {
        match held_at(state.worker->0.ports@, target) {
            Some(port) => Ok(Route::Through(&port)),
            None => Err(SendError::NoPort),
        }
    }
}

fn held<T>(places: &Vec<Option<T>>, thread_id: ThreadId) -> (handle: Option<&T>)
    ensures
        match held_at(places@, thread_id) {
            Some(h) => handle == Some(&h),
            None => handle is None,
        },
{
    let at: usize = thread_id.0 as usize;
    if at < places.len() {
        places[at].as_ref()
    } else {
        None
    }
}

/// Finds the way of a message to any thread: a thread reaches itself through its microtask queue,
/// the main thread posts to a worker and a worker to the main thread, and workers reach each other
/// through their channels.
pub fn send_to_thread<'a, W, P>(
    state: &'a ThreadState<W, P>,
    target: ThreadId,
) -> (delivery: Result<Delivery<'a, W, P>, SendError>)
    requires
        state.my_thread_id is Some,
        state.my_thread_id == Some(ThreadId::main_thread()) && target != ThreadId::main_thread()
            ==> state.main is Some,
        state.my_thread_id != Some(ThreadId::main_thread()) && state.my_thread_id != Some(target)
            && target != ThreadId::main_thread() ==> state.worker is Some,
    ensures
        match route_of(*state, state.my_thread_id->0, target) {
            Ok(route) => delivery == Ok::<Delivery<'a, W, P>, SendError>(
                Delivery { sender_id: state.my_thread_id->0, route },
            ),
            Err(e) => delivery == Err::<Delivery<'a, W, P>, SendError>(e),
        },
{
    let my_id: ThreadId = my_thread_id(state);
    if my_id == target {
        let route = if my_id.is_main() {
            Route::OwnPageQueue
        } else {
            Route::OwnWorkerQueue
        };
        return Ok(Delivery { sender_id: my_id, route });
    }
    if my_id.is_main() {
        let worker: Option<&W> = match &state.main {
            Some(main) => held(&main.workers, target),
            None => None,
        };
        match worker {
            Some(worker) => Ok(Delivery { sender_id: my_id, route: Route::ToWorker(worker) }),
            None => Err(SendError::WorkerNotFound),
        }
    } else if target.is_main() {
        Ok(Delivery { sender_id: my_id, route: Route::ToMain })
    } else {
        let port: Option<&P> = match &state.worker {
            Some(worker) => held(&worker.ports, target),
            None => None,
        };
        match port {
            Some(port) => Ok(Delivery { sender_id: my_id, route: Route::Through(port) }),
            None => Err(SendError::NoPort),
        }
    }
}

/// Once the workers are up, the manager cannot be initialized a second time, and it counts the
/// workers whose handles were taken in.
pub proof fn law_initialized_once<W, P>(
    before: ThreadState<W, P>,
    main: MainThreadState<W>,
    after: ThreadState<W, P>,
    context: ThreadContext,
)
    requires
        before.comes_up(main, after),
    ensures
        !after.can_initialize(context),
        workers_of(after.main->0.workers@.len()) == main.workers@.len() - 1,
{
}

/// Once every worker of the plan was spawned, each of them is up if its first callback has run,
/// and initializing if not, whatever has happened in which order.
pub proof fn law_statuses_once_all_are_spawned(
    plan: InitPlan,
    worker_count: int,
    events: Seq<WorkerEvent>,
    thread_id: ThreadId,
)
    requires
        plan.brings_up(worker_count),
        forall|i: int|
            0 <= i < worker_count ==> events.contains(
                WorkerEvent::Spawned((#[trigger] plan.messages@[i]).thread_id),
            ),
        1 <= thread_id.0 <= worker_count,
    ensures
        crate::worker_status::status_of(
            crate::worker_status::after_events(Some(plan.statuses@), events),
            thread_id,
        ) == if events.contains(WorkerEvent::Initialized(thread_id)) {
            WorkerStatus::Normal
        } else {
            WorkerStatus::Initializing
        },
{
    assert(plan.messages@[thread_id.0 - 1].introduces(thread_id.0 as int, worker_count + 1));
    crate::worker_status::law_status_tells_how_far_a_worker_is(
        worker_count as nat,
        events,
        thread_id,
    );
}

/// When worker `thread_id` has run its first callback and the event was noted, that worker is up,
/// and no other thread's status has changed.
pub proof fn law_first_callback_brings_up_its_worker<W, P>(
    state: ThreadState<W, P>,
    known: Option<Seq<WorkerStatus>>,
    event: WorkerEvent,
    thread_id: ThreadId,
    other: ThreadId,
)
    requires
        state.my_thread_id == Some(thread_id),
        event == WorkerEvent::Initialized(state.my_thread_id->0),
        crate::worker_status::is_worker(known, thread_id),
        other != thread_id,
    ensures
        crate::worker_status::status_of(
            crate::worker_status::after_event(known, event),
            thread_id,
        ) == WorkerStatus::Normal,
        crate::worker_status::status_of(crate::worker_status::after_event(known, event), other)
            == crate::worker_status::status_of(known, other),
{
}

/// A worker listens to a thread exactly if it has a port to it.
pub proof fn law_listens_where_ports_are<P>(ports: Seq<Option<P>>, thread_id: ThreadId)
    requires
        ports.len() <= u32::MAX,
    ensures
        threads_with_port(ports).contains(thread_id) <==> held_at(ports, thread_id) is Some,
    decreases ports.len(),
{
    if ports.len() != 0 {
        let earlier = ports.drop_last();
        let last = ThreadId((ports.len() - 1) as u32);
        law_listens_where_ports_are(earlier, thread_id);
        let listened = threads_with_port(earlier);
        if ports.last() is Some {
            assert(listened.push(last)[listened.len() as int] == last);
            if listened.contains(thread_id) {
                let i = choose|i: int| 0 <= i < listened.len() && listened[i] == thread_id;
                assert(listened.push(last)[i] == thread_id);
            }
        }
    }
}

/// Once the workers are up as planned, a message from worker `i` to another worker `j` goes into
/// one port of the channel between them, and worker `j` listens at the other port to worker `i`.
pub proof fn law_workers_reach_each_other<W>(
    from: ThreadState<W, PortRef>,
    to: ThreadState<W, PortRef>,
    i: u32,
    j: u32,
    thread_count: u32,
)
    requires
        1 <= i < thread_count,
        1 <= j < thread_count,
        i != j,
        from.my_thread_id == Some(ThreadId(i)),
        from.worker is Some,
        from.worker->0.ports@ == ports_by_thread(
            crate::ports::ports_of(i as int, thread_count as int),
            thread_count,
        ),
        to.worker is Some,
        to.worker->0.ports@ == ports_by_thread(
            crate::ports::ports_of(j as int, thread_count as int),
            thread_count,
        ),
    ensures
        route_of(from, ThreadId(i), ThreadId(j)) matches Ok(Route::Through(port)) && held_at(
            to.worker->0.ports@,
            ThreadId(i),
        ) matches Some(other) && port.channel == other.channel && port.end != other.end,
        threads_with_port(to.worker->0.ports@).contains(ThreadId(i)),
{
    if i < j {
        crate::ports::law_ports_pair_up(i as int, j as int, thread_count as int);
    } else {
        crate::ports::law_ports_pair_up(j as int, i as int, thread_count as int);
    }
    law_listens_where_ports_are(to.worker->0.ports@, ThreadId(i));
}

/// The main thread reaches every worker that it has taken in, and no other thread but itself.
pub proof fn law_main_reaches_every_worker<W, P>(state: ThreadState<W, P>, target: ThreadId)
    requires
        state.my_thread_id == Some(ThreadId::main_thread()),
        state.main is Some,
        state.main->0.wf(),
    ensures
        route_of(state, ThreadId::main_thread(), target) is Ok <==> target.0
            < state.main->0.workers@.len(),
        1 <= target.0 < state.main->0.workers@.len() ==> (route_of(
            state,
            ThreadId::main_thread(),
            target,
        ) matches Ok(Route::ToWorker(worker)) && state.main->0.workers@[target.0 as int] == Some(
            *worker,
        )),
{
}

/// Every thread reaches itself, and every worker reaches the main thread.
pub proof fn law_self_and_main_are_reached<W, P>(state: ThreadState<W, P>, my_id: ThreadId)
    ensures
        my_id == ThreadId::main_thread() ==> route_of(state, my_id, my_id) == Ok::<
            Route<'static, W, P>,
            SendError,
        >(Route::OwnPageQueue),
        my_id != ThreadId::main_thread() ==> route_of(state, my_id, my_id) == Ok::<
            Route<'static, W, P>,
            SendError,
        >(Route::OwnWorkerQueue),
        my_id != ThreadId::main_thread() ==> route_of(state, my_id, ThreadId::main_thread())
            == Ok::<Route<'static, W, P>, SendError>(Route::ToMain),
{
}

/// The number of workers is the number of threads without the main thread.
pub proof fn law_workers_are_the_other_threads(workers: nat)
    ensures
        workers_of(workers + 1) == workers,
        workers_of(0) == 0,
{
}

/// The main thread's state is well-formed exactly if its own place is the only empty one.
pub proof fn law_only_the_main_place_is_empty<W>(main: MainThreadState<W>)
    ensures
        main.wf() <==> main.workers@.len() != 0 && forall|i: int|
            0 <= i < main.workers@.len() ==> ((#[trigger] main.workers@[i]) is None <==> i == 0),
{
}

/// The manager can be initialized exactly on the main thread of a page that has not done so.
pub proof fn law_who_can_initialize<W, P>(state: ThreadState<W, P>, context: ThreadContext)
    ensures
        state.can_initialize(context) <==> context is Window && !(state.main is Some),
{
}

/// Coming up puts the workers in and changes nothing else.
pub proof fn law_coming_up_puts_the_workers_in<W, P>(
    before: ThreadState<W, P>,
    main: MainThreadState<W>,
    after: ThreadState<W, P>,
)
    requires
        before.comes_up(main, after),
    ensures
        after == (ThreadState { main: Some(main), ..before }),
{
}

/// What the plan says to any two workers, `i` and `j`. Each learns its own number, as its ID and
/// as its payload, the sender, which is the main thread, and the number of threads. Each has no
/// port to the main thread and to itself; to each other they have the two ends of one channel,
/// which the plan lists as theirs; all ports of a worker, and no others, are transferred to it.
/// None of the workers is spawned yet.
pub proof fn law_what_the_plan_says_to_workers(
    plan: InitPlan,
    worker_count: int,
    i: int,
    j: int,
    port: PortRef,
)
    requires
        plan.brings_up(worker_count),
        0 <= worker_count <= u32::MAX,
        1 <= i <= worker_count,
        1 <= j <= worker_count,
        i != j,
    ensures
        plan.messages@.len() == worker_count,
        plan.messages@[i - 1].thread_id.0 == i,
        plan.messages@[i - 1].js_payload == i,
        plan.messages@[i - 1].sender_id.0 == 0,
        plan.messages@[i - 1].thread_count == worker_count + 1,
        plan.messages@[i - 1].ports@.len() == worker_count + 1,
        plan.messages@[i - 1].ports@[0] is None,
        plan.messages@[i - 1].ports@[i] is None,
        plan.messages@[i - 1].ports@[j] is Some,
        ({
            let mine = plan.messages@[i - 1].ports@[j]->0;
            let other = plan.messages@[j - 1].ports@[i]->0;
            &&& plan.messages@[j - 1].ports@[i] is Some
            &&& mine.channel == other.channel
            &&& mine.channel < plan.channels@.len()
            &&& i < j ==> mine.end == crate::ports::PortEnd::Port1 && other.end
                == crate::ports::PortEnd::Port2
            &&& i < j ==> plan.channels@[mine.channel as int].0 == i
                && plan.channels@[mine.channel as int].1 == j
        }),
        plan.messages@[i - 1].transfer@.contains(port) <==> plan.messages@[i - 1].ports@.contains(
            Some(port),
        ),
        2 * plan.channels@.len() == worker_count * (worker_count - 1),
        plan.statuses@.len() == worker_count,
        plan.statuses@[i - 1] == WorkerStatus::Uninitialized,
{
    let thread_count = worker_count + 1;
    assert(plan.channels.len() == plan.channels@.len());
    assert(plan.messages@[i - 1].introduces(i, thread_count));
    assert(plan.messages@[j - 1].introduces(j, thread_count));
    let (low, high) = if i < j {
        (i, j)
    } else {
        (j, i)
    };
    let channel = crate::ports::channel_between(low, high, thread_count);
    assert(0 <= channel < plan.channels@.len());
    assert(plan.channels@[channel] == (low as usize, high as usize));
    crate::ports::law_ports_by_thread(i, 0, thread_count);
    crate::ports::law_ports_by_thread(i, i, thread_count);
    crate::ports::law_ports_by_thread(i, j, thread_count);
    crate::ports::law_ports_by_thread(j, i, thread_count);
    crate::ports::law_no_port_to_main_or_self(i, thread_count);
    crate::ports::law_ports_pair_up(low, high, thread_count);
    crate::ports::law_transfer_is_what_is_there(plan.messages@[i - 1].ports@, port);
    crate::ports::law_channel_count(thread_count);
    crate::thread_id::law_main_is_zero(plan.messages@[i - 1].sender_id);
    assert((thread_count - 1) * (thread_count - 2) == worker_count * (worker_count - 1));
}

/// A plan for any number of workers, none and one among them, has a message for each, in order,
/// and a status for each.
pub proof fn law_what_the_plan_says_to_a_worker(plan: InitPlan, worker_count: int, i: int)
    requires
        plan.brings_up(worker_count),
        1 <= i <= worker_count,
    ensures
        plan.messages@.len() == worker_count,
        plan.messages@[i - 1].thread_id.0 == i,
        plan.messages@[i - 1].js_payload == i,
        plan.messages@[i - 1].sender_id.0 == 0,
        plan.messages@[i - 1].thread_count == worker_count + 1,
        plan.messages@[i - 1].ports@.len() == worker_count + 1,
        plan.messages@[i - 1].ports@[0] is None,
        plan.messages@[i - 1].ports@[i] is None,
        plan.statuses@.len() == worker_count,
        plan.statuses@[i - 1] == WorkerStatus::Uninitialized,
{
    assert(plan.messages@[i - 1].introduces(i, worker_count + 1));
    crate::ports::law_ports_by_thread(i, 0, worker_count + 1);
    crate::ports::law_ports_by_thread(i, i, worker_count + 1);
    crate::thread_id::law_main_is_zero(plan.messages@[i - 1].sender_id);
}

/// The ports that are transferred to a worker stand in the order of the threads that they lead to.
pub proof fn law_transfer_is_in_order(message: InitMessage, thread_id: int, thread_count: int)
    requires
        message.introduces(thread_id, thread_count),
    ensures
        message.transfer@ == crate::ports::present(message.ports@),
        message.ports@ == crate::ports::ports_of(thread_id, thread_count),
{
}

/// A worker keeps the ports that it was given, by thread, as far as there are threads; what was not
/// given is no port.
pub proof fn law_given_ports_are_kept<P>(given: Seq<Option<P>>, thread_count: u32, i: int)
    requires
        0 <= i < thread_count,
    ensures
        ports_by_thread(given, thread_count).len() == thread_count,
        i < given.len() ==> ports_by_thread(given, thread_count)[i] == given[i],
        i >= given.len() ==> ports_by_thread(given, thread_count)[i] is None,
{
}

/// A worker listens to each thread once, in the order of their numbers.
pub proof fn law_listens_in_order<P>(ports: Seq<Option<P>>, i: int, j: int)
    requires
        ports.len() <= u32::MAX,
        0 <= i < j < threads_with_port(ports).len(),
    ensures
        threads_with_port(ports)[i].0 < threads_with_port(ports)[j].0 < ports.len(),
    decreases ports.len(),
{
    lemma_listens_below(ports, j);
    if ports.len() != 0 {
        let earlier = ports.drop_last();
        if j < threads_with_port(earlier).len() {
            law_listens_in_order(earlier, i, j);
        } else {
            lemma_listens_below(earlier, i);
        }
    }
}

proof fn lemma_listens_below<P>(ports: Seq<Option<P>>, i: int)
    requires
        ports.len() <= u32::MAX,
        0 <= i < threads_with_port(ports).len(),
    ensures
        threads_with_port(ports)[i].0 < ports.len(),
    decreases ports.len(),
{
    if ports.len() != 0 {
        let earlier = ports.drop_last();
        if i < threads_with_port(earlier).len() {
            lemma_listens_below(earlier, i);
        }
    }
}

/// What is held of a thread stands at the place with its number; beyond the places there is
/// nothing.
pub proof fn law_held_by_number<T>(places: Seq<Option<T>>, thread_id: ThreadId)
    ensures
        thread_id.0 < places.len() ==> held_at(places, thread_id) == places[thread_id.0 as int],
        thread_id.0 >= places.len() ==> held_at(places, thread_id) is None,
{
}

/// The way of a message between two different threads. From the main thread it goes to the worker
/// at the target's place, and is refused if there is none. From a worker it goes to the main thread
/// directly, and to another worker through the port at the target's place, and is refused if there
/// is none.
pub proof fn law_ways_between_threads<W, P>(
    state: ThreadState<W, P>,
    my_id: ThreadId,
    target: ThreadId,
)
    requires
        my_id != target,
    ensures
        my_id.0 == 0 && target.0 < state.main->0.workers@.len() ==> match state.main->0.workers@[
        target.0 as int] {
            Some(worker) => route_of(state, my_id, target) matches Ok(Route::ToWorker(w)) && *w
                == worker,
            None => route_of(state, my_id, target) matches Err(SendError::WorkerNotFound),
        },
        my_id.0 == 0 && target.0 >= state.main->0.workers@.len() ==> (route_of(
            state,
            my_id,
            target,
        ) matches Err(SendError::WorkerNotFound)),
        my_id.0 != 0 && target.0 == 0 ==> (route_of(state, my_id, target) matches Ok(
            Route::ToMain,
        )),
        my_id.0 != 0 && target.0 != 0 && target.0 < state.worker->0.ports@.len() ==> match
        state.worker->0.ports@[target.0 as int] {
            Some(port) => route_of(state, my_id, target) matches Ok(Route::Through(p)) && *p
                == port,
            None => route_of(state, my_id, target) matches Err(SendError::NoPort),
        },
        my_id.0 != 0 && target.0 != 0 && target.0 >= state.worker->0.ports@.len() ==> (route_of(
            state,
            my_id,
            target,
        ) matches Err(SendError::NoPort)),
{
}

/// What the sender is told of a message that cannot be sent.
pub proof fn law_what_senders_are_told()
    ensures
        SendError::WorkerNotFound.text() == "Worker not found"@,
        SendError::NoPort.text() == "No MessagePort to target worker"@,
{
}

} // verus!
