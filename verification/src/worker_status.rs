//! What the threads know of each worker.

use vstd::prelude::*;
use crate::thread_id::ThreadId;

verus! {

/// Status of a web worker.
#[derive(Debug, Clone, Copy, PartialEq, Eq, Structural)]
pub enum WorkerStatus {
    /// Not yet spawned, or not the ID of a worker.
    Uninitialized,
    /// Spawned, with its start not finished. Task messages can be sent to such a worker: the
    /// browser queues them.
    Initializing,
    /// The start has finished.
    Normal,
    /// Linking a patch.
    DynamicLinking,
}

impl WorkerStatus {
    /// The status that a cell of the status array stands for.
    pub open spec fn of_cell(v: u8) -> WorkerStatus {
        if v == 1 {
            WorkerStatus::Initializing
        } else if v == 2 {
            WorkerStatus::Normal
        } else if v == 3 {
            WorkerStatus::DynamicLinking
        } else {
            WorkerStatus::Uninitialized
        }
    }

    /// The number that stands for the status in a cell.
    pub open spec fn cell(self) -> u8 {
        match self {
            WorkerStatus::Uninitialized => 0,
            WorkerStatus::Initializing => 1,
            WorkerStatus::Normal => 2,
            WorkerStatus::DynamicLinking => 3,
        }
    }

    /// The status that a cell of the status array stands for.
    pub fn from_u8(v: u8) -> (status: WorkerStatus)
        ensures
            status == WorkerStatus::of_cell(v),
    {
        match v {
            1 => WorkerStatus::Initializing,
            2 => WorkerStatus::Normal,
            3 => WorkerStatus::DynamicLinking,
            _ => WorkerStatus::Uninitialized,
        }
    }

    /// The number that stands for the status in a cell.
    pub fn to_u8(self) -> (v: u8)
        ensures
            v == self.cell(),
    {
        match self {
            WorkerStatus::Uninitialized => 0,
            WorkerStatus::Initializing => 1,
            WorkerStatus::Normal => 2,
            WorkerStatus::DynamicLinking => 3,
        }
    }
}

/// One cell for each worker; worker `ThreadId(1)` has the first.
pub struct WorkerStatusArray {
    pub cells: Vec<u8>,
}

impl View for WorkerStatusArray {
    type V = Seq<WorkerStatus>;

    open spec fn view(&self) -> Seq<WorkerStatus> {
        self.cells@.map_values(|v: u8| WorkerStatus::of_cell(v))
    }
}

/// What a status array that may not be there yet holds.
pub open spec fn statuses(array: Option<WorkerStatusArray>) -> Option<Seq<WorkerStatus>> {
    match array {
        Some(array) => Some(array@),
        None => None,
    }
}

/// Whether `thread_id` is the ID of one of the workers that `known` holds.
pub open spec fn is_worker(known: Option<Seq<WorkerStatus>>, thread_id: ThreadId) -> bool {
    known matches Some(workers) && 1 <= thread_id.0 <= workers.len()
}

/// The status of a thread: the main thread is always up, and what is no thread is uninitialized.
pub open spec fn status_of(known: Option<Seq<WorkerStatus>>, thread_id: ThreadId) -> WorkerStatus {
    if thread_id == ThreadId::main_thread() {
        WorkerStatus::Normal
    } else if is_worker(known, thread_id) {
        known->0[thread_id.0 - 1]
    } else {
        WorkerStatus::Uninitialized
    }
}

/// What is known after the status of a thread was set; only that of a worker can be set.
pub open spec fn with_status(
    known: Option<Seq<WorkerStatus>>,
    thread_id: ThreadId,
    status: WorkerStatus,
) -> Option<Seq<WorkerStatus>> {
    if is_worker(known, thread_id) {
        Some(known->0.update(thread_id.0 - 1, status))
    } else {
        known
    }
}

/// The status array for `count` workers, none of them spawned.
pub fn init_worker_status_array(count: usize) -> (array: WorkerStatusArray)
    ensures
        array@ == Seq::new(count as nat, |i: int| WorkerStatus::Uninitialized),
{
    let mut cells: Vec<u8> = Vec::with_capacity(count);
    let mut i: usize = 0;
    while i < count
        invariant
            i <= count,
            cells@.len() == i,
            forall|k: int| 0 <= k < i ==> cells@[k] == WorkerStatus::Uninitialized.cell(),
        decreases count - i,
    {
        cells.push(WorkerStatus::Uninitialized.to_u8());
        i = i + 1;
    }
    WorkerStatusArray { cells }
}

/// The cell of a thread, if it is a worker.
fn cell_index(array: &Option<WorkerStatusArray>, thread_id: ThreadId) -> (index: Option<usize>)
    ensures
        index is Some <==> is_worker(statuses(*array), thread_id),
        index matches Some(i) ==> i == thread_id.0 - 1,
{
    if thread_id.is_main() {
        return None;
    }
    let Some(array) = array else {
        return None;
    };
    let index: usize = (thread_id.0 - 1) as usize;
    if index >= array.cells.len() {
        return None;
    }
    Some(index)
}

/// The status of a thread.
pub fn get_worker_status(array: &Option<WorkerStatusArray>, thread_id: ThreadId) -> (status:
    WorkerStatus)
    ensures
        status == status_of(statuses(*array), thread_id),
{
    if thread_id.is_main() {
        return WorkerStatus::Normal;
    }
    match (array, cell_index(array, thread_id)) {
        (Some(array), Some(index)) => WorkerStatus::from_u8(array.cells[index]),
        _ => WorkerStatus::Uninitialized,
    }
}

/// Sets the status of a worker. Nothing changes if there is no array yet or if `thread_id` is not
/// the ID of a worker.
pub fn set_worker_status(
    array: &mut Option<WorkerStatusArray>,
    thread_id: ThreadId,
    status: WorkerStatus,
)
    ensures
        statuses(*final(array)) == with_status(statuses(*old(array)), thread_id, status),
{
    let index: Option<usize> = cell_index(array, thread_id);
    match (array, index) {
        (Some(array), Some(index)) => {
            let ghost before = array@;
            array.cells.set(index, status.to_u8());
            assert(array@ =~= before.update(index as int, status));
        },
        _ => {},
    }
}

/// What happens to a worker on its way up.
#[derive(Debug, Clone, Copy, PartialEq, Eq, Structural)]
pub enum WorkerEvent {
    /// The worker was spawned, and its first message was posted.
    Spawned(ThreadId),
    /// The callback of the first message has run in the worker.
    Initialized(ThreadId),
}

/// What is known after `event`. The main thread may come to note that it has spawned a worker when
/// that worker is already up: then nothing changes.
pub open spec fn after_event(known: Option<Seq<WorkerStatus>>, event: WorkerEvent) -> Option<
    Seq<WorkerStatus>,
> {
    match event {
        WorkerEvent::Spawned(thread_id) => if status_of(known, thread_id)
            == WorkerStatus::Uninitialized {
            with_status(known, thread_id, WorkerStatus::Initializing)
        } else {
            known
        },
        WorkerEvent::Initialized(thread_id) => with_status(known, thread_id, WorkerStatus::Normal),
    }
}

/// What is known after `events`, in order.
pub open spec fn after_events(known: Option<Seq<WorkerStatus>>, events: Seq<WorkerEvent>) -> Option<
    Seq<WorkerStatus>,
>
    decreases events.len(),
{
    if events.len() == 0 {
        known
    } else {
        after_event(after_events(known, events.drop_last()), events.last())
    }
}

/// Notes that a worker was spawned and that its first message was posted: it is initializing from
/// then on, unless it is further already.
pub fn worker_is_spawned(array: &mut Option<WorkerStatusArray>, thread_id: ThreadId)
    ensures
        statuses(*final(array)) == after_event(
            statuses(*old(array)),
            WorkerEvent::Spawned(thread_id),
        ),
{
    if get_worker_status(array, thread_id) == WorkerStatus::Uninitialized {
        set_worker_status(array, thread_id, WorkerStatus::Initializing);
    }
}

/// Notes that the callback of a worker's first message has run.
pub fn worker_is_initialized(array: &mut Option<WorkerStatusArray>, thread_id: ThreadId)
    ensures
        statuses(*final(array)) == after_event(
            statuses(*old(array)),
            WorkerEvent::Initialized(thread_id),
        ),
{
    set_worker_status(array, thread_id, WorkerStatus::Normal);
}

/// Notes an event of a worker on its way up.
pub fn note_event(array: &mut Option<WorkerStatusArray>, event: WorkerEvent)
    ensures
        statuses(*final(array)) == after_event(statuses(*old(array)), event),
{
    match event {
        WorkerEvent::Spawned(thread_id) => worker_is_spawned(array, thread_id),
        WorkerEvent::Initialized(thread_id) => worker_is_initialized(array, thread_id),
    }
}

/// A worker has the status that was set last, and setting it changes no other thread's status; for
/// the main thread, and for what is no thread, setting a status changes nothing.
pub proof fn law_status_set_then_get(
    known: Option<Seq<WorkerStatus>>,
    thread_id: ThreadId,
    status: WorkerStatus,
    other: ThreadId,
)
    ensures
        is_worker(known, thread_id) ==> status_of(
            with_status(known, thread_id, status),
            thread_id,
        ) == status,
        other != thread_id ==> status_of(with_status(known, thread_id, status), other)
            == status_of(known, other),
        !is_worker(known, thread_id) ==> with_status(known, thread_id, status) == known,
        is_worker(with_status(known, thread_id, status), other) == is_worker(known, other),
{
}

/// Bringing up workers adds and removes none.
pub proof fn law_events_keep_the_workers(
    known: Option<Seq<WorkerStatus>>,
    events: Seq<WorkerEvent>,
    thread_id: ThreadId,
)
    ensures
        is_worker(after_events(known, events), thread_id) == is_worker(known, thread_id),
    decreases events.len(),
{
    if events.len() != 0 {
        law_events_keep_the_workers(known, events.drop_last(), thread_id);
    }
}

/// A thread that is up stays up, whatever worker is spawned or initialized after that.
pub proof fn law_normal_stays(
    known: Option<Seq<WorkerStatus>>,
    events: Seq<WorkerEvent>,
    thread_id: ThreadId,
)
    requires
        status_of(known, thread_id) == WorkerStatus::Normal,
    ensures
        status_of(after_events(known, events), thread_id) == WorkerStatus::Normal,
    decreases events.len(),
{
    if events.len() != 0 {
        law_normal_stays(known, events.drop_last(), thread_id);
    }
}

/// Among `count` workers of which none was spawned at first, the status tells how far a worker is:
/// it is up once it was initialized, else it is initializing once it was spawned; in which order
/// the two were noted does not matter, nor what happened to other workers.
pub proof fn law_status_tells_how_far_a_worker_is(
    count: nat,
    events: Seq<WorkerEvent>,
    thread_id: ThreadId,
)
    requires
        1 <= thread_id.0 <= count,
    ensures
        status_of(
            after_events(
                Some(Seq::new(count, |i: int| WorkerStatus::Uninitialized)),
                events,
            ),
            thread_id,
        ) == if events.contains(WorkerEvent::Initialized(thread_id)) {
            WorkerStatus::Normal
        } else if events.contains(WorkerEvent::Spawned(thread_id)) {
            WorkerStatus::Initializing
        } else {
            WorkerStatus::Uninitialized
        },
    decreases events.len(),
{
    if events.len() != 0 {
        let start = Some(Seq::new(count, |i: int| WorkerStatus::Uninitialized));
        let earlier = events.drop_last();
        law_status_tells_how_far_a_worker_is(count, earlier, thread_id);
        law_events_keep_the_workers(start, earlier, thread_id);
        lemma_contains_last(events, WorkerEvent::Initialized(thread_id));
        lemma_contains_last(events, WorkerEvent::Spawned(thread_id));
    }
}

proof fn lemma_contains_last(events: Seq<WorkerEvent>, event: WorkerEvent)
    requires
        events.len() != 0,
    ensures
        events.contains(event) <==> events.drop_last().contains(event) || events.last() == event,
{
    let earlier = events.drop_last();
    if events.contains(event) && events.last() != event {
        let i = choose|i: int| 0 <= i < events.len() && events[i] == event;
        assert(earlier[i] == event);
    }
    if earlier.contains(event) {
        let i = choose|i: int| 0 <= i < earlier.len() && earlier[i] == event;
        assert(events[i] == event);
    }
    if events.last() == event {
        assert(events[events.len() - 1] == event);
    }
}

/// A cell gives back the status that it was made from.
pub proof fn law_status_cell_round_trip(status: WorkerStatus)
    ensures
        WorkerStatus::of_cell(status.cell()) == status,
{
}

/// The cells of the statuses: a worker that is not spawned has zero, or any number that stands for
/// no other status.
pub proof fn law_what_cells_stand_for(status: WorkerStatus, v: u8)
    ensures
        status.cell() == 0 <==> status == WorkerStatus::Uninitialized,
        status.cell() == 1 <==> status == WorkerStatus::Initializing,
        status.cell() == 2 <==> status == WorkerStatus::Normal,
        status.cell() == 3 <==> status == WorkerStatus::DynamicLinking,
        v <= 3 ==> WorkerStatus::of_cell(v).cell() == v,
        v > 3 ==> WorkerStatus::of_cell(v) == WorkerStatus::Uninitialized,
{
}

/// An array has one status for each of its cells, in their order.
pub proof fn law_statuses_are_those_of_cells(array: WorkerStatusArray, i: int)
    requires
        0 <= i < array.cells@.len(),
    ensures
        array@.len() == array.cells@.len(),
        array@[i] == WorkerStatus::of_cell(array.cells@[i]),
        statuses(Some(array)) == Some(array@),
        statuses(None) is None,
{
}

/// The workers of an array are the threads from one up to its length; without an array there are
/// none.
pub proof fn law_who_is_a_worker(workers: Seq<WorkerStatus>, thread_id: ThreadId)
    ensures
        is_worker(Some(workers), thread_id) <==> 1 <= thread_id.0 <= workers.len(),
        !is_worker(None, thread_id),
{
}

/// The main thread is always up, a worker has the status at its place, and any other thread, or
/// any worker before there is an array, is uninitialized.
pub proof fn law_what_status_a_thread_has(workers: Seq<WorkerStatus>, thread_id: ThreadId)
    ensures
        thread_id.0 == 0 ==> status_of(Some(workers), thread_id) == WorkerStatus::Normal
            && status_of(None, thread_id) == WorkerStatus::Normal,
        1 <= thread_id.0 <= workers.len() ==> status_of(Some(workers), thread_id)
            == workers[thread_id.0 - 1],
        thread_id.0 > workers.len() && thread_id.0 != 0 ==> status_of(Some(workers), thread_id)
            == WorkerStatus::Uninitialized,
        thread_id.0 != 0 ==> status_of(None, thread_id) == WorkerStatus::Uninitialized,
{
}

/// What an event does to the status of its own thread: a worker that was spawned leaves no status
/// but the first one, a worker that is initialized is up from any status. It does nothing to other
/// threads.
pub proof fn law_what_an_event_changes(
    workers: Seq<WorkerStatus>,
    thread_id: ThreadId,
    other: ThreadId,
)
    requires
        1 <= thread_id.0 <= workers.len(),
        other != thread_id,
    ensures
        ({
            let before = workers[thread_id.0 - 1];
            let spawned = after_event(Some(workers), WorkerEvent::Spawned(thread_id));
            let initialized = after_event(Some(workers), WorkerEvent::Initialized(thread_id));
            &&& before == WorkerStatus::Uninitialized ==> status_of(spawned, thread_id)
                == WorkerStatus::Initializing
            &&& before != WorkerStatus::Uninitialized ==> status_of(spawned, thread_id) == before
            &&& status_of(initialized, thread_id) == WorkerStatus::Normal
            &&& status_of(spawned, other) == status_of(Some(workers), other)
            &&& status_of(initialized, other) == status_of(Some(workers), other)
        }),
{
}

/// Events are noted one after the other.
pub proof fn law_events_are_noted_in_order(
    known: Option<Seq<WorkerStatus>>,
    events: Seq<WorkerEvent>,
    event: WorkerEvent,
)
    ensures
        after_events(known, Seq::empty()) == known,
        after_events(known, events.push(event)) == after_event(after_events(known, events), event),
{
    assert(events.push(event).drop_last() =~= events);
}

} // verus!
