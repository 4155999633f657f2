//! What a thread does with a message that it receives.
//!
//! A task message carries the two halves of a callback, which the receiver runs, a payload for it,
//! and the sender's ID. The first message to a worker carries, besides these, the module and the
//! memory to start with, the worker's own ID, its ports and the number of threads.

use vstd::prelude::*;
use crate::thread_id::ThreadId;
use crate::web_mutex::ThreadContext;

verus! {

/// The field with the callback: its data and its vtable pointer.
pub const CALLBACK: &'static str = "__wwm_callback";

/// The field with the payload for the callback.
pub const JS_PAYLOAD: &'static str = "__wwm_js_payload";

/// The field with the sender's ID.
pub const SENDER_ID: &'static str = "__wwm_sender_id";

/// The field with the module, in a first message.
pub const WASM_MODULE: &'static str = "__wwm_wasm_module";

/// The field with the memory, in a first message.
pub const WASM_MEMORY: &'static str = "__wwm_wasm_memory";

/// The field with the worker's own ID, in a first message.
pub const THREAD_ID: &'static str = "__wwm_thread_id";

/// The field with the worker's ports by thread ID, in a first message.
pub const PORTS: &'static str = "__wwm_ports";

/// The field with the number of threads, in a first message.
pub const THREAD_COUNT: &'static str = "__wwm_thread_count";

/// The callback field of a message.
#[derive(Debug, Clone, Copy, PartialEq, Eq, Structural)]
pub enum CallbackField {
    /// The message can have no fields.
    Missing,
    /// The field is undefined.
    Undefined,
    /// The field is null.
    Null,
    /// The field is no array.
    NotAnArray,
    /// The field is an array; its first two elements where they are numbers.
    Slots { data: Option<usize>, vtable: Option<usize> },
}

/// The callback that a field carries, if it carries one: both elements have to be numbers.
pub open spec fn callback_of(field: CallbackField) -> Option<(usize, usize)> {
    match field {
        CallbackField::Slots { data: Some(data), vtable: Some(vtable) } => Some((data, vtable)),
        _ => None,
    }
}

/// The field that carries a callback.
pub fn create_callback_array(data: usize, vtable: usize) -> (field: CallbackField)
    ensures
        field == (CallbackField::Slots { data: Some(data), vtable: Some(vtable) }),
{
    CallbackField::Slots { data: Some(data), vtable: Some(vtable) }
}

/// The callback that a field carries.
pub fn parse_callback_array(field: &CallbackField) -> (callback: Option<(usize, usize)>)
    ensures
        callback == callback_of(*field),
{
    match field {
        CallbackField::Slots { data: Some(data), vtable: Some(vtable) } => Some((*data, *vtable)),
        _ => None,
    }
}

/// A field gives back the callback that it was made for.
pub proof fn law_callback_round_trip(data: usize, vtable: usize)
    ensures
        callback_of(CallbackField::Slots { data: Some(data), vtable: Some(vtable) }) == Some(
            (data, vtable),
        ),
{
}

/// What a field of a message holds.
pub enum FieldValue<J> {
    /// The module of the running instance.
    WasmModule,
    /// The memory of the running instance.
    WasmMemory,
    /// The two halves of a callback.
    Callback(CallbackField),
    /// The payload for the callback.
    Payload(J),
    /// A number.
    Number(u64),
    /// The ports of the worker that the message is for.
    Ports,
}

/// The names and values of a list of fields.
pub open spec fn fields_of<J>(fields: Seq<(&'static str, FieldValue<J>)>) -> Seq<
    (Seq<char>, FieldValue<J>),
> {
    fields.map_values(|field: (&'static str, FieldValue<J>)| (field.0@, field.1))
}

/// What carries the callback with the halves `data` and `vtable`.
pub open spec fn callback_value<J>(data: usize, vtable: usize) -> FieldValue<J> {
    FieldValue::Callback(CallbackField::Slots { data: Some(data), vtable: Some(vtable) })
}

/// A task message to post.
pub struct TaskMessage<J, X> {
    /// All its fields.
    pub fields: Vec<(&'static str, FieldValue<J>)>,
    /// What to transfer with it, if anything.
    pub transfer: Option<X>,
}

impl<J, X> TaskMessage<J, X> {
    /// The message of `sender_id` that runs the callback with `js_payload`.
    pub open spec fn carries(
        &self,
        sender_id: ThreadId,
        data: usize,
        vtable: usize,
        js_payload: J,
        transfer: Option<X>,
    ) -> bool {
        &&& fields_of(self.fields@) == seq![
            ("__wwm_callback"@, callback_value(data, vtable)),
            ("__wwm_js_payload"@, FieldValue::Payload(js_payload)),
            ("__wwm_sender_id"@, FieldValue::Number(sender_id.0 as u64)),
        ]
        &&& self.transfer == transfer
    }
}

/// The message of `sender_id` that runs the callback with the halves `data` and `vtable` on the
/// thread that receives it.
pub fn task_message<J, X>(
    sender_id: ThreadId,
    data: usize,
    vtable: usize,
    js_payload: J,
    transfer: Option<X>,
) -> (message: TaskMessage<J, X>)
    ensures
        message.carries(sender_id, data, vtable, js_payload, transfer),
        message.transfer == transfer,
{
    let mut fields: Vec<(&'static str, FieldValue<J>)> = Vec::new();
    fields.push((CALLBACK, FieldValue::Callback(create_callback_array(data, vtable))));
    fields.push((JS_PAYLOAD, FieldValue::Payload(js_payload)));
    fields.push((SENDER_ID, FieldValue::Number(sender_id.0 as u64)));
    assert(fields_of(fields@) =~= seq![
        ("__wwm_callback"@, callback_value(data, vtable)),
        ("__wwm_js_payload"@, FieldValue::Payload(js_payload)),
        ("__wwm_sender_id"@, FieldValue::Number(sender_id.0 as u64)),
    ]);
    TaskMessage { fields, transfer }
}

/// What to do with a message.
pub enum MessageAction {
    /// Run the callback, with the sender's ID.
    Invoke { sender_id: ThreadId, data: usize, vtable: usize },
    /// Log an error.
    LogError(String),
}

impl MessageAction {
    /// Runs the callback that `field` carries for `sender_id`, or logs `complaint` if it carries
    /// none.
    pub open spec fn answers(
        self,
        sender_id: ThreadId,
        field: CallbackField,
        complaint: Seq<char>,
    ) -> bool {
        match callback_of(field) {
            Some((data, vtable)) => self == (MessageAction::Invoke { sender_id, data, vtable }),
            None => self matches MessageAction::LogError(text) && text@ == complaint,
        }
    }
}

/// Whoever receives a task message runs the callback that it was made for, for the sender.
pub proof fn law_task_message_is_run<J, X>(
    message: TaskMessage<J, X>,
    sender_id: ThreadId,
    data: usize,
    vtable: usize,
    js_payload: J,
    transfer: Option<X>,
    action: MessageAction,
    complaint: Seq<char>,
)
    requires
        message.carries(sender_id, data, vtable, js_payload, transfer),
        fields_of(message.fields@)[0].1 matches FieldValue::Callback(field) && action.answers(
            sender_id,
            field,
            complaint,
        ),
    ensures
        action == (MessageAction::Invoke { sender_id, data, vtable }),
{
}

/// Handles a message that the main thread has from the worker `sender_id`; `shown` is the message
/// as log lines show it.
pub fn handle_message_from_worker(
    sender_id: ThreadId,
    field: &CallbackField,
    shown: &str,
) -> (action: MessageAction)
    ensures
        action.answers(
            sender_id,
            *field,
            "[WWM] Unknown message format from worker "@ + sender_id.shown() + ": "@ + shown@,
        ),
{
    match parse_callback_array(field) {
        Some((data, vtable)) => MessageAction::Invoke { sender_id, data, vtable },
        None => MessageAction::LogError(
            "[WWM] Unknown message format from worker ".to_owned().concat(
                sender_id.show().as_str(),
            ).concat(": ").concat(shown),
        ),
    }
}

/// Handles a message that a worker has from the worker `sender_id` through their channel; `shown`
/// is the message as log lines show it.
pub fn handle_message_from_channel(
    sender_id: ThreadId,
    field: &CallbackField,
    shown: &str,
) -> (action: MessageAction)
    ensures
        action.answers(
            sender_id,
            *field,
            "[WWM] Unknown message format from channel (sender "@ + sender_id.shown() + "): "@
                + shown@,
        ),
{
    match parse_callback_array(field) {
        Some((data, vtable)) => MessageAction::Invoke { sender_id, data, vtable },
        None => MessageAction::LogError(
            "[WWM] Unknown message format from channel (sender ".to_owned().concat(
                sender_id.show().as_str(),
            ).concat("): ").concat(shown),
        ),
    }
}

/// Handles a task message that a worker has from the thread with the number `sender_id`.
pub fn __wwm_internal_worker_handle_message(
    context: ThreadContext,
    sender_id: u32,
    field: &CallbackField,
) -> (action: MessageAction)
    requires
        context != ThreadContext::Window,
    ensures
        action.answers(ThreadId(sender_id), *field, "[WWM] Invalid callback array format"@),
{
    match parse_callback_array(field) {
        Some((data, vtable)) => MessageAction::Invoke {
            sender_id: ThreadId(sender_id),
            data,
            vtable,
        },
        None => MessageAction::LogError("[WWM] Invalid callback array format".to_owned()),
    }
}

/// A field carries a callback exactly if it is an array whose first two elements are numbers, and
/// then these two in their order.
pub proof fn law_callbacks_are_two_numbers(field: CallbackField, data: usize, vtable: usize)
    ensures
        callback_of(field) == Some((data, vtable)) <==> field == (CallbackField::Slots {
            data: Some(data),
            vtable: Some(vtable),
        }),
{
}

/// What a task message holds, whoever sends it: the callback, the payload and the sender's ID, in
/// three fields of their own names, and the transfer list that the caller gave, if any.
pub proof fn law_what_a_task_message_holds<J, X>(
    message: TaskMessage<J, X>,
    sender_id: ThreadId,
    data: usize,
    vtable: usize,
    js_payload: J,
    transfer: Option<X>,
)
    requires
        message.carries(sender_id, data, vtable, js_payload, transfer),
    ensures
        message.transfer == transfer,
        message.fields@.len() == 3,
        message.fields@[0].0@ == "__wwm_callback"@,
        message.fields@[0].1 == FieldValue::<J>::Callback(
            CallbackField::Slots { data: Some(data), vtable: Some(vtable) },
        ),
        message.fields@[1].0@ == "__wwm_js_payload"@,
        message.fields@[1].1 == FieldValue::Payload(js_payload),
        message.fields@[2].0@ == "__wwm_sender_id"@,
        message.fields@[2].1 == FieldValue::<J>::Number(sender_id.0 as u64),
{
    let fields = fields_of(message.fields@);
    assert(fields.len() == message.fields@.len());
    assert(fields[0] == (message.fields@[0].0@, message.fields@[0].1));
    assert(fields[1] == (message.fields@[1].0@, message.fields@[1].1));
    assert(fields[2] == (message.fields@[2].0@, message.fields@[2].1));
}

/// The names and values of a list of fields are those of its fields, one for one and in order.
pub proof fn law_fields_keep_their_order<J>(
    fields: Seq<(&'static str, FieldValue<J>)>,
    i: int,
)
    requires
        0 <= i < fields.len(),
    ensures
        fields_of(fields).len() == fields.len(),
        fields_of(fields)[i].0 == fields[i].0@,
        fields_of(fields)[i].1 == fields[i].1,
{
}

/// Sender and receiver call the fields by the same names.
pub proof fn law_names_of_fields()
    ensures
        CALLBACK@ == "__wwm_callback"@,
        JS_PAYLOAD@ == "__wwm_js_payload"@,
        SENDER_ID@ == "__wwm_sender_id"@,
        WASM_MODULE@ == "__wwm_wasm_module"@,
        WASM_MEMORY@ == "__wwm_wasm_memory"@,
        THREAD_ID@ == "__wwm_thread_id"@,
        PORTS@ == "__wwm_ports"@,
        THREAD_COUNT@ == "__wwm_thread_count"@,
{
}

/// A message is answered by running its callback for the sender exactly if it carries one; else
/// the complaint is logged, and nothing is run.
pub proof fn law_only_callbacks_are_run(
    action: MessageAction,
    sender_id: ThreadId,
    field: CallbackField,
    complaint: Seq<char>,
)
    requires
        action.answers(sender_id, field, complaint),
    ensures
        field matches CallbackField::Slots { data: Some(data), vtable: Some(vtable) } ==> action
            == (MessageAction::Invoke { sender_id, data, vtable }),
        !(field matches CallbackField::Slots { data: Some(_), vtable: Some(_) }) ==> (
        action matches MessageAction::LogError(text) && text@ == complaint),
{
}

} // verus!
