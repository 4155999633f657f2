//! Names of threads.

use vstd::prelude::*;
use crate::text::decimal_text;

verus! {

/// Thread identifier. `ThreadId(0)` is the main thread, `ThreadId(1..=n)` are workers.
#[derive(Debug, Clone, Copy, PartialEq, Eq, Hash, Structural)]
pub struct ThreadId(pub u32);

impl ThreadId {
    /// The main thread's ID.
    #[verifier::allow_in_spec]
    pub fn main_thread() -> ThreadId
        returns
            ThreadId(0),
    {
        ThreadId(0)
    }

    /// Returns true if this is the main thread.
    pub fn is_main(&self) -> (main: bool)
        ensures
            main == (*self == ThreadId::main_thread()),
    {
        self.0 == 0
    }

    /// The ID as log lines show it.
    pub open spec fn shown(self) -> Seq<char> {
        "ThreadId("@ + crate::text::numeral(self.0 as nat, 10) + ")"@
    }

    /// The ID as log lines show it.
    pub fn show(&self) -> (text: String)
        ensures
            text@ == self.shown(),
    {
        "ThreadId(".to_owned().concat(decimal_text(self.0 as u64).as_str()).concat(")")
    }
}

/// The main thread is number zero, and no other thread is.
pub proof fn law_main_is_zero(thread_id: ThreadId)
    ensures
        thread_id == ThreadId::main_thread() <==> thread_id.0 == 0,
{
}

/// A shown ID is its number in decimal between its name and a bracket, so that different threads
/// are shown differently.
pub proof fn law_shown_ids_tell_threads_apart(thread_id: ThreadId, other: ThreadId)
    ensures
        thread_id.shown() == "ThreadId("@ + crate::text::numeral(thread_id.0 as nat, 10) + ")"@,
        thread_id.shown() == other.shown() ==> thread_id == other,
{
    if thread_id.shown() == other.shown() {
        let a = crate::text::numeral(thread_id.0 as nat, 10);
        let b = crate::text::numeral(other.0 as nat, 10);
        let before = "ThreadId("@.len() as int;
        let behind = ")"@.len() as int;
        let shown = thread_id.shown();
        assert(a =~= shown.subrange(before, shown.len() - behind));
        assert(b =~= shown.subrange(before, shown.len() - behind));
        crate::text::law_numerals_tell_numbers_apart(thread_id.0 as nat, other.0 as nat, 10);
    }
}

} // verus!
