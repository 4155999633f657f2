//! Locks that are safe in a web page.
//!
//! The main thread of a page may not block, so there a lock is tried until it can be had; on every
//! other thread it is waited for.

use std::sync::LockResult;
use std::sync::Mutex;
use std::sync::MutexGuard;
use std::sync::PoisonError;
use std::sync::RwLock;
use std::sync::RwLockReadGuard;
use std::sync::RwLockWriteGuard;
use std::sync::TryLockError;
use vstd::prelude::*;
use crate::text::decimal_text;

verus! {

/// Where a thread runs.
#[derive(Debug, Clone, Copy, PartialEq, Eq, Structural)]
pub enum ThreadContext {
    /// Not in WebAssembly.
    Native,
    /// In WebAssembly, under the window of a page.
    Window,
    /// In WebAssembly, under the scope of a worker.
    Worker,
}

/// Returns whether a thread is the main thread of a page. Outside WebAssembly none is.
pub fn is_main_thread(context: ThreadContext) -> (main: bool)
    ensures
        main == (context == ThreadContext::Window),
{
    match context {
        ThreadContext::Window => true,
        ThreadContext::Native | ThreadContext::Worker => false,
    }
}

/// Returns whether a thread is any other than the main thread of a page.
pub fn is_worker_thread_cached(context: ThreadContext) -> (worker: bool)
    ensures
        worker == (context != ThreadContext::Window),
{
    !is_main_thread(context)
}

/// What to say of a call that has to come from the main thread and does not.
pub fn main_thread_violation(context: ThreadContext, file: &str, line: u32) -> (complaint: Option<
    String,
>)
    ensures
        complaint is None <==> context == ThreadContext::Window,
        complaint matches Some(text) ==> text@ == file@ + ":"@ + crate::text::numeral(
            line as nat,
            10,
        ) + " can only be called from the main thread"@,
{
    if is_main_thread(context) {
        None
    } else {
        let text: String = file.to_owned().concat(":").concat(
            decimal_text(line as u64).as_str(),
        ).concat(" can only be called from the main thread");
        Some(text)
    }
}

/// What to say of a call that has to come from a worker thread and does not.
pub fn worker_thread_violation(context: ThreadContext, file: &str, line: u32) -> (complaint:
    Option<String>)
    ensures
        complaint is None <==> context != ThreadContext::Window,
        complaint matches Some(text) ==> text@ == file@ + ":"@ + crate::text::numeral(
            line as nat,
            10,
        ) + " can only be called from a worker thread"@,
{
    if is_worker_thread_cached(context) {
        None
    } else {
        let text: String = file.to_owned().concat(":").concat(
            decimal_text(line as u64).as_str(),
        ).concat(" can only be called from a worker thread");
        Some(text)
    }
}

/// How a thread takes a lock.
#[derive(Debug, Clone, Copy, PartialEq, Eq, Structural)]
pub enum LockMode {
    /// By trying again and again.
    Spin,
    /// By waiting.
    Block,
}

/// How a thread takes a lock: the main thread of a page may not wait.
pub fn lock_mode(context: ThreadContext) -> (mode: LockMode)
    ensures
        mode == if context == ThreadContext::Window {
            LockMode::Spin
        } else {
            LockMode::Block
        },
{
    if is_main_thread(context) {
        LockMode::Spin
    } else {
        LockMode::Block
    }
}

/// How one attempt to take a lock came out.
pub enum LockAttempt<G, P> {
    /// The lock was taken.
    Acquired(G),
    /// Another thread holds the lock.
    WouldBlock,
    /// The lock was taken, but a thread panicked while it held it.
    Poisoned(P),
}

/// What an attempt settles; `None` if the lock has to be tried again.
pub open spec fn settled<G, P>(attempt: LockAttempt<G, P>) -> Option<Result<G, P>> {
    match attempt {
        LockAttempt::Acquired(guard) => Some(Ok(guard)),
        LockAttempt::WouldBlock => None,
        LockAttempt::Poisoned(poison) => Some(Err(poison)),
    }
}

/// What an attempt settles; `None` if the lock has to be tried again.
pub fn settle<G, P>(attempt: LockAttempt<G, P>) -> (outcome: Option<Result<G, P>>)
    ensures
        outcome == settled(attempt),
{
    match attempt {
        LockAttempt::Acquired(guard) => Some(Ok(guard)),
        LockAttempt::WouldBlock => None,
        LockAttempt::Poisoned(poison) => Some(Err(poison)),
    }
}

/// What trying again and again gives, where `attempts` is how the attempts come out.
pub open spec fn spun<G, P>(attempts: Seq<LockAttempt<G, P>>) -> Option<Result<G, P>>
    decreases attempts.len(),
{
    if attempts.len() == 0 {
        None
    } else {
        match settled(attempts[0]) {
            Some(outcome) => Some(outcome),
            None => spun(attempts.skip(1)),
        }
    }
}

/// Trying up to `limit` times ends in `outcome` with the attempts `made`: all but the last one
/// would have blocked, and there are less than `limit` only if the last one settled the lock.
pub open spec fn spins<G, P>(
    made: Seq<LockAttempt<G, P>>,
    limit: u64,
    outcome: Option<Result<G, P>>,
) -> bool {
    &&& made.len() <= limit
    &&& forall|i: int| 0 <= i < made.len() - 1 ==> (#[trigger] made[i]) is WouldBlock
    &&& outcome == spun(made)
    &&& outcome is None ==> made.len() == limit
}

proof fn lemma_all_would_block<G, P>(made: Seq<LockAttempt<G, P>>)
    requires
        forall|i: int| 0 <= i < made.len() ==> (#[trigger] made[i]) is WouldBlock,
    ensures
        spun(made) is None,
    decreases made.len(),
{
    if made.len() != 0 {
        assert forall|i: int| 0 <= i < made.skip(1).len() implies (
        #[trigger] made.skip(1)[i]) is WouldBlock by {
            assert(made.skip(1)[i] == made[i + 1]);
        }
        lemma_all_would_block(made.skip(1));
    }
}

/// A lock that is tried again and again, and how its attempts came out so far.
pub trait LockSource<G, P> {
    /// Whether attempt number `turn`, counted from zero, may come out as `attempt`.
    spec fn gives(&self, turn: nat, attempt: LockAttempt<G, P>) -> bool;

    /// How the attempts so far came out, in order.
    spec fn made(&self) -> Seq<LockAttempt<G, P>>;

    /// The source has kept count of its attempts.
    spec fn wf(&self) -> bool;

    /// Tries the lock once.
    fn attempt(&mut self) -> (attempt: LockAttempt<G, P>)
        requires
            old(self).wf(),
            old(self).made().len() < u64::MAX,
        ensures
            final(self).wf(),
            final(self).made() == old(self).made().push(attempt),
            old(self).gives(old(self).made().len(), attempt),
            forall|turn: nat, other: LockAttempt<G, P>|
                #[trigger] final(self).gives(turn, other) == old(self).gives(turn, other),
    ;
}

/// A lock that is tried by a call, which gets the number of the attempt.
#[verifier::reject_recursive_types(G)]
#[verifier::reject_recursive_types(P)]
#[verifier::reject_recursive_types(F)]
pub struct Tries<G, P, F: Fn(u64) -> LockAttempt<G, P>> {
    try_lock: F,
    turns: u64,
    made: Ghost<Seq<LockAttempt<G, P>>>,
}

impl<G, P, F: Fn(u64) -> LockAttempt<G, P>> Tries<G, P, F> {
    /// The call that tries the lock.
    pub closed spec fn try_lock(&self) -> F {
        self.try_lock
    }

    /// A lock that was not tried yet.
    pub fn new(try_lock: F) -> (tries: Self)
        requires
            forall|turn: u64| #[trigger] call_requires(try_lock, (turn,)),
        ensures
            tries.try_lock() == try_lock,
            tries.wf(),
            tries.made() == Seq::<LockAttempt<G, P>>::empty(),
    {
        Tries { try_lock, turns: 0, made: Ghost(Seq::empty()) }
    }

    /// An attempt may come out as the call that tries the lock may.
    pub proof fn lemma_gives(&self, turn: nat, attempt: LockAttempt<G, P>)
        ensures
            self.gives(turn, attempt) == call_ensures(
                self.try_lock(),
                (turn as u64,),
                attempt,
            ),
    {
    }
}

impl<G, P, F: Fn(u64) -> LockAttempt<G, P>> LockSource<G, P> for Tries<G, P, F> {
    open spec fn gives(&self, turn: nat, attempt: LockAttempt<G, P>) -> bool {
        call_ensures(self.try_lock(), (turn as u64,), attempt)
    }

    closed spec fn made(&self) -> Seq<LockAttempt<G, P>> {
        self.made@
    }

    closed spec fn wf(&self) -> bool {
        &&& self.turns == self.made@.len()
        &&& forall|turn: u64| #[trigger] call_requires(self.try_lock, (turn,))
    }

    fn attempt(&mut self) -> (attempt: LockAttempt<G, P>) {
        let attempt = (self.try_lock)(self.turns);
        self.turns = self.turns + 1;
        self.made = Ghost(self.made@.push(attempt));
        attempt
    }
}

/// Tries a lock up to `attempts` times, until an attempt settles it; `None` if none does.
pub fn spin<G, P, S: LockSource<G, P>>(source: &mut S, attempts: u64) -> (outcome: Option<
    Result<G, P>,
>)
    requires
        old(source).wf(),
        old(source).made().len() + attempts <= u64::MAX,
    ensures
        final(source).wf(),
        old(source).made().is_prefix_of(final(source).made()),
        spins(final(source).made().skip(old(source).made().len() as int), attempts, outcome),
        forall|turn: int|
            old(source).made().len() <= turn < final(source).made().len() ==> old(source).gives(
                turn as nat,
                #[trigger] final(source).made()[turn],
            ),
        forall|turn: nat, attempt: LockAttempt<G, P>|
            #[trigger] final(source).gives(turn, attempt) == old(source).gives(turn, attempt),
{
    let ghost before = source.made();
    let mut left: u64 = attempts;
    assert(before.skip(before.len() as int) =~= Seq::empty());
    while left > 0
        invariant
            source.wf(),
            before == old(source).made(),
            before.is_prefix_of(source.made()),
            source.made().len() - before.len() + left == attempts,
            before.len() + attempts <= u64::MAX,
            forall|turn: int|
                before.len() <= turn < source.made().len() ==> (
                #[trigger] source.made()[turn]) is WouldBlock,
            forall|turn: int|
                before.len() <= turn < source.made().len() ==> old(source).gives(
                    turn as nat,
                    #[trigger] source.made()[turn],
                ),
            forall|turn: nat, attempt: LockAttempt<G, P>|
                #[trigger] source.gives(turn, attempt) == old(source).gives(turn, attempt),
        decreases left,
    {
        let ghost earlier = source.made();
        let attempt = source.attempt();
        let ghost made = source.made().skip(before.len() as int);
        assert(source.gives(earlier.len(), attempt));
        assert(forall|i: int| 0 <= i < made.len() ==> made[i] == source.made()[before.len() + i]);
        assert(before =~= source.made().take(before.len() as int));
        match settle(attempt) {
            Some(outcome) => {
                proof {
                    law_first_settled_attempt_counts(made, made.len() - 1);
                }
                return Some(outcome);
            },
            None => {
                left = left - 1;
            },
        }
    }
    proof {
        lemma_all_would_block(source.made().skip(before.len() as int));
    }
    None
}

/// Takes a lock. On the main thread, which may not block, it is tried until an attempt settles it;
/// `attempts` tries are made here, and if none of them settles the lock, `keep_trying` goes on. On
/// every other thread the lock is not tried: `wait` waits for it.
pub fn take_lock<
    G,
    P,
    S: LockSource<G, P>,
    K: FnOnce() -> Result<G, P>,
    B: FnOnce() -> Result<G, P>,
>(source: &mut S, context: ThreadContext, attempts: u64, keep_trying: K, wait: B) -> (outcome:
    Result<G, P>)
    requires
        old(source).wf(),
        old(source).made().len() + attempts <= u64::MAX,
        context == ThreadContext::Window ==> call_requires(keep_trying, ()),
        context != ThreadContext::Window ==> call_requires(wait, ()),
    ensures
        final(source).wf(),
        old(source).made().is_prefix_of(final(source).made()),
        forall|turn: int|
            old(source).made().len() <= turn < final(source).made().len() ==> old(source).gives(
                turn as nat,
                #[trigger] final(source).made()[turn],
            ),
        context == ThreadContext::Window ==> {
            let made = final(source).made().skip(old(source).made().len() as int);
            &&& spins(made, attempts, spun(made))
            &&& spun(made) matches Some(result) ==> outcome == result
            &&& spun(made) is None ==> call_ensures(keep_trying, (), outcome)
        },
        context != ThreadContext::Window ==> final(source).made() == old(source).made()
            && call_ensures(wait, (), outcome),
{
    match lock_mode(context) {
        LockMode::Spin => match spin(source, attempts) {
            Some(outcome) => outcome,
            None => keep_trying(),
        },
        LockMode::Block => wait(),
    }
}

/// Trying again and again ends with the first attempt that finds the lock free or poisoned, and
/// gives what that attempt gave.
pub proof fn law_first_settled_attempt_counts<G, P>(attempts: Seq<LockAttempt<G, P>>, first: int)
    requires
        0 <= first < attempts.len(),
        !(attempts[first] is WouldBlock),
        forall|i: int| 0 <= i < first ==> (#[trigger] attempts[i]) is WouldBlock,
    ensures
        spun(attempts) is Some,
        spun(attempts) == settled(attempts[first]),
    decreases first,
{
    if first > 0 {
        assert forall|i: int| 0 <= i < first - 1 implies (
        #[trigger] attempts.skip(1)[i]) is WouldBlock by {
            assert(attempts.skip(1)[i] == attempts[i + 1]);
        }
        law_first_settled_attempt_counts(attempts.skip(1), first - 1);
    }
}

/// Where trying goes on after attempts that did not settle the lock, it gives what trying all
/// along would have given.
pub proof fn law_trying_goes_on<G, P>(
    made: Seq<LockAttempt<G, P>>,
    more: Seq<LockAttempt<G, P>>,
)
    requires
        spun(made) is None,
    ensures
        spun(made + more) == spun(more),
    decreases made.len(),
{
    if made.len() == 0 {
        assert(made + more =~= more);
    } else {
        assert((made + more).skip(1) =~= made.skip(1) + more);
        law_trying_goes_on(made.skip(1), more);
    }
}

/// A [`Mutex`] is carried through; nothing is known of what is inside.
#[verifier::external_type_specification]
#[verifier::external_body]
#[verifier::reject_recursive_types(T)]
pub struct ExMutex<T: ?Sized>(Mutex<T>);

/// A [`MutexGuard`] is carried through; nothing is known of what is inside.
#[verifier::external_type_specification]
#[verifier::external_body]
#[verifier::reject_recursive_types(T)]
pub struct ExMutexGuard<'a, T: ?Sized + 'a>(MutexGuard<'a, T>);

/// An [`RwLock`] is carried through; nothing is known of what is inside.
#[verifier::external_type_specification]
#[verifier::external_body]
#[verifier::reject_recursive_types(T)]
pub struct ExRwLock<T: ?Sized>(RwLock<T>);

/// An [`RwLockReadGuard`] is carried through; nothing is known of what is inside.
#[verifier::external_type_specification]
#[verifier::external_body]
#[verifier::reject_recursive_types(T)]
pub struct ExRwLockReadGuard<'a, T: ?Sized>(RwLockReadGuard<'a, T>);

/// An [`RwLockWriteGuard`] is carried through; nothing is known of what is inside.
#[verifier::external_type_specification]
#[verifier::external_body]
#[verifier::reject_recursive_types(T)]
pub struct ExRwLockWriteGuard<'a, T: ?Sized + 'a>(RwLockWriteGuard<'a, T>);

/// A [`PoisonError`] is carried through; nothing is known of what is inside.
#[verifier::external_type_specification]
#[verifier::external_body]
#[verifier::reject_recursive_types(T)]
pub struct ExPoisonError<T>(PoisonError<T>);

/// How trying a [`Mutex`] once came out.
pub type MutexAttempt<'a, T> = LockAttempt<MutexGuard<'a, T>, PoisonError<MutexGuard<'a, T>>>;

/// How trying an [`RwLock`] once for reading came out.
pub type ReadAttempt<'a, T> = LockAttempt<
    RwLockReadGuard<'a, T>,
    PoisonError<RwLockReadGuard<'a, T>>,
>;

/// How trying an [`RwLock`] once for writing came out.
pub type WriteAttempt<'a, T> = LockAttempt<
    RwLockWriteGuard<'a, T>,
    PoisonError<RwLockWriteGuard<'a, T>>,
>;

/// Tries a lock once with [`Mutex::try_lock`], which does not block. Nothing is claimed of the
/// outcome: it depends on what other threads do. `_turn` counts the attempts: it tells the
/// calls apart, whose outcomes may differ.
#[verifier::external_body]
fn mutex_attempt<'a, T>(lock: &'a Mutex<T>, _turn: u64) -> (attempt: MutexAttempt<'a, T>) {
    match lock.try_lock() {
        Ok(guard) => LockAttempt::Acquired(guard),
        Err(TryLockError::WouldBlock) => LockAttempt::WouldBlock,
        Err(TryLockError::Poisoned(poison)) => LockAttempt::Poisoned(poison),
    }
}

/// Tries a read lock once with [`RwLock::try_read`], which does not block. Nothing is claimed of
/// the outcome: it depends on what other threads do. `_turn` counts the attempts: it tells the
/// calls apart, whose outcomes may differ.
#[verifier::external_body]
fn read_attempt<'a, T>(lock: &'a RwLock<T>, _turn: u64) -> (attempt: ReadAttempt<'a, T>) {
    match lock.try_read() {
        Ok(guard) => LockAttempt::Acquired(guard),
        Err(TryLockError::WouldBlock) => LockAttempt::WouldBlock,
        Err(TryLockError::Poisoned(poison)) => LockAttempt::Poisoned(poison),
    }
}

/// Tries a write lock once with [`RwLock::try_write`], which does not block. Nothing is claimed of
/// the outcome: it depends on what other threads do. `_turn` counts the attempts: it tells the
/// calls apart, whose outcomes may differ.
#[verifier::external_body]
fn write_attempt<'a, T>(lock: &'a RwLock<T>, _turn: u64) -> (attempt: WriteAttempt<'a, T>) {
    match lock.try_write() {
        Ok(guard) => LockAttempt::Acquired(guard),
        Err(TryLockError::WouldBlock) => LockAttempt::WouldBlock,
        Err(TryLockError::Poisoned(poison)) => LockAttempt::Poisoned(poison),
    }
}

/// Taking a [`Mutex`] on any thread of a page.
pub trait MutexWebExt<T> {
    /// Whether attempt number `turn` to take the lock may come out as `attempt`.
    spec fn lock_gives<'a>(&'a self, turn: nat, attempt: MutexAttempt<'a, T>) -> bool;

    /// Takes the lock. On the main thread, which may not block, it is tried until it can be had or
    /// turns out to be poisoned, and what that attempt gave is handed back; `attempts` tries are
    /// made here, and if other threads hold the lock all the while, `keep_trying` goes on. On every
    /// other thread `wait` waits for it; waiting is left to the caller, for a thread that waits for
    /// a lock that it holds itself may panic or wait forever.
    fn web_safe_lock<
        'a,
        K: FnOnce() -> LockResult<MutexGuard<'a, T>>,
        B: FnOnce() -> LockResult<MutexGuard<'a, T>>,
    >(&'a self, context: ThreadContext, attempts: u64, keep_trying: K, wait: B) -> (outcome:
        LockResult<MutexGuard<'a, T>>)
        requires
            context == ThreadContext::Window ==> call_requires(keep_trying, ()),
            context != ThreadContext::Window ==> call_requires(wait, ()),
        ensures
            context == ThreadContext::Window ==> exists|made: Seq<MutexAttempt<'a, T>>|
                {
                    &&& #[trigger] spins(made, attempts, spun(made))
                    &&& forall|turn: int|
                        0 <= turn < made.len() ==> self.lock_gives(
                            turn as nat,
                            #[trigger] made[turn],
                        )
                    &&& spun(made) matches Some(result) ==> outcome == result
                    &&& spun(made) is None ==> call_ensures(keep_trying, (), outcome)
                },
            context != ThreadContext::Window ==> call_ensures(wait, (), outcome),
    ;
}

impl<T> MutexWebExt<T> for Mutex<T> {
    closed spec fn lock_gives<'a>(&'a self, turn: nat, attempt: MutexAttempt<'a, T>) -> bool {
        call_ensures(mutex_attempt, (self, turn as u64), attempt)
    }

    fn web_safe_lock<
        'a,
        K: FnOnce() -> LockResult<MutexGuard<'a, T>>,
        B: FnOnce() -> LockResult<MutexGuard<'a, T>>,
    >(&'a self, context: ThreadContext, attempts: u64, keep_trying: K, wait: B) -> (outcome:
        LockResult<MutexGuard<'a, T>>) {
        let try_once = |turn: u64| -> (attempt: MutexAttempt<'a, T>)
            ensures
                self.lock_gives(turn as nat, attempt)
            { mutex_attempt(self, turn) };
        let mut tries = Tries::new(try_once);
        let ghost fresh = tries;
        let outcome = take_lock(&mut tries, context, attempts, keep_trying, wait);
        let ghost made = tries.made();
        assert(made.skip(0) =~= made);
        assert forall|turn: int| 0 <= turn < made.len() implies self.lock_gives(
            turn as nat,
            #[trigger] made[turn],
        ) by {
            fresh.lemma_gives(turn as nat, made[turn]);
        }
        outcome
    }
}

/// Taking an [`RwLock`] on any thread of a page.
pub trait RwLockWebExt<T> {
    /// Whether attempt number `turn` to take the lock for reading may come out as `attempt`.
    spec fn read_gives<'a>(&'a self, turn: nat, attempt: ReadAttempt<'a, T>) -> bool;

    /// Whether attempt number `turn` to take the lock for writing may come out as `attempt`.
    spec fn write_gives<'a>(&'a self, turn: nat, attempt: WriteAttempt<'a, T>) -> bool;

    /// Takes the lock for reading, as [`MutexWebExt::web_safe_lock`] does.
    fn web_safe_read<
        'a,
        K: FnOnce() -> LockResult<RwLockReadGuard<'a, T>>,
        B: FnOnce() -> LockResult<RwLockReadGuard<'a, T>>,
    >(&'a self, context: ThreadContext, attempts: u64, keep_trying: K, wait: B) -> (outcome:
        LockResult<RwLockReadGuard<'a, T>>)
        requires
            context == ThreadContext::Window ==> call_requires(keep_trying, ()),
            context != ThreadContext::Window ==> call_requires(wait, ()),
        ensures
            context == ThreadContext::Window ==> exists|made: Seq<ReadAttempt<'a, T>>|
                {
                    &&& #[trigger] spins(made, attempts, spun(made))
                    &&& forall|turn: int|
                        0 <= turn < made.len() ==> self.read_gives(
                            turn as nat,
                            #[trigger] made[turn],
                        )
                    &&& spun(made) matches Some(result) ==> outcome == result
                    &&& spun(made) is None ==> call_ensures(keep_trying, (), outcome)
                },
            context != ThreadContext::Window ==> call_ensures(wait, (), outcome),
    ;

    /// Takes the lock for writing, as [`MutexWebExt::web_safe_lock`] does.
    fn web_safe_write<
        'a,
        K: FnOnce() -> LockResult<RwLockWriteGuard<'a, T>>,
        B: FnOnce() -> LockResult<RwLockWriteGuard<'a, T>>,
    >(&'a self, context: ThreadContext, attempts: u64, keep_trying: K, wait: B) -> (outcome:
        LockResult<RwLockWriteGuard<'a, T>>)
        requires
            context == ThreadContext::Window ==> call_requires(keep_trying, ()),
            context != ThreadContext::Window ==> call_requires(wait, ()),
        ensures
            context == ThreadContext::Window ==> exists|made: Seq<WriteAttempt<'a, T>>|
                {
                    &&& #[trigger] spins(made, attempts, spun(made))
                    &&& forall|turn: int|
                        0 <= turn < made.len() ==> self.write_gives(
                            turn as nat,
                            #[trigger] made[turn],
                        )
                    &&& spun(made) matches Some(result) ==> outcome == result
                    &&& spun(made) is None ==> call_ensures(keep_trying, (), outcome)
                },
            context != ThreadContext::Window ==> call_ensures(wait, (), outcome),
    ;
}

impl<T> RwLockWebExt<T> for RwLock<T> {
    closed spec fn read_gives<'a>(&'a self, turn: nat, attempt: ReadAttempt<'a, T>) -> bool {
        call_ensures(read_attempt, (self, turn as u64), attempt)
    }

    fn web_safe_read<
        'a,
        K: FnOnce() -> LockResult<RwLockReadGuard<'a, T>>,
        B: FnOnce() -> LockResult<RwLockReadGuard<'a, T>>,
    >(&'a self, context: ThreadContext, attempts: u64, keep_trying: K, wait: B) -> (outcome:
        LockResult<RwLockReadGuard<'a, T>>) {
        let try_once = |turn: u64| -> (attempt: ReadAttempt<'a, T>)
            ensures
                self.read_gives(turn as nat, attempt)
            { read_attempt(self, turn) };
        let mut tries = Tries::new(try_once);
        let ghost fresh = tries;
        let outcome = take_lock(&mut tries, context, attempts, keep_trying, wait);
        let ghost made = tries.made();
        assert(made.skip(0) =~= made);
        assert forall|turn: int| 0 <= turn < made.len() implies self.read_gives(
            turn as nat,
            #[trigger] made[turn],
        ) by {
            fresh.lemma_gives(turn as nat, made[turn]);
        }
        outcome
    }

    closed spec fn write_gives<'a>(&'a self, turn: nat, attempt: WriteAttempt<'a, T>) -> bool {
        call_ensures(write_attempt, (self, turn as u64), attempt)
    }

    fn web_safe_write<
        'a,
        K: FnOnce() -> LockResult<RwLockWriteGuard<'a, T>>,
        B: FnOnce() -> LockResult<RwLockWriteGuard<'a, T>>,
    >(&'a self, context: ThreadContext, attempts: u64, keep_trying: K, wait: B) -> (outcome:
        LockResult<RwLockWriteGuard<'a, T>>) {
        let try_once = |turn: u64| -> (attempt: WriteAttempt<'a, T>)
            ensures
                self.write_gives(turn as nat, attempt)
            { write_attempt(self, turn) };
        let mut tries = Tries::new(try_once);
        let ghost fresh = tries;
        let outcome = take_lock(&mut tries, context, attempts, keep_trying, wait);
        let ghost made = tries.made();
        assert(made.skip(0) =~= made);
        assert forall|turn: int| 0 <= turn < made.len() implies self.write_gives(
            turn as nat,
            #[trigger] made[turn],
        ) by {
            fresh.lemma_gives(turn as nat, made[turn]);
        }
        outcome
    }
}

/// An attempt settles the lock exactly if the lock was not held by another thread, and gives what
/// the attempt gave.
pub proof fn law_what_attempts_settle<G, P>(guard: G, poison: P)
    ensures
        settled(LockAttempt::<G, P>::Acquired(guard)) == Some(Ok::<G, P>(guard)),
        settled(LockAttempt::<G, P>::Poisoned(poison)) == Some(Err::<G, P>(poison)),
        settled(LockAttempt::<G, P>::WouldBlock) is None,
{
}

/// How trying up to `limit` times ends. With an outcome, the last attempt gave it, and all before
/// it would have blocked; without one, all `limit` attempts were made and would have blocked.
pub proof fn law_how_spinning_ends<G, P>(
    made: Seq<LockAttempt<G, P>>,
    limit: u64,
    outcome: Option<Result<G, P>>,
)
    requires
        spins(made, limit, outcome),
    ensures
        made.len() <= limit,
        forall|i: int| 0 <= i < made.len() - 1 ==> (#[trigger] made[i]) is WouldBlock,
        outcome is None <==> made.len() == limit && (made.len() == 0 || made.last() is WouldBlock),
        outcome matches Some(result) ==> made.len() >= 1 && match made.last() {
            LockAttempt::Acquired(guard) => result == Ok::<G, P>(guard),
            LockAttempt::Poisoned(poison) => result == Err::<G, P>(poison),
            LockAttempt::WouldBlock => false,
        },
{
    if made.len() != 0 && !(made.last() is WouldBlock) {
        law_first_settled_attempt_counts(made, made.len() - 1);
    } else {
        lemma_all_would_block(made);
    }
}

/// Trying nothing gives nothing.
pub proof fn law_no_attempt_no_outcome<G, P>(outcome: Option<Result<G, P>>)
    ensures
        spun(Seq::<LockAttempt<G, P>>::empty()) is None,
        spins(Seq::<LockAttempt<G, P>>::empty(), 0, outcome) ==> outcome is None,
{
}

/// What an attempt may give is what the call on the lock itself may give.
proof fn law_attempts_are_made_on_the_lock<'a, T>(
    mutex: &'a Mutex<T>,
    lock: &'a RwLock<T>,
    turn: u64,
    locking: MutexAttempt<'a, T>,
    reading: ReadAttempt<'a, T>,
    writing: WriteAttempt<'a, T>,
)
    ensures
        mutex.lock_gives(turn as nat, locking) ==> call_ensures(
            mutex_attempt,
            (mutex, turn),
            locking,
        ),
        lock.read_gives(turn as nat, reading) ==> call_ensures(
            read_attempt,
            (lock, turn),
            reading,
        ),
        lock.write_gives(turn as nat, writing) ==> call_ensures(
            write_attempt,
            (lock, turn),
            writing,
        ),
{
}

} // verus!
