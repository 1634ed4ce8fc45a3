//! Entry into the interpreter: the exclusive entry token, and the phase of a
//! callback scope that may suspend itself once to let a host callback run.

use crate::text::{joined, owned};
use vstd::prelude::*;

verus! {

/// Why an entry operation was refused.
#[derive(Clone, Copy, Debug, PartialEq, Eq, Structural)]
pub enum EntryError {
    /// Another holder is inside the interpreter.
    Occupied,
    /// The caller does not hold entry.
    NotHeld,
}

/// The exclusive entry token of one interpreter: at most one thread holds it.
///
/// Entry is not recursive: a holder that wants to let another flow in leaves
/// first and enters again afterwards.
pub struct EntryGuard {
    holder: Option<u64>,
}

impl View for EntryGuard {
    type V = Option<u64>;

    closed spec fn view(&self) -> Option<u64> {
        self.holder
    }
}

impl EntryGuard {
    /// A guard that nobody holds.
    pub fn new() -> (guard: Self)
        ensures
            guard@ is None,
    {
        EntryGuard { holder: None }
    }

    /// The thread that holds entry, if any.
    pub fn holder(&self) -> (holder: Option<u64>)
        ensures
            holder == self@,
    {
        self.holder
    }

    /// Takes entry for `thread`. Refused, with the guard unchanged, while
    /// any thread holds it, `thread` itself included.
    pub fn enter(&mut self, thread: u64) -> (r: Result<(), EntryError>)
        ensures
            final(self)@ == holder_after(old(self)@, EntryOp::Enter(thread)),
            old(self)@ is None ==> r is Ok,
            old(self)@ is Some ==> r == Err::<(), EntryError>(EntryError::Occupied),
    {
        match self.holder {
            None => {
                self.holder = Some(thread);
                Ok(())
            },
            Some(_) => Err(EntryError::Occupied),
        }
    }

    /// Gives entry back. Refused, with the guard unchanged, unless `thread`
    /// is the holder.
    pub fn leave(&mut self, thread: u64) -> (r: Result<(), EntryError>)
        ensures
            final(self)@ == holder_after(old(self)@, EntryOp::Leave(thread)),
            old(self)@ == Some(thread) ==> r is Ok,
            old(self)@ != Some(thread) ==> r == Err::<(), EntryError>(EntryError::NotHeld),
    {
        match self.holder {
            Some(holder) => {
                if holder == thread {
                    self.holder = None;
                    Ok(())
                } else {
                    Err(EntryError::NotHeld)
                }
            },
            None => Err(EntryError::NotHeld),
        }
    }

    /// Whether `thread` may touch the interpreter now.
    pub fn check(&self, thread: u64) -> (r: Result<(), EntryError>)
        ensures
            r is Ok <==> self@ == Some(thread),
            r is Err ==> r == Err::<(), EntryError>(EntryError::NotHeld),
    {
        match self.holder {
            Some(holder) => {
                if holder == thread {
                    Ok(())
                } else {
                    Err(EntryError::NotHeld)
                }
            },
            None => Err(EntryError::NotHeld),
        }
    }
}

/// One thing that a thread does at the door of the interpreter.
#[derive(Clone, Copy, Debug, PartialEq, Eq, Structural)]
pub enum EntryOp {
    /// The thread asks for entry.
    Enter(u64),
    /// The thread gives entry back.
    Leave(u64),
}

/// The holder of entry after one operation: entry is given to the thread
/// that asks while nobody is inside, and taken back from the holder alone.
pub open spec fn holder_after(holder: Option<u64>, op: EntryOp) -> Option<u64> {
    match op {
        EntryOp::Enter(thread) => if holder is None {
            Some(thread)
        } else {
            holder
        },
        EntryOp::Leave(thread) => if holder == Some(thread) {
            None
        } else {
            holder
        },
    }
}

/// The holder of entry after the first `n` of a run of operations.
pub open spec fn holder_after_all(holder: Option<u64>, ops: Seq<EntryOp>, n: nat) -> Option<u64>
    decreases n,
{
    if n == 0 || n > ops.len() {
        holder
    } else {
        holder_after(holder_after_all(holder, ops, (n - 1) as nat), ops[n - 1])
    }
}

/// Whether none of the first `n` operations is `thread` giving entry back.
pub open spec fn stays_inside(thread: u64, ops: Seq<EntryOp>, n: nat) -> bool {
    forall|i: int| 0 <= i < n && i < ops.len() ==> #[trigger] ops[i] != EntryOp::Leave(thread)
}

/// While a thread is inside the interpreter nobody else gets in: whatever
/// the other threads try, the holder stays the holder until it leaves.
pub proof fn law_holder_excludes_others(thread: u64, ops: Seq<EntryOp>, n: nat)
    requires
        n <= ops.len(),
        stays_inside(thread, ops, n),
    ensures
        holder_after_all(Some(thread), ops, n) == Some(thread),
    decreases n,
{
    if n > 0 {
        law_holder_excludes_others(thread, ops, (n - 1) as nat);
        assert(ops[n - 1] != EntryOp::Leave(thread));
    }
}

/// Where a callback scope stands.
#[derive(Clone, Copy, Debug, PartialEq, Eq, Structural)]
pub enum ScopePhase {
    /// Guest code runs and holds entry; the host is not locked.
    Running,
    /// Entry is given up while the scope waits for the host's lock.
    Suspended,
    /// The host is locked for this scope and entry is held again: commands
    /// may be issued.
    Blocked,
}

/// Why a scope did not block.
#[derive(Debug, PartialEq, Eq)]
pub enum BlockError {
    /// What was handed to `block` is not a function.
    NotAFunction,
    /// The scope is blocked already.
    AlreadyBlocked,
    /// The scope does not hold entry: a race between collaborators, fatal.
    EntryNotHeld,
    /// The host refused its lock; its message.
    HostLock(String),
    /// The registration was removed meanwhile.
    Unregistered,
}

/// The mathematical value of a [`BlockError`].
pub enum BlockFailure {
    NotAFunction,
    AlreadyBlocked,
    EntryNotHeld,
    HostLock(Seq<char>),
    Unregistered,
}

impl View for BlockError {
    type V = BlockFailure;

    open spec fn view(&self) -> BlockFailure {
        match self {
            BlockError::NotAFunction => BlockFailure::NotAFunction,
            BlockError::AlreadyBlocked => BlockFailure::AlreadyBlocked,
            BlockError::EntryNotHeld => BlockFailure::EntryNotHeld,
            BlockError::HostLock(message) => BlockFailure::HostLock(message@),
            BlockError::Unregistered => BlockFailure::Unregistered,
        }
    }
}

impl BlockFailure {
    /// The text of the failure.
    pub open spec fn message(self) -> Seq<char> {
        match self {
            BlockFailure::NotAFunction => "Argument to 'block' must be a function"@,
            BlockFailure::AlreadyBlocked => "Main thread is already blocked"@,
            BlockFailure::EntryNotHeld => "Interpreter entry is not held"@,
            BlockFailure::HostLock(message) => "Can not lock Redis, "@ + message,
            BlockFailure::Unregistered => "Function were unregistered"@,
        }
    }
}

impl BlockFailure {
    /// Whether the failure shows a race between collaborators rather than a
    /// mistake of guest code: the interpreter was touched without entry.
    pub open spec fn is_fatal(self) -> bool {
        self == BlockFailure::EntryNotHeld
    }
}

impl BlockError {
    /// Whether the failure shows a race between collaborators rather than a
    /// mistake of guest code. Such a failure is not an exception for the
    /// guest: the caller logs it or stops.
    pub fn is_fatal(&self) -> (fatal: bool)
        ensures
            fatal == self@.is_fatal(),
    {
        match self {
            BlockError::EntryNotHeld => true,
            _ => false,
        }
    }

    /// The text of the failure: of the exception that the guest sees, or of
    /// the log entry where the failure is fatal.
    pub fn message(&self) -> (text: String)
        ensures
            text@ == self@.message(),
    {
        match self {
            BlockError::NotAFunction => owned("Argument to 'block' must be a function"),
            BlockError::AlreadyBlocked => owned("Main thread is already blocked"),
            BlockError::EntryNotHeld => owned("Interpreter entry is not held"),
            BlockError::HostLock(message) => joined("Can not lock Redis, ", message.as_str()),
            BlockError::Unregistered => owned("Function were unregistered"),
        }
    }
}

/// What a request to block by `thread` does to a scope in `phase` while
/// `holder` is inside the interpreter: the next phase, the next holder, and
/// the failure if the request is refused. A refusal changes nothing. A
/// request that is granted gives entry up.
pub open spec fn block_request(
    phase: ScopePhase,
    holder: Option<u64>,
    thread: u64,
    callee_is_function: bool,
) -> (ScopePhase, Option<u64>, Option<BlockFailure>) {
    if !callee_is_function {
        (phase, holder, Some(BlockFailure::NotAFunction))
    } else {
        match phase {
            ScopePhase::Blocked => (phase, holder, Some(BlockFailure::AlreadyBlocked)),
            ScopePhase::Suspended => (phase, holder, Some(BlockFailure::EntryNotHeld)),
            ScopePhase::Running => if holder == Some(thread) {
                (ScopePhase::Suspended, None, None)
            } else {
                (phase, holder, Some(BlockFailure::EntryNotHeld))
            },
        }
    }
}

/// What the host's answer does to a suspended scope whose `thread` takes
/// entry again while `holder` is inside: with entry taken by another,
/// nothing changes; otherwise `thread` holds entry, and the scope is blocked
/// when the lock was given and the registration still lives, and runs again
/// if not.
pub open spec fn block_resumption(
    holder: Option<u64>,
    thread: u64,
    host_lock: Result<(), Seq<char>>,
    registration_alive: bool,
) -> (ScopePhase, Option<u64>, Option<BlockFailure>) {
    if holder is Some {
        (ScopePhase::Suspended, holder, Some(BlockFailure::EntryNotHeld))
    } else {
        match host_lock {
            Err(message) => (
                ScopePhase::Running,
                Some(thread),
                Some(BlockFailure::HostLock(message)),
            ),
            Ok(_) => if registration_alive {
                (ScopePhase::Blocked, Some(thread), None)
            } else {
                (ScopePhase::Running, Some(thread), Some(BlockFailure::Unregistered))
            },
        }
    }
}

/// The value of the host's answer to a request for its lock.
pub open spec fn lock_model(host_lock: Result<(), String>) -> Result<(), Seq<char>> {
    match host_lock {
        Ok(_) => Ok(()),
        Err(message) => Err(message@),
    }
}

/// The scope of one callback: whether it has suspended itself for the host.
pub struct CallbackScope {
    phase: ScopePhase,
}

impl View for CallbackScope {
    type V = ScopePhase;

    closed spec fn view(&self) -> ScopePhase {
        self.phase
    }
}

impl CallbackScope {
    /// The scope of a callback that runs in the background, host unlocked.
    pub fn new() -> (scope: Self)
        ensures
            scope@ == ScopePhase::Running,
    {
        CallbackScope { phase: ScopePhase::Running }
    }

    /// The scope of a callback that the host runs under its own lock.
    pub fn locked() -> (scope: Self)
        ensures
            scope@ == ScopePhase::Blocked,
    {
        CallbackScope { phase: ScopePhase::Blocked }
    }

    /// The phase of the scope.
    pub fn phase(&self) -> (phase: ScopePhase)
        ensures
            phase == self@,
    {
        self.phase
    }

    /// Whether the host is locked for this scope.
    pub fn is_blocked(&self) -> (blocked: bool)
        ensures
            blocked == (self@ == ScopePhase::Blocked),
    {
        match self.phase {
            ScopePhase::Blocked => true,
            _ => false,
        }
    }

    /// A guest callback on `thread` asks to block. Granted, the scope is
    /// suspended and entry is given up: the caller then asks the host for
    /// its lock. A second request on a blocked scope is refused and changes
    /// nothing, neither the scope nor the guard.
    pub fn begin_block(&mut self, guard: &mut EntryGuard, thread: u64, callee_is_function: bool) -> (r:
        Result<(), BlockError>)
        ensures
            ({
                let next = block_request(old(self)@, old(guard)@, thread, callee_is_function);
                &&& final(self)@ == next.0
                &&& final(guard)@ == next.1
                &&& match r {
                    Ok(_) => next.2 is None,
                    Err(e) => next.2 == Some(e@),
                }
            }),
    {
        if !callee_is_function {
            return Err(BlockError::NotAFunction);
        }
        match self.phase {
            ScopePhase::Blocked => Err(BlockError::AlreadyBlocked),
            ScopePhase::Suspended => Err(BlockError::EntryNotHeld),
            ScopePhase::Running => match guard.leave(thread) {
                Ok(_) => {
                    self.phase = ScopePhase::Suspended;
                    Ok(())
                },
                Err(_) => Err(BlockError::EntryNotHeld),
            },
        }
    }

    /// The host has answered a suspended scope, whose `thread` takes entry
    /// again. A scope that is not suspended is left as it is, and so is the
    /// guard.
    pub fn resume(
        &mut self,
        guard: &mut EntryGuard,
        thread: u64,
        host_lock: Result<(), String>,
        registration_alive: bool,
    ) -> (r: Result<(), BlockError>)
        ensures
            old(self)@ != ScopePhase::Suspended ==> {
                &&& final(self)@ == old(self)@
                &&& final(guard)@ == old(guard)@
                &&& r matches Err(e)
                &&& e@ == BlockFailure::EntryNotHeld
            },
            old(self)@ == ScopePhase::Suspended ==> {
                let next = block_resumption(
                    old(guard)@,
                    thread,
                    lock_model(host_lock),
                    registration_alive,
                );
                &&& final(self)@ == next.0
                &&& final(guard)@ == next.1
                &&& match r {
                    Ok(_) => next.2 is None,
                    Err(e) => next.2 == Some(e@),
                }
            },
    {
        match self.phase {
            ScopePhase::Suspended => {},
            _ => {
                return Err(BlockError::EntryNotHeld);
            },
        }
        match guard.enter(thread) {
            Ok(_) => {},
            Err(_) => {
                return Err(BlockError::EntryNotHeld);
            },
        }
        match host_lock {
            Err(message) => {
                self.phase = ScopePhase::Running;
                Err(BlockError::HostLock(message))
            },
            Ok(_) => {
                if registration_alive {
                    self.phase = ScopePhase::Blocked;
                    Ok(())
                } else {
                    self.phase = ScopePhase::Running;
                    Err(BlockError::Unregistered)
                }
            },
        }
    }

    /// The host callback has returned: a blocked scope runs again. Any other
    /// scope is left as it is.
    pub fn end_block(&mut self)
        ensures
            final(self)@ == (if old(self)@ == ScopePhase::Blocked {
                ScopePhase::Running
            } else {
                old(self)@
            }),
    {
        match self.phase {
            ScopePhase::Blocked => {
                self.phase = ScopePhase::Running;
            },
            _ => {},
        }
    }
}

/// Blocking twice in one scope fails the second time and alters nothing: a
/// request on a blocked scope is refused, as already blocked when a function
/// is handed over, and the scope and the holder of entry stay as they were.
pub proof fn law_second_block_fails(holder: Option<u64>, thread: u64, callee_is_function: bool)
    ensures
        block_request(ScopePhase::Blocked, holder, thread, true) == (
            ScopePhase::Blocked,
            holder,
            Some(BlockFailure::AlreadyBlocked),
        ),
        block_request(ScopePhase::Blocked, holder, thread, callee_is_function).0
            == ScopePhase::Blocked,
        block_request(ScopePhase::Blocked, holder, thread, callee_is_function).1 == holder,
        block_request(ScopePhase::Blocked, holder, thread, callee_is_function).2 is Some,
{
}

/// From a running scope whose thread holds entry, a granted block followed
/// by a second request: the first gives entry up and, once the host has
/// given its lock, blocks the scope with entry held again; the second is
/// refused and leaves all of it as it was.
pub proof fn law_block_then_block(thread: u64)
    ensures
        ({
            let first = block_request(ScopePhase::Running, Some(thread), thread, true);
            let granted = block_resumption(first.1, thread, Ok(()), true);
            let second = block_request(granted.0, granted.1, thread, true);
            &&& first == (ScopePhase::Suspended, None::<u64>, None::<BlockFailure>)
            &&& granted == (ScopePhase::Blocked, Some(thread), None::<BlockFailure>)
            &&& second == (ScopePhase::Blocked, Some(thread), Some(BlockFailure::AlreadyBlocked))
        }),
{
}

/// Whoever is refused leaves everything as it was: a request to block that
/// fails changes neither the phase of the scope nor the holder of entry.
pub proof fn law_refused_block_changes_nothing(
    phase: ScopePhase,
    holder: Option<u64>,
    thread: u64,
    callee_is_function: bool,
)
    requires
        block_request(phase, holder, thread, callee_is_function).2 is Some,
    ensures
        block_request(phase, holder, thread, callee_is_function).0 == phase,
        block_request(phase, holder, thread, callee_is_function).1 == holder,
{
}

} // verus!
