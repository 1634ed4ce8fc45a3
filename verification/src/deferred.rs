//! Deferred results: a handle on a guest promise that is carried through two
//! hops, the host's completion and the background continuation, each of
//! which first looks whether the registration still lives, and that is
//! settled or released exactly once.

use crate::text::owned;
use vstd::prelude::*;

verus! {

/// How far a deferred result has come.
#[derive(Clone, Copy, Debug, PartialEq, Eq, Structural)]
pub enum DeferredPhase {
    /// Created; the host has not completed the operation.
    Pending,
    /// The host has completed; the continuation waits for a worker.
    Scheduled,
    /// The continuation has taken the resolver to resolve or reject.
    Settled,
    /// The registration was gone: the resolver was given up.
    Released,
}

/// What one hop asks of its caller.
#[derive(Clone, Copy, Debug, PartialEq, Eq, Structural)]
pub enum StepKind {
    /// Hand the continuation to a background worker.
    Schedule,
    /// Enter the interpreter and resolve or reject with the resolver.
    Settle,
    /// Give the resolver up without touching the interpreter, and log.
    Release,
    /// Nothing: the handle was settled or released before.
    Spent,
}

/// The two hops that a deferred result takes.
#[derive(Clone, Copy, Debug, PartialEq, Eq, Structural)]
pub enum Hop {
    /// The host has completed the operation, on a thread of its own.
    Completion,
    /// The continuation runs on a background worker.
    Continuation,
}

/// One hop of a deferred result in `phase`, with the registration alive or
/// gone at that moment: the next phase and what is asked of the caller. The
/// completion moves a pending result only, and the continuation a scheduled
/// one only; a hop that comes out of turn, or again, finds the result spent
/// and changes nothing.
pub open spec fn hop(phase: DeferredPhase, which: Hop, registration_alive: bool) -> (
    DeferredPhase,
    StepKind,
) {
    match (phase, which) {
        (DeferredPhase::Pending, Hop::Completion) => if registration_alive {
            (DeferredPhase::Scheduled, StepKind::Schedule)
        } else {
            (DeferredPhase::Released, StepKind::Release)
        },
        (DeferredPhase::Scheduled, Hop::Continuation) => if registration_alive {
            (DeferredPhase::Settled, StepKind::Settle)
        } else {
            (DeferredPhase::Released, StepKind::Release)
        },
        _ => (phase, StepKind::Spent),
    }
}

/// Whether a handle in `phase` still holds its resolver.
pub open spec fn holds_resolver(phase: DeferredPhase) -> bool {
    phase == DeferredPhase::Pending || phase == DeferredPhase::Scheduled
}

/// What one hop hands to its caller.
#[derive(Debug, PartialEq, Eq)]
pub enum Step<R> {
    /// Hand the continuation to a background worker.
    Schedule,
    /// Enter the interpreter and resolve or reject with this resolver.
    Settle(R),
    /// Give this resolver up without touching the interpreter, and log.
    Release(R),
    /// Nothing: the handle was settled or released before.
    Spent,
}

impl<R> Step<R> {
    /// The kind of the step.
    pub open spec fn kind(self) -> StepKind {
        match self {
            Step::Schedule => StepKind::Schedule,
            Step::Settle(_) => StepKind::Settle,
            Step::Release(_) => StepKind::Release,
            Step::Spent => StepKind::Spent,
        }
    }

    /// The resolver that the step hands out, if it hands one out.
    pub open spec fn resolver(self) -> Option<R> {
        match self {
            Step::Settle(r) => Some(r),
            Step::Release(r) => Some(r),
            _ => None,
        }
    }
}

/// The mathematical value of a [`DeferredResultHandle`].
pub struct DeferredModel<R> {
    pub phase: DeferredPhase,
    pub resolver: Option<R>,
}

/// What a handle holds in each phase.
enum Held<R> {
    Pending(R),
    Scheduled(R),
    Settled,
    Released,
}

/// A persisted resolver of a guest promise, with the phase it is in. The
/// resolver is held exactly as long as the handle is neither settled nor
/// released.
pub struct DeferredResultHandle<R> {
    held: Held<R>,
}

impl<R> View for DeferredResultHandle<R> {
    type V = DeferredModel<R>;

    closed spec fn view(&self) -> DeferredModel<R> {
        match self.held {
            Held::Pending(r) => DeferredModel { phase: DeferredPhase::Pending, resolver: Some(r) },
            Held::Scheduled(r) => DeferredModel {
                phase: DeferredPhase::Scheduled,
                resolver: Some(r),
            },
            Held::Settled => DeferredModel { phase: DeferredPhase::Settled, resolver: None },
            Held::Released => DeferredModel { phase: DeferredPhase::Released, resolver: None },
        }
    }
}

impl<R> DeferredResultHandle<R> {
    /// A handle on a fresh promise.
    pub fn new(resolver: R) -> (handle: Self)
        ensures
            handle@ == (DeferredModel { phase: DeferredPhase::Pending, resolver: Some(resolver) }),
    {
        DeferredResultHandle { held: Held::Pending(resolver) }
    }

    /// The phase of the handle.
    pub fn phase(&self) -> (phase: DeferredPhase)
        ensures
            phase == self@.phase,
            self@.resolver is Some <==> holds_resolver(phase),
    {
        match &self.held {
            Held::Pending(_) => DeferredPhase::Pending,
            Held::Scheduled(_) => DeferredPhase::Scheduled,
            Held::Settled => DeferredPhase::Settled,
            Held::Released => DeferredPhase::Released,
        }
    }

    /// The host has completed the operation. `registration_alive` says
    /// whether the registration could be reached at this moment. A pending
    /// handle is scheduled, or released with its resolver handed out; any
    /// other handle is left as it is and hands nothing out.
    pub fn on_completion(self, registration_alive: bool) -> (r: (Self, Step<R>))
        ensures
            r.0@.phase == hop(self@.phase, Hop::Completion, registration_alive).0,
            r.1.kind() == hop(self@.phase, Hop::Completion, registration_alive).1,
            r.1.resolver() is Some ==> r.1.resolver() == self@.resolver,
            r.0@.resolver == (if r.1.resolver() is Some {
                None
            } else {
                self@.resolver
            }),
            r.0@.resolver is Some <==> holds_resolver(r.0@.phase),
    {
        match self.held {
            Held::Pending(resolver) => {
                if registration_alive {
                    (DeferredResultHandle { held: Held::Scheduled(resolver) }, Step::Schedule)
                } else {
                    (DeferredResultHandle { held: Held::Released }, Step::Release(resolver))
                }
            },
            held => (DeferredResultHandle { held }, Step::Spent),
        }
    }

    /// The continuation runs. `registration_alive` says whether the
    /// registration could be reached at this moment. A scheduled handle
    /// hands its resolver out, to settle the promise or to be given up; any
    /// other handle is left as it is and hands nothing out.
    pub fn on_continuation(self, registration_alive: bool) -> (r: (Self, Step<R>))
        ensures
            r.0@.phase == hop(self@.phase, Hop::Continuation, registration_alive).0,
            r.1.kind() == hop(self@.phase, Hop::Continuation, registration_alive).1,
            r.1.resolver() is Some ==> r.1.resolver() == self@.resolver,
            r.0@.resolver == (if r.1.resolver() is Some {
                None
            } else {
                self@.resolver
            }),
            r.0@.resolver is Some <==> holds_resolver(r.0@.phase),
    {
        match self.held {
            Held::Scheduled(resolver) => {
                if registration_alive {
                    (DeferredResultHandle { held: Held::Settled }, Step::Settle(resolver))
                } else {
                    (DeferredResultHandle { held: Held::Released }, Step::Release(resolver))
                }
            },
            held => (DeferredResultHandle { held }, Step::Spent),
        }
    }
}

/// The note that is logged when the deferred result of a remote call is
/// released.
pub fn remote_release_notice() -> (text: String)
    ensures
        text@ == "Library was delete while not all the remote jobs were done"@,
{
    owned("Library was delete while not all the remote jobs were done")
}

/// The note that is logged when a promise made by guest code is released.
pub fn job_release_notice() -> (text: String)
    ensures
        text@ == "Library was delete while not all the jobs were done"@,
{
    owned("Library was delete while not all the jobs were done")
}

/// The phase after a run of hops, each with the registration alive or gone.
pub open spec fn phase_after(phase: DeferredPhase, hops: Seq<(Hop, bool)>) -> DeferredPhase
    decreases hops.len(),
{
    if hops.len() == 0 {
        phase
    } else {
        hop(phase_after(phase, hops.drop_last()), hops.last().0, hops.last().1).0
    }
}

/// What the last hop of a run asks of its caller.
pub open spec fn last_step(phase: DeferredPhase, hops: Seq<(Hop, bool)>) -> StepKind
    recommends
        hops.len() > 0,
{
    hop(phase_after(phase, hops.drop_last()), hops.last().0, hops.last().1).1
}

/// How often a run of hops hands the resolver out, to settle or to release.
pub open spec fn handed_out(phase: DeferredPhase, hops: Seq<(Hop, bool)>) -> nat
    decreases hops.len(),
{
    if hops.len() == 0 {
        0
    } else {
        let kind = last_step(phase, hops);
        handed_out(phase, hops.drop_last()) + if kind == StepKind::Settle || kind
            == StepKind::Release {
            1nat
        } else {
            0nat
        }
    }
}

/// How often a run of hops settles the promise.
pub open spec fn settled(phase: DeferredPhase, hops: Seq<(Hop, bool)>) -> nat
    decreases hops.len(),
{
    if hops.len() == 0 {
        0
    } else {
        settled(phase, hops.drop_last()) + if last_step(phase, hops) == StepKind::Settle {
            1nat
        } else {
            0nat
        }
    }
}

/// How often a run of hops asks for the continuation to be scheduled.
pub open spec fn scheduled(phase: DeferredPhase, hops: Seq<(Hop, bool)>) -> nat
    decreases hops.len(),
{
    if hops.len() == 0 {
        0
    } else {
        scheduled(phase, hops.drop_last()) + if last_step(phase, hops) == StepKind::Schedule {
            1nat
        } else {
            0nat
        }
    }
}

/// Over any run of hops, in any order and however often each comes, a fresh
/// handle hands its resolver out at most once, and exactly once if and only
/// if it ends settled or released; the promise is settled at most once, and
/// exactly when the run ends in `Settled`; and the continuation is scheduled
/// at most once, not at all while the handle is pending, and once when it
/// is scheduled or settled.
pub proof fn law_settled_at_most_once(hops: Seq<(Hop, bool)>)
    ensures
        handed_out(DeferredPhase::Pending, hops) <= 1,
        handed_out(DeferredPhase::Pending, hops) == 1 <==> !holds_resolver(
            phase_after(DeferredPhase::Pending, hops),
        ),
        settled(DeferredPhase::Pending, hops) <= 1,
        settled(DeferredPhase::Pending, hops) == 1 <==> phase_after(DeferredPhase::Pending, hops)
            == DeferredPhase::Settled,
        scheduled(DeferredPhase::Pending, hops) <= 1,
        phase_after(DeferredPhase::Pending, hops) == DeferredPhase::Pending ==> scheduled(
            DeferredPhase::Pending,
            hops,
        ) == 0,
        phase_after(DeferredPhase::Pending, hops) == DeferredPhase::Scheduled || phase_after(
            DeferredPhase::Pending,
            hops,
        ) == DeferredPhase::Settled ==> scheduled(DeferredPhase::Pending, hops) == 1,
    decreases hops.len(),
{
    if hops.len() > 0 {
        law_settled_at_most_once(hops.drop_last());
    }
}

/// A handle whose registration is gone when the host completes is released
/// on the spot, whatever comes later: the resolver is handed out once, to be
/// given up, the promise is never settled, and every later hop is spent.
pub proof fn law_teardown_releases(later: Seq<(Hop, bool)>)
    ensures
        hop(DeferredPhase::Pending, Hop::Completion, false) == (
            DeferredPhase::Released,
            StepKind::Release,
        ),
        phase_after(DeferredPhase::Released, later) == DeferredPhase::Released,
        handed_out(DeferredPhase::Released, later) == 0,
        settled(DeferredPhase::Released, later) == 0,
        scheduled(DeferredPhase::Released, later) == 0,
    decreases later.len(),
{
    if later.len() > 0 {
        law_teardown_releases(later.drop_last());
    }
}

/// A completion that comes again hands nothing out: on a handle that is
/// scheduled already, it is spent and the handle stays scheduled, so that
/// the continuation still finds the resolver.
pub proof fn law_second_completion_is_spent(registration_alive: bool)
    ensures
        hop(DeferredPhase::Scheduled, Hop::Completion, registration_alive) == (
            DeferredPhase::Scheduled,
            StepKind::Spent,
        ),
        hop(DeferredPhase::Pending, Hop::Continuation, registration_alive) == (
            DeferredPhase::Pending,
            StepKind::Spent,
        ),
{
}

/// The completion and then the continuation, with the registration alive
/// both times, take a fresh handle to its settlement.
pub proof fn law_alive_settles()
    ensures
        hop(
            hop(DeferredPhase::Pending, Hop::Completion, true).0,
            Hop::Continuation,
            true,
        ) == (DeferredPhase::Settled, StepKind::Settle),
{
}

} // verus!
