//! The background client: blocking a scope for one host callback, and
//! starting guest work in the background.

use crate::client::{ClientHandle, ClientModel};
use crate::entry::{
    block_resumption, BlockError, BlockFailure, CallbackScope, EntryGuard, ScopePhase,
};
use crate::guest::CallbackKind;
use crate::text::owned;
use vstd::prelude::*;

verus! {

/// The host's answer to a request for its lock, without the capability.
pub open spec fn answer_model<C>(host_lock: Result<C, String>) -> Result<(), Seq<char>> {
    match host_lock {
        Ok(_) => Ok(()),
        Err(message) => Err(message@),
    }
}

/// The host has answered a suspended scope, whose `thread` takes entry
/// again. When the host gave its lock and the registration still lives, the
/// scope is blocked and a handle bound to the lock's capability is handed
/// out for the callback; otherwise the capability, if there is one, is
/// dropped. A scope that is not suspended is left as it is.
pub fn open_block<C>(
    scope: &mut CallbackScope,
    guard: &mut EntryGuard,
    thread: u64,
    host_lock: Result<C, String>,
    registration_alive: bool,
) -> (r: Result<ClientHandle<C>, BlockError>)
    ensures
        old(scope)@ != ScopePhase::Suspended ==> {
            &&& final(scope)@ == old(scope)@
            &&& final(guard)@ == old(guard)@
            &&& r matches Err(e)
            &&& e@ == BlockFailure::EntryNotHeld
        },
        old(scope)@ == ScopePhase::Suspended ==> {
            let next = block_resumption(
                old(guard)@,
                thread,
                answer_model(host_lock),
                registration_alive,
            );
            &&& final(scope)@ == next.0
            &&& final(guard)@ == next.1
            &&& match r {
                Ok(handle) => {
                    &&& next.2 is None
                    &&& host_lock is Ok
                    &&& handle@ == (ClientModel {
                        client: Some(host_lock->Ok_0),
                        allow_block: Some(true),
                    })
                },
                Err(e) => next.2 == Some(e@),
            }
        },
{
    match host_lock {
        Ok(capability) => {
            scope.resume(guard, thread, Ok(()), registration_alive)?;
            let mut handle = ClientHandle::new();
            handle.set_client(capability);
            Ok(handle)
        },
        Err(message) => match scope.resume(guard, thread, Err(message), registration_alive) {
            Err(e) => Err(e),
            Ok(_) => Err(BlockError::EntryNotHeld),
        },
    }
}

/// The host callback has returned: the handle it was given is invalidated
/// and a blocked scope runs again.
pub fn close_block<C>(scope: &mut CallbackScope, handle: &mut ClientHandle<C>)
    ensures
        final(handle)@ == ClientModel::<C>::invalidated(),
        final(scope)@ == (if old(scope)@ == ScopePhase::Blocked {
            ScopePhase::Running
        } else {
            old(scope)@
        }),
{
    handle.make_invalid();
    scope.end_block();
}

/// Why guest work was not started in the background.
#[derive(Clone, Copy, Debug, PartialEq, Eq, Structural)]
pub enum BackgroundError {
    /// The client handle holds no capability.
    OutOfContext,
    /// What was handed over is not an async function.
    NotAsync,
    /// The registration was removed already.
    InvalidContext,
}

impl BackgroundError {
    /// The text of the exception that the guest sees.
    pub open spec fn message_model(self) -> Seq<char> {
        match self {
            BackgroundError::OutOfContext => "Called 'run_on_background' out of context"@,
            BackgroundError::NotAsync =>
                "First argument to 'run_on_background' must be an async function"@,
            BackgroundError::InvalidContext => "Use of invalid function context"@,
        }
    }

    /// The text of the exception that the guest sees.
    pub fn message(&self) -> (text: String)
        ensures
            text@ == self.message_model(),
    {
        match self {
            BackgroundError::OutOfContext => owned("Called 'run_on_background' out of context"),
            BackgroundError::NotAsync => owned(
                "First argument to 'run_on_background' must be an async function",
            ),
            BackgroundError::InvalidContext => owned("Use of invalid function context"),
        }
    }
}

/// What a request for background work meets: the capability from which the
/// background client is made, or the refusal. The handle is looked at first,
/// then the callee, then the registration.
pub open spec fn background_start<C>(
    client: Option<C>,
    callee: CallbackKind,
    registration_alive: bool,
) -> Result<C, BackgroundError> {
    match client {
        None => Err(BackgroundError::OutOfContext),
        Some(c) => if callee != CallbackKind::AsyncFunction {
            Err(BackgroundError::NotAsync)
        } else if !registration_alive {
            Err(BackgroundError::InvalidContext)
        } else {
            Ok(c)
        },
    }
}

/// Decides a request to run `callee` in the background through `handle`.
pub fn start_background<C>(
    handle: &ClientHandle<C>,
    callee: CallbackKind,
    registration_alive: bool,
) -> (r: Result<&C, BackgroundError>)
    ensures
        match r {
            Ok(c) => background_start(handle@.client, callee, registration_alive) == Ok::<
                C,
                BackgroundError,
            >(*c),
            Err(e) => background_start(handle@.client, callee, registration_alive) == Err::<
                C,
                BackgroundError,
            >(e),
        },
{
    let capability = match handle.capability() {
        Some(c) => c,
        None => {
            return Err(BackgroundError::OutOfContext);
        },
    };
    if !callee.is_async_function() {
        return Err(BackgroundError::NotAsync);
    }
    if !registration_alive {
        return Err(BackgroundError::InvalidContext);
    }
    Ok(capability)
}

} // verus!
