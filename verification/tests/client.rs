use gears_bridge::background::{close_block, open_block, start_background, BackgroundError};
use gears_bridge::client::{CallMode, ClientError, ClientHandle};
use gears_bridge::entry::{BlockError, CallbackScope, EntryError, EntryGuard, ScopePhase};
use gears_bridge::guest::CallbackKind;

#[test]
fn fresh_handle_is_unbound_and_allows_block() {
    let handle: ClientHandle<u32> = ClientHandle::new();
    assert!(!handle.is_valid());
    assert_eq!(handle.allow_block(), Ok(true));
    assert_eq!(handle.call(&CallbackScope::locked()), Err(ClientError::InvalidClient));
}

#[test]
fn bound_handle_runs_commands_under_the_lock() {
    let mut handle = ClientHandle::new();
    handle.set_client(7u32);
    assert!(handle.is_valid());
    assert_eq!(handle.call(&CallbackScope::locked()), Ok(&7));
    assert_eq!(handle.capability(), Some(&7));
}

#[test]
fn live_handle_without_the_lock_is_not_locked() {
    let mut handle = ClientHandle::new();
    handle.set_client(7u32);
    assert_eq!(handle.call(&CallbackScope::new()), Err(ClientError::NotLocked));
    let unbound: ClientHandle<u32> = ClientHandle::new();
    assert_eq!(unbound.call(&CallbackScope::new()), Err(ClientError::NotLocked));
}

#[test]
fn invalidated_handle_is_invalid_in_every_scope() {
    let mut handle = ClientHandle::new();
    handle.set_client(7u32);
    handle.make_invalid();
    assert_eq!(handle.call(&CallbackScope::new()), Err(ClientError::InvalidClient));
    assert_eq!(handle.call(&CallbackScope::locked()), Err(ClientError::InvalidClient));
    let mut guard = EntryGuard::new();
    assert_eq!(guard.enter(1), Ok(()));
    let mut suspended = CallbackScope::new();
    assert_eq!(suspended.begin_block(&mut guard, 1, true), Ok(()));
    assert_eq!(handle.call(&suspended), Err(ClientError::InvalidClient));
}

#[test]
fn invalidated_handle_rejects_every_later_call() {
    let scope = CallbackScope::locked();
    let mut handle = ClientHandle::new();
    handle.set_client(1u32);
    assert_eq!(handle.call(&scope), Ok(&1));
    assert_eq!(handle.call(&scope), Ok(&1));
    handle.make_invalid();
    for _ in 0..5 {
        assert_eq!(handle.call(&scope), Err(ClientError::InvalidClient));
        assert_eq!(handle.allow_block(), Err(ClientError::InvalidClient));
        assert_eq!(handle.capability(), None);
        assert!(!handle.is_valid());
    }
}

#[test]
fn invalidation_is_final() {
    let scope = CallbackScope::locked();
    let mut handle = ClientHandle::new();
    handle.set_client(1u32);
    handle.make_invalid();
    handle.set_client(2);
    assert!(!handle.is_valid());
    assert_eq!(handle.call(&scope), Err(ClientError::InvalidClient));
    handle.set_allow_block(true);
    assert_eq!(handle.allow_block(), Err(ClientError::InvalidClient));
    handle.make_invalid();
    assert_eq!(handle.call(&scope), Err(ClientError::InvalidClient));
}

#[test]
fn allow_block_follows_the_flag() {
    let mut handle: ClientHandle<u32> = ClientHandle::new();
    handle.set_allow_block(false);
    assert_eq!(handle.allow_block(), Ok(false));
    handle.set_client(3);
    assert_eq!(handle.allow_block(), Ok(false));
    handle.set_allow_block(true);
    assert_eq!(handle.allow_block(), Ok(true));
    assert_eq!(handle.capability(), Some(&3));
}

#[test]
fn client_error_messages() {
    assert_eq!(ClientError::NotLocked.message(), "Main thread is not locked");
    assert_eq!(ClientError::InvalidClient.message(), "Used on invalid client");
}

#[test]
fn entry_guard_admits_one_holder() {
    let mut guard = EntryGuard::new();
    assert_eq!(guard.holder(), None);
    assert_eq!(guard.enter(1), Ok(()));
    assert_eq!(guard.holder(), Some(1));
    assert_eq!(guard.enter(2), Err(EntryError::Occupied));
    assert_eq!(guard.enter(1), Err(EntryError::Occupied));
    assert_eq!(guard.holder(), Some(1));
    assert_eq!(guard.check(1), Ok(()));
    assert_eq!(guard.check(2), Err(EntryError::NotHeld));
    assert_eq!(guard.leave(2), Err(EntryError::NotHeld));
    assert_eq!(guard.holder(), Some(1));
    assert_eq!(guard.leave(1), Ok(()));
    assert_eq!(guard.holder(), None);
    assert_eq!(guard.leave(1), Err(EntryError::NotHeld));
    assert_eq!(guard.check(1), Err(EntryError::NotHeld));
    assert_eq!(guard.enter(2), Ok(()));
    assert_eq!(guard.holder(), Some(2));
}

fn entered(thread: u64) -> EntryGuard {
    let mut guard = EntryGuard::new();
    assert_eq!(guard.enter(thread), Ok(()));
    guard
}

#[test]
fn block_suspends_then_blocks() {
    let mut guard = entered(1);
    let mut scope = CallbackScope::new();
    assert_eq!(scope.phase(), ScopePhase::Running);
    assert!(!scope.is_blocked());
    assert_eq!(scope.begin_block(&mut guard, 1, true), Ok(()));
    assert_eq!(scope.phase(), ScopePhase::Suspended);
    assert_eq!(guard.holder(), None);
    assert_eq!(scope.resume(&mut guard, 1, Ok(()), true), Ok(()));
    assert_eq!(scope.phase(), ScopePhase::Blocked);
    assert_eq!(guard.holder(), Some(1));
    assert!(scope.is_blocked());
    scope.end_block();
    assert_eq!(scope.phase(), ScopePhase::Running);
    assert_eq!(guard.holder(), Some(1));
}

#[test]
fn second_block_fails_and_changes_nothing() {
    let mut guard = entered(1);
    let mut scope = CallbackScope::new();
    assert_eq!(scope.begin_block(&mut guard, 1, true), Ok(()));
    assert_eq!(scope.resume(&mut guard, 1, Ok(()), true), Ok(()));
    assert_eq!(scope.begin_block(&mut guard, 1, true), Err(BlockError::AlreadyBlocked));
    assert_eq!(scope.phase(), ScopePhase::Blocked);
    assert_eq!(guard.holder(), Some(1));
    assert_eq!(scope.begin_block(&mut guard, 1, true), Err(BlockError::AlreadyBlocked));
    assert_eq!(scope.phase(), ScopePhase::Blocked);
    assert_eq!(guard.holder(), Some(1));
}

#[test]
fn block_needs_a_function() {
    let mut guard = entered(1);
    let mut scope = CallbackScope::new();
    assert_eq!(scope.begin_block(&mut guard, 1, false), Err(BlockError::NotAFunction));
    assert_eq!(scope.phase(), ScopePhase::Running);
    assert_eq!(guard.holder(), Some(1));
    let mut locked = CallbackScope::locked();
    assert_eq!(locked.begin_block(&mut guard, 1, false), Err(BlockError::NotAFunction));
    assert_eq!(locked.phase(), ScopePhase::Blocked);
}

#[test]
fn block_needs_entry() {
    let mut guard = entered(2);
    let mut scope = CallbackScope::new();
    assert_eq!(scope.begin_block(&mut guard, 1, true), Err(BlockError::EntryNotHeld));
    assert_eq!(scope.phase(), ScopePhase::Running);
    assert_eq!(guard.holder(), Some(2));
    let mut free = EntryGuard::new();
    assert_eq!(scope.begin_block(&mut free, 1, true), Err(BlockError::EntryNotHeld));
    assert_eq!(free.holder(), None);
}

#[test]
fn block_while_suspended_is_refused() {
    let mut guard = entered(1);
    let mut scope = CallbackScope::new();
    assert_eq!(scope.begin_block(&mut guard, 1, true), Ok(()));
    assert_eq!(scope.begin_block(&mut guard, 1, true), Err(BlockError::EntryNotHeld));
    assert_eq!(scope.phase(), ScopePhase::Suspended);
    assert_eq!(guard.holder(), None);
}

#[test]
fn refused_host_lock_resumes_running() {
    let mut guard = entered(1);
    let mut scope = CallbackScope::new();
    assert_eq!(scope.begin_block(&mut guard, 1, true), Ok(()));
    assert_eq!(
        scope.resume(&mut guard, 1, Err("busy".to_string()), true),
        Err(BlockError::HostLock("busy".to_string()))
    );
    assert_eq!(scope.phase(), ScopePhase::Running);
    assert_eq!(guard.holder(), Some(1));
}

#[test]
fn unregistered_library_resumes_running() {
    let mut guard = entered(1);
    let mut scope = CallbackScope::new();
    assert_eq!(scope.begin_block(&mut guard, 1, true), Ok(()));
    assert_eq!(scope.resume(&mut guard, 1, Ok(()), false), Err(BlockError::Unregistered));
    assert_eq!(scope.phase(), ScopePhase::Running);
    assert_eq!(guard.holder(), Some(1));
}

#[test]
fn resume_while_another_holds_entry_stays_suspended() {
    let mut guard = entered(1);
    let mut scope = CallbackScope::new();
    assert_eq!(scope.begin_block(&mut guard, 1, true), Ok(()));
    assert_eq!(guard.enter(2), Ok(()));
    assert_eq!(scope.resume(&mut guard, 1, Ok(()), true), Err(BlockError::EntryNotHeld));
    assert_eq!(scope.phase(), ScopePhase::Suspended);
    assert_eq!(guard.holder(), Some(2));
    assert_eq!(guard.leave(2), Ok(()));
    assert_eq!(scope.resume(&mut guard, 1, Ok(()), true), Ok(()));
    assert_eq!(scope.phase(), ScopePhase::Blocked);
}

#[test]
fn resume_without_suspension_is_refused() {
    let mut guard = entered(1);
    let mut scope = CallbackScope::new();
    assert_eq!(scope.resume(&mut guard, 1, Ok(()), true), Err(BlockError::EntryNotHeld));
    assert_eq!(scope.phase(), ScopePhase::Running);
    let mut locked = CallbackScope::locked();
    assert_eq!(locked.resume(&mut guard, 1, Ok(()), true), Err(BlockError::EntryNotHeld));
    assert_eq!(locked.phase(), ScopePhase::Blocked);
    assert_eq!(guard.holder(), Some(1));
}

#[test]
fn end_block_only_ends_a_block() {
    let mut guard = entered(1);
    let mut scope = CallbackScope::new();
    scope.end_block();
    assert_eq!(scope.phase(), ScopePhase::Running);
    assert_eq!(scope.begin_block(&mut guard, 1, true), Ok(()));
    scope.end_block();
    assert_eq!(scope.phase(), ScopePhase::Suspended);
}

#[test]
fn block_error_messages() {
    assert_eq!(BlockError::NotAFunction.message(), "Argument to 'block' must be a function");
    assert_eq!(BlockError::AlreadyBlocked.message(), "Main thread is already blocked");
    assert_eq!(
        BlockError::HostLock("OOM".to_string()).message(),
        "Can not lock Redis, OOM"
    );
    assert_eq!(BlockError::Unregistered.message(), "Function were unregistered");
    assert_eq!(BlockError::EntryNotHeld.message(), "Interpreter entry is not held");
}

#[test]
fn only_a_lost_entry_is_fatal() {
    assert!(BlockError::EntryNotHeld.is_fatal());
    assert!(!BlockError::NotAFunction.is_fatal());
    assert!(!BlockError::AlreadyBlocked.is_fatal());
    assert!(!BlockError::HostLock("busy".to_string()).is_fatal());
    assert!(!BlockError::Unregistered.is_fatal());
}

#[test]
fn open_block_binds_a_handle_to_the_lock() {
    let mut guard = entered(1);
    let mut scope = CallbackScope::new();
    assert_eq!(scope.begin_block(&mut guard, 1, true), Ok(()));
    let mut handle = match open_block(&mut scope, &mut guard, 1, Ok::<u32, String>(42), true) {
        Ok(handle) => handle,
        Err(_) => panic!("the lock was given and the library lives"),
    };
    assert_eq!(scope.phase(), ScopePhase::Blocked);
    assert_eq!(guard.holder(), Some(1));
    assert_eq!(handle.call(&scope), Ok(&42));
    assert_eq!(handle.allow_block(), Ok(true));
    close_block(&mut scope, &mut handle);
    assert_eq!(scope.phase(), ScopePhase::Running);
    assert_eq!(handle.call(&CallbackScope::locked()), Err(ClientError::InvalidClient));
    assert_eq!(handle.allow_block(), Err(ClientError::InvalidClient));
}

#[test]
fn open_block_reports_the_refusal() {
    let mut guard = entered(1);
    let mut scope = CallbackScope::new();
    assert_eq!(scope.begin_block(&mut guard, 1, true), Ok(()));
    match open_block(&mut scope, &mut guard, 1, Err::<u32, String>("busy".to_string()), true) {
        Err(e) => assert_eq!(e, BlockError::HostLock("busy".to_string())),
        Ok(_) => panic!("the lock was refused"),
    }
    assert_eq!(scope.phase(), ScopePhase::Running);

    assert_eq!(scope.begin_block(&mut guard, 1, true), Ok(()));
    match open_block(&mut scope, &mut guard, 1, Ok::<u32, String>(1), false) {
        Err(e) => assert_eq!(e, BlockError::Unregistered),
        Ok(_) => panic!("the library is gone"),
    }
    assert_eq!(scope.phase(), ScopePhase::Running);

    match open_block(&mut scope, &mut guard, 1, Ok::<u32, String>(1), true) {
        Err(e) => assert_eq!(e, BlockError::EntryNotHeld),
        Ok(_) => panic!("the scope is not suspended"),
    }
    assert_eq!(scope.phase(), ScopePhase::Running);
    assert_eq!(guard.holder(), Some(1));
}

#[test]
fn call_modes() {
    assert_eq!(CallMode::Decoded.name(), "call");
    assert_eq!(CallMode::Raw.name(), "call_raw");
    assert!(CallMode::Decoded.decodes_text());
    assert!(!CallMode::Raw.decodes_text());
}

#[test]
fn background_start_checks_in_order() {
    let unbound: ClientHandle<u32> = ClientHandle::new();
    assert_eq!(
        start_background(&unbound, CallbackKind::NotCallable, false),
        Err(BackgroundError::OutOfContext)
    );
    let mut bound = ClientHandle::new();
    bound.set_client(9u32);
    assert_eq!(
        start_background(&bound, CallbackKind::Function, false),
        Err(BackgroundError::NotAsync)
    );
    assert_eq!(
        start_background(&bound, CallbackKind::NotCallable, true),
        Err(BackgroundError::NotAsync)
    );
    assert_eq!(
        start_background(&bound, CallbackKind::AsyncFunction, false),
        Err(BackgroundError::InvalidContext)
    );
    assert_eq!(start_background(&bound, CallbackKind::AsyncFunction, true), Ok(&9));
}

#[test]
fn background_error_messages() {
    assert_eq!(
        BackgroundError::OutOfContext.message(),
        "Called 'run_on_background' out of context"
    );
    assert_eq!(
        BackgroundError::NotAsync.message(),
        "First argument to 'run_on_background' must be an async function"
    );
    assert_eq!(BackgroundError::InvalidContext.message(), "Use of invalid function context");
}
