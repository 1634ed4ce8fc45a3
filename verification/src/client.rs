//! The client handle: a revocable capability to run host commands, valid
//! only while the callback scope that issued it lasts.

use crate::entry::{CallbackScope, ScopePhase};
use crate::text::owned;
use vstd::prelude::*;

verus! {

/// Why an operation on a client handle was refused.
#[derive(Clone, Copy, Debug, PartialEq, Eq, Structural)]
pub enum ClientError {
    /// A command was issued through a handle that is not invalidated, from a
    /// scope for which the host is not locked.
    NotLocked,
    /// The handle holds no capability: it was invalidated, or never bound.
    InvalidClient,
}

impl ClientError {
    /// The text of the exception that the guest sees.
    pub open spec fn message_model(self) -> Seq<char> {
        match self {
            ClientError::NotLocked => "Main thread is not locked"@,
            ClientError::InvalidClient => "Used on invalid client"@,
        }
    }

    /// The text of the exception that the guest sees.
    pub fn message(&self) -> (text: String)
        ensures
            text@ == self.message_model(),
    {
        match self {
            ClientError::NotLocked => owned("Main thread is not locked"),
            ClientError::InvalidClient => owned("Used on invalid client"),
        }
    }
}

/// The two ways in which guest code issues a host command.
#[derive(Clone, Copy, Debug, PartialEq, Eq, Structural)]
pub enum CallMode {
    /// The reply is decoded as text where it can be.
    Decoded,
    /// Byte payloads of the reply are handed over as they are.
    Raw,
}

impl CallMode {
    /// The name under which guest code finds the function.
    pub fn name(&self) -> (name: &'static str)
        ensures
            name@ == (match self {
                CallMode::Decoded => "call"@,
                CallMode::Raw => "call_raw"@,
            }),
    {
        match self {
            CallMode::Decoded => "call",
            CallMode::Raw => "call_raw",
        }
    }

    /// Whether the reply is marshalled with text decoding.
    pub fn decodes_text(&self) -> (decode: bool)
        ensures
            decode == (*self == CallMode::Decoded),
    {
        match self {
            CallMode::Decoded => true,
            CallMode::Raw => false,
        }
    }
}

/// The mathematical value of a [`ClientHandle`].
pub struct ClientModel<C> {
    /// The capability, while the handle is bound.
    pub client: Option<C>,
    /// Whether commands that block are allowed; nothing once invalidated.
    pub allow_block: Option<bool>,
}

impl<C> ClientModel<C> {
    /// A handle as it is created: unbound, blocking allowed.
    pub open spec fn fresh() -> Self {
        ClientModel { client: None, allow_block: Some(true) }
    }

    /// The handle after invalidation.
    pub open spec fn invalidated() -> Self {
        ClientModel { client: None, allow_block: None }
    }

    /// Whether the handle was invalidated.
    pub open spec fn is_invalidated(self) -> bool {
        self.allow_block is None
    }

    /// What every handle satisfies: an invalidated handle holds nothing.
    pub open spec fn well_formed(self) -> bool {
        self.is_invalidated() ==> self.client is None
    }

    /// The handle after a capability was bound to it. Invalidation is final:
    /// an invalidated handle stays as it is.
    pub open spec fn bound(self, c: C) -> Self {
        if self.is_invalidated() {
            self
        } else {
            ClientModel { client: Some(c), allow_block: self.allow_block }
        }
    }

    /// The handle after its blocking flag was set. An invalidated handle
    /// stays as it is.
    pub open spec fn allowing(self, allow_block: bool) -> Self {
        if self.is_invalidated() {
            self
        } else {
            ClientModel { client: self.client, allow_block: Some(allow_block) }
        }
    }

    /// What a command issued through the handle meets: the capability to run
    /// it on, or the refusal. An invalidated handle refuses every command as
    /// used on an invalid client, whatever the scope; on any other handle the
    /// scope's lock is looked at first, and then the capability.
    pub open spec fn call(self, phase: ScopePhase) -> Result<C, ClientError> {
        if self.is_invalidated() {
            Err(ClientError::InvalidClient)
        } else if phase != ScopePhase::Blocked {
            Err(ClientError::NotLocked)
        } else {
            match self.client {
                Some(c) => Ok(c),
                None => Err(ClientError::InvalidClient),
            }
        }
    }

    /// What a query of the blocking flag meets.
    pub open spec fn blocking(self) -> Result<bool, ClientError> {
        match self.allow_block {
            Some(allowed) => Ok(allowed),
            None => Err(ClientError::InvalidClient),
        }
    }
}

/// A client handle over a capability of type `C`.
///
/// A handle is created unbound, is bound to a capability for the time of one
/// callback scope, and is invalidated when that scope returns. Invalidation
/// is final.
pub struct ClientHandle<C> {
    client: Option<C>,
    allow_block: Option<bool>,
}

impl<C> View for ClientHandle<C> {
    type V = ClientModel<C>;

    closed spec fn view(&self) -> ClientModel<C> {
        ClientModel { client: self.client, allow_block: self.allow_block }
    }
}

impl<C> ClientHandle<C> {
    /// An invalidated handle holds no capability.
    #[verifier::type_invariant]
    spec fn holds_nothing_once_invalid(self) -> bool {
        self.allow_block is None ==> self.client is None
    }

    /// A handle that is not bound yet and allows blocking.
    pub fn new() -> (handle: Self)
        ensures
            handle@ == ClientModel::<C>::fresh(),
    {
        ClientHandle { client: None, allow_block: Some(true) }
    }

    /// Invalidates the handle: the capability and the flag are dropped.
    pub fn make_invalid(&mut self)
        ensures
            final(self)@ == ClientModel::<C>::invalidated(),
    {
        *self = ClientHandle { client: None, allow_block: None };
    }

    /// Binds the handle to a capability, unless it was invalidated.
    pub fn set_client(&mut self, c: C)
        ensures
            final(self)@ == old(self)@.bound(c),
    {
        if self.allow_block.is_some() {
            *self = ClientHandle { client: Some(c), allow_block: self.allow_block };
        }
    }

    /// Sets whether commands that block are allowed, unless the handle was
    /// invalidated.
    pub fn set_allow_block(&mut self, allow_block: bool)
        ensures
            final(self)@ == old(self)@.allowing(allow_block),
    {
        if self.allow_block.is_some() {
            self.allow_block = Some(allow_block);
        }
    }

    /// Whether the handle holds a capability.
    pub fn is_valid(&self) -> (valid: bool)
        ensures
            valid == self@.client is Some,
            self@.well_formed(),
    {
        proof {
            use_type_invariant(self);
        }
        self.client.is_some()
    }

    /// The capability on which a command issued from `scope` runs. An
    /// invalidated handle refuses the command as used on an invalid client,
    /// whatever the scope. Any other handle refuses it when the host is not
    /// locked for the scope, and then when it holds no capability.
    pub fn call(&self, scope: &CallbackScope) -> (r: Result<&C, ClientError>)
        ensures
            match r {
                Ok(c) => self@.call(scope@) == Ok::<C, ClientError>(*c),
                Err(e) => self@.call(scope@) == Err::<C, ClientError>(e),
            },
    {
        if self.allow_block.is_none() {
            return Err(ClientError::InvalidClient);
        }
        if !scope.is_blocked() {
            return Err(ClientError::NotLocked);
        }
        match &self.client {
            Some(c) => Ok(c),
            None => Err(ClientError::InvalidClient),
        }
    }

    /// Whether commands that block are allowed. Refused once the handle is
    /// invalidated.
    pub fn allow_block(&self) -> (r: Result<bool, ClientError>)
        ensures
            r == self@.blocking(),
    {
        match self.allow_block {
            Some(allowed) => Ok(allowed),
            None => Err(ClientError::InvalidClient),
        }
    }

    /// The capability that the handle holds, if any.
    pub fn capability(&self) -> (c: Option<&C>)
        ensures
            match c {
                Some(c) => self@.client == Some(*c),
                None => self@.client is None,
            },
    {
        self.client.as_ref()
    }
}

/// One thing that is done to a client handle.
pub enum ClientOp<C> {
    /// A capability is bound.
    SetClient(C),
    /// The blocking flag is set.
    SetAllowBlock(bool),
    /// The handle is invalidated.
    MakeInvalid,
    /// A command is issued, its reply decoded as text (`call`).
    Call,
    /// A command is issued, its reply handed over in raw bytes (`call_raw`).
    CallRaw,
    /// The blocking flag is queried.
    AllowBlock,
}

/// The handle after one operation. Commands and queries leave it as it is.
pub open spec fn after<C>(handle: ClientModel<C>, op: ClientOp<C>) -> ClientModel<C> {
    match op {
        ClientOp::SetClient(c) => handle.bound(c),
        ClientOp::SetAllowBlock(allow_block) => handle.allowing(allow_block),
        ClientOp::MakeInvalid => ClientModel::invalidated(),
        _ => handle,
    }
}

/// The handle after the first `n` of a run of operations.
pub open spec fn after_all<C>(handle: ClientModel<C>, ops: Seq<ClientOp<C>>, n: nat) -> ClientModel<
    C,
>
    decreases n,
{
    if n == 0 || n > ops.len() {
        handle
    } else {
        after(after_all(handle, ops, (n - 1) as nat), ops[n - 1])
    }
}

/// An invalidated handle stays invalidated whatever is done to it.
pub proof fn lemma_invalidation_is_final<C>(ops: Seq<ClientOp<C>>, n: nat)
    requires
        n <= ops.len(),
    ensures
        after_all(ClientModel::<C>::invalidated(), ops, n) == ClientModel::<C>::invalidated(),
    decreases n,
{
    if n > 0 {
        lemma_invalidation_is_final(ops, (n - 1) as nat);
    }
}

/// Once a handle is invalidated, every command issued through it is refused
/// as used on an invalid client, in whatever phase the scope is, and every
/// query of its flag likewise: whatever the handle held and served before,
/// and whatever was done to it between the invalidation and the command.
pub proof fn law_invalidated_rejects_calls<C>(
    before: ClientModel<C>,
    later: Seq<ClientOp<C>>,
    n: nat,
)
    requires
        n <= later.len(),
    ensures
        ({
            let handle = after_all(after(before, ClientOp::MakeInvalid), later, n);
            &&& forall|phase: ScopePhase|
                handle.call(phase) == Err::<C, ClientError>(ClientError::InvalidClient)
            &&& handle.blocking() == Err::<bool, ClientError>(ClientError::InvalidClient)
        }),
{
    lemma_invalidation_is_final(later, n);
}

} // verus!
