//! The functions that a library sees as globals: the checks that each
//! registration makes before it reaches the host, the configuration blob,
//! the promise constructor, and the handling of a remote task.

use crate::guest::{CallbackKind, GuestArg};
use crate::remote::{
    answers_model, results_model, Decoded, DecodedModel, RemoteCallArgument, Resolved,
    ResolvedModel,
};
use crate::text::{joined, owned};
use vstd::prelude::*;
use vstd::string::StrSliceExecFns;
use vstd::utf8::encode_utf8;

verus! {

/// A registration that takes a key prefix.
#[derive(Clone, Copy, Debug, PartialEq, Eq, Structural)]
pub enum ConsumerApi {
    StreamConsumer,
    NotificationsConsumer,
}

/// Why a registration did not reach the host.
#[derive(Debug, PartialEq, Eq)]
pub enum RegisterError {
    /// The callback of a consumer is not a function.
    ConsumerNotAFunction(ConsumerApi),
    /// A consumer was registered outside the loading of a library.
    ConsumerOutOfContext(ConsumerApi),
    /// The prefix of a consumer is neither a string nor a binary buffer.
    BadPrefix(ConsumerApi),
    /// The callback of a function is not a function.
    FunctionNotAFunction,
    /// The flags of a function did not parse; the parser's message.
    Flags(String),
    /// A function was registered outside the loading of a library.
    FunctionOutOfContext,
    /// The callback of a remote function is not a function.
    RemoteNotAFunction,
    /// The callback of a remote function is not async.
    RemoteNotAsync,
    /// A remote function was registered outside the loading of a library.
    RemoteOutOfContext,
    /// The registration of the library was removed already.
    Uninitialized,
}

/// The mathematical value of a [`RegisterError`].
pub enum RegisterFailure {
    ConsumerNotAFunction(ConsumerApi),
    ConsumerOutOfContext(ConsumerApi),
    BadPrefix(ConsumerApi),
    FunctionNotAFunction,
    Flags(Seq<char>),
    FunctionOutOfContext,
    RemoteNotAFunction,
    RemoteNotAsync,
    RemoteOutOfContext,
    Uninitialized,
}

impl View for RegisterError {
    type V = RegisterFailure;

    open spec fn view(&self) -> RegisterFailure {
        match self {
            RegisterError::ConsumerNotAFunction(api) => RegisterFailure::ConsumerNotAFunction(*api),
            RegisterError::ConsumerOutOfContext(api) => RegisterFailure::ConsumerOutOfContext(*api),
            RegisterError::BadPrefix(api) => RegisterFailure::BadPrefix(*api),
            RegisterError::FunctionNotAFunction => RegisterFailure::FunctionNotAFunction,
            RegisterError::Flags(message) => RegisterFailure::Flags(message@),
            RegisterError::FunctionOutOfContext => RegisterFailure::FunctionOutOfContext,
            RegisterError::RemoteNotAFunction => RegisterFailure::RemoteNotAFunction,
            RegisterError::RemoteNotAsync => RegisterFailure::RemoteNotAsync,
            RegisterError::RemoteOutOfContext => RegisterFailure::RemoteOutOfContext,
            RegisterError::Uninitialized => RegisterFailure::Uninitialized,
        }
    }
}

impl RegisterFailure {
    /// The text of the exception that the guest sees.
    pub open spec fn message(self) -> Seq<char> {
        match self {
            RegisterFailure::ConsumerNotAFunction(ConsumerApi::StreamConsumer) =>
                "Fith argument to 'register_stream_consumer' must be a function"@,
            RegisterFailure::ConsumerNotAFunction(ConsumerApi::NotificationsConsumer) =>
                "Third argument to 'register_notifications_consumer' must be a function"@,
            RegisterFailure::ConsumerOutOfContext(ConsumerApi::StreamConsumer) =>
                "Called 'register_function' out of context"@,
            RegisterFailure::ConsumerOutOfContext(ConsumerApi::NotificationsConsumer) =>
                "Called 'register_notifications_consumer' out of context"@,
            RegisterFailure::BadPrefix(ConsumerApi::StreamConsumer) =>
                "Second argument to 'register_stream_consumer' must be a String or ArrayBuffer representing the prefix"@,
            RegisterFailure::BadPrefix(ConsumerApi::NotificationsConsumer) =>
                "Second argument to 'register_notifications_consumer' must be a string or ArrayBuffer representing the prefix"@,
            RegisterFailure::FunctionNotAFunction =>
                "Second argument to 'register_function' must be a function"@,
            RegisterFailure::Flags(message) => "Failed parsing function flags, "@ + message,
            RegisterFailure::FunctionOutOfContext => "Called 'register_function' out of context"@,
            RegisterFailure::RemoteNotAFunction =>
                "Second argument to 'register_remote_function' must be a function"@,
            RegisterFailure::RemoteNotAsync => "Remote function must be async"@,
            RegisterFailure::RemoteOutOfContext =>
                "Called 'register_remote_function' out of context"@,
            RegisterFailure::Uninitialized => "Use of uninitialized script context"@,
        }
    }
}

impl RegisterError {
    /// The text of the exception that the guest sees.
    pub fn message(&self) -> (text: String)
        ensures
            text@ == self@.message(),
    {
        match self {
            RegisterError::ConsumerNotAFunction(ConsumerApi::StreamConsumer) => owned(
                "Fith argument to 'register_stream_consumer' must be a function",
            ),
            RegisterError::ConsumerNotAFunction(ConsumerApi::NotificationsConsumer) => owned(
                "Third argument to 'register_notifications_consumer' must be a function",
            ),
            RegisterError::ConsumerOutOfContext(ConsumerApi::StreamConsumer) => owned(
                "Called 'register_function' out of context",
            ),
            RegisterError::ConsumerOutOfContext(ConsumerApi::NotificationsConsumer) => owned(
                "Called 'register_notifications_consumer' out of context",
            ),
            RegisterError::BadPrefix(ConsumerApi::StreamConsumer) => owned(
                "Second argument to 'register_stream_consumer' must be a String or ArrayBuffer representing the prefix",
            ),
            RegisterError::BadPrefix(ConsumerApi::NotificationsConsumer) => owned(
                "Second argument to 'register_notifications_consumer' must be a string or ArrayBuffer representing the prefix",
            ),
            RegisterError::FunctionNotAFunction => owned(
                "Second argument to 'register_function' must be a function",
            ),
            RegisterError::Flags(message) => joined(
                "Failed parsing function flags, ",
                message.as_str(),
            ),
            RegisterError::FunctionOutOfContext => owned(
                "Called 'register_function' out of context",
            ),
            RegisterError::RemoteNotAFunction => owned(
                "Second argument to 'register_remote_function' must be a function",
            ),
            RegisterError::RemoteNotAsync => owned("Remote function must be async"),
            RegisterError::RemoteOutOfContext => owned(
                "Called 'register_remote_function' out of context",
            ),
            RegisterError::Uninitialized => owned("Use of uninitialized script context"),
        }
    }
}

/// The key prefix that a guest value stands for: the UTF-8 encoding of a
/// string, or the content of a binary buffer. A string object is no prefix.
pub open spec fn prefix_bytes(prefix: GuestArg) -> Option<Seq<u8>> {
    match prefix {
        GuestArg::Str(Some(text)) => Some(encode_utf8(text@)),
        GuestArg::Buffer(bytes) => Some(bytes@),
        _ => None,
    }
}

/// A consumer that may be handed to the host.
#[derive(Debug, PartialEq, Eq)]
pub struct Consumer {
    /// The key prefix that the consumer watches.
    pub prefix: Vec<u8>,
    /// Whether its callback is async.
    pub is_async: bool,
}

/// The mathematical value of a [`Consumer`].
pub struct ConsumerModel {
    pub prefix: Seq<u8>,
    pub is_async: bool,
}

impl View for Consumer {
    type V = ConsumerModel;

    open spec fn view(&self) -> ConsumerModel {
        ConsumerModel { prefix: self.prefix@, is_async: self.is_async }
    }
}

/// What the registration of a consumer comes to. The callback is looked at
/// first, then the loading context, then the registration, then the prefix.
pub open spec fn consumer_model(
    api: ConsumerApi,
    callback: CallbackKind,
    in_load_context: bool,
    registration_alive: bool,
    prefix: GuestArg,
) -> Result<ConsumerModel, RegisterFailure> {
    if !callback.callable() {
        Err(RegisterFailure::ConsumerNotAFunction(api))
    } else if !in_load_context {
        Err(RegisterFailure::ConsumerOutOfContext(api))
    } else if !registration_alive {
        Err(RegisterFailure::Uninitialized)
    } else {
        match prefix_bytes(prefix) {
            Some(bytes) => Ok(
                ConsumerModel { prefix: bytes, is_async: callback == CallbackKind::AsyncFunction },
            ),
            None => Err(RegisterFailure::BadPrefix(api)),
        }
    }
}

/// Checks the registration of a stream consumer or of a consumer of key
/// space notifications.
pub fn check_consumer(
    api: ConsumerApi,
    callback: CallbackKind,
    in_load_context: bool,
    registration_alive: bool,
    prefix: GuestArg,
) -> (r: Result<Consumer, RegisterError>)
    ensures
        match r {
            Ok(consumer) => consumer_model(
                api,
                callback,
                in_load_context,
                registration_alive,
                prefix,
            ) == Ok::<ConsumerModel, RegisterFailure>(consumer@),
            Err(e) => consumer_model(api, callback, in_load_context, registration_alive, prefix)
                == Err::<ConsumerModel, RegisterFailure>(e@),
        },
{
    if !callback.is_function() {
        return Err(RegisterError::ConsumerNotAFunction(api));
    }
    if !in_load_context {
        return Err(RegisterError::ConsumerOutOfContext(api));
    }
    if !registration_alive {
        return Err(RegisterError::Uninitialized);
    }
    let is_async = callback.is_async_function();
    match prefix {
        GuestArg::Str(Some(text)) => Ok(
            Consumer { prefix: text.as_str().as_bytes_vec(), is_async },
        ),
        GuestArg::Buffer(bytes) => Ok(Consumer { prefix: bytes, is_async }),
        _ => Err(RegisterError::BadPrefix(api)),
    }
}

/// A function that may be handed to the host.
#[derive(Clone, Copy, Debug, PartialEq, Eq, Structural)]
pub struct FunctionPlan {
    /// Whether its callback is async.
    pub is_async: bool,
    /// Whether its arguments are decoded as text before it is called.
    pub decode_arguments: bool,
}

/// The value of the flags handed to a registration: none given, or what the
/// parser made of them, which is whether raw arguments were asked for.
pub open spec fn flags_model(flags: Option<Result<bool, String>>) -> Option<
    Result<bool, Seq<char>>,
> {
    match flags {
        None => None,
        Some(Ok(raw)) => Some(Ok(raw)),
        Some(Err(message)) => Some(Err(message@)),
    }
}

/// What the registration of a function comes to. The callback is looked at
/// first, then the flags, then the loading context, then the registration.
/// Arguments are decoded unless the flags ask for raw arguments.
pub open spec fn function_model(
    callback: CallbackKind,
    flags: Option<Result<bool, Seq<char>>>,
    in_load_context: bool,
    registration_alive: bool,
) -> Result<FunctionPlan, RegisterFailure> {
    if !callback.callable() {
        Err(RegisterFailure::FunctionNotAFunction)
    } else {
        match flags {
            Some(Err(message)) => Err(RegisterFailure::Flags(message)),
            _ => if !in_load_context {
                Err(RegisterFailure::FunctionOutOfContext)
            } else if !registration_alive {
                Err(RegisterFailure::Uninitialized)
            } else {
                Ok(
                    FunctionPlan {
                        is_async: callback == CallbackKind::AsyncFunction,
                        decode_arguments: flags != Some(Ok::<bool, Seq<char>>(true)),
                    },
                )
            },
        }
    }
}

/// Checks the registration of a function.
pub fn check_function(
    callback: CallbackKind,
    flags: Option<Result<bool, String>>,
    in_load_context: bool,
    registration_alive: bool,
) -> (r: Result<FunctionPlan, RegisterError>)
    ensures
        match r {
            Ok(plan) => function_model(
                callback,
                flags_model(flags),
                in_load_context,
                registration_alive,
            ) == Ok::<FunctionPlan, RegisterFailure>(plan),
            Err(e) => function_model(
                callback,
                flags_model(flags),
                in_load_context,
                registration_alive,
            ) == Err::<FunctionPlan, RegisterFailure>(e@),
        },
{
    if !callback.is_function() {
        return Err(RegisterError::FunctionNotAFunction);
    }
    let raw = match flags {
        None => false,
        Some(Ok(raw)) => raw,
        Some(Err(message)) => {
            return Err(RegisterError::Flags(message));
        },
    };
    if !in_load_context {
        return Err(RegisterError::FunctionOutOfContext);
    }
    if !registration_alive {
        return Err(RegisterError::Uninitialized);
    }
    Ok(FunctionPlan { is_async: callback.is_async_function(), decode_arguments: !raw })
}

/// What the registration of a remote function comes to: its callback must
/// be an async function, and a library must be loading.
pub open spec fn remote_function_model(callback: CallbackKind, in_load_context: bool) -> Option<
    RegisterFailure,
> {
    if !callback.callable() {
        Some(RegisterFailure::RemoteNotAFunction)
    } else if callback != CallbackKind::AsyncFunction {
        Some(RegisterFailure::RemoteNotAsync)
    } else if !in_load_context {
        Some(RegisterFailure::RemoteOutOfContext)
    } else {
        None
    }
}

/// Checks the registration of a remote function.
pub fn check_remote_function(callback: CallbackKind, in_load_context: bool) -> (r: Result<
    (),
    RegisterError,
>)
    ensures
        match r {
            Ok(_) => remote_function_model(callback, in_load_context) is None,
            Err(e) => remote_function_model(callback, in_load_context) == Some(e@),
        },
{
    if !callback.is_function() {
        return Err(RegisterError::RemoteNotAFunction);
    }
    if !callback.is_async_function() {
        return Err(RegisterError::RemoteNotAsync);
    }
    if !in_load_context {
        return Err(RegisterError::RemoteOutOfContext);
    }
    Ok(())
}

/// Why a promise was not constructed.
#[derive(Clone, Copy, Debug, PartialEq, Eq, Structural)]
pub enum PromiseError {
    /// The executor is not a function, or it is async.
    BadExecutor,
    /// The registration of the library was removed already.
    Uninitialized,
    /// The registration was removed before the promise was settled.
    LibraryDeleted,
}

impl PromiseError {
    /// The text of the exception that the guest sees.
    pub open spec fn message_model(self) -> Seq<char> {
        match self {
            PromiseError::BadExecutor => "Bad argument to 'Promise' function"@,
            PromiseError::Uninitialized => "Use of uninitialized script context"@,
            PromiseError::LibraryDeleted => "Library was deleted"@,
        }
    }

    /// The text of the exception that the guest sees.
    pub fn message(&self) -> (text: String)
        ensures
            text@ == self.message_model(),
    {
        match self {
            PromiseError::BadExecutor => owned("Bad argument to 'Promise' function"),
            PromiseError::Uninitialized => owned("Use of uninitialized script context"),
            PromiseError::LibraryDeleted => owned("Library was deleted"),
        }
    }
}

/// Checks the executor handed to the promise constructor: it must be a
/// function that is not async, and the registration must still live.
pub fn check_promise_executor(executor: CallbackKind, registration_alive: bool) -> (r: Result<
    (),
    PromiseError,
>)
    ensures
        executor != CallbackKind::Function ==> r == Err::<(), PromiseError>(
            PromiseError::BadExecutor,
        ),
        executor == CallbackKind::Function && !registration_alive ==> r == Err::<
            (),
            PromiseError,
        >(PromiseError::Uninitialized),
        executor == CallbackKind::Function && registration_alive ==> r is Ok,
{
    if !executor.is_function() || executor.is_async_function() {
        return Err(PromiseError::BadExecutor);
    }
    if !registration_alive {
        return Err(PromiseError::Uninitialized);
    }
    Ok(())
}

/// The configuration that guest code reads: what the blob parsed to, or
/// nothing where no blob was given, which stands for an empty object. A blob
/// that does not parse fails the initialisation with the parser's message.
pub fn initial_config<G>(parsed: Option<Result<G, String>>) -> (r: Result<Option<G>, String>)
    ensures
        r == (match parsed {
            None => Ok::<Option<G>, String>(None),
            Some(Ok(value)) => Ok(Some(value)),
            Some(Err(message)) => Err(message),
        }),
{
    match parsed {
        None => Ok(None),
        Some(Ok(value)) => Ok(Some(value)),
        Some(Err(message)) => Err(message),
    }
}

/// Why a remote task gave no result.
#[derive(Clone, Copy, Debug, PartialEq, Eq, Structural)]
pub enum TaskError {
    /// The registration of the library is gone.
    UninitializedScript,
    /// The function of the task is gone.
    UninitializedFunction,
    /// An input of the task is text that does not parse.
    ArgumentDeserialization,
}

impl TaskError {
    /// The message that goes back to the calling shard.
    pub open spec fn message_model(self) -> Seq<char> {
        match self {
            TaskError::UninitializedScript => "Use of uninitialized script context"@,
            TaskError::UninitializedFunction => "Use of uninitialized function context"@,
            TaskError::ArgumentDeserialization => "Failed deserializing remote function argument"@,
        }
    }

    /// The message that goes back to the calling shard.
    pub fn message(&self) -> (text: String)
        ensures
            text@ == self.message_model(),
    {
        match self {
            TaskError::UninitializedScript => owned("Use of uninitialized script context"),
            TaskError::UninitializedFunction => owned("Use of uninitialized function context"),
            TaskError::ArgumentDeserialization => owned(
                "Failed deserializing remote function argument",
            ),
        }
    }
}

/// Whether a remote task may enter the interpreter: the registration must
/// live, and then the function.
pub fn task_entry(script_alive: bool, function_alive: bool) -> (r: Result<(), TaskError>)
    ensures
        !script_alive ==> r == Err::<(), TaskError>(TaskError::UninitializedScript),
        script_alive && !function_alive ==> r == Err::<(), TaskError>(
            TaskError::UninitializedFunction,
        ),
        script_alive && function_alive ==> r is Ok,
{
    if !script_alive {
        return Err(TaskError::UninitializedScript);
    }
    if !function_alive {
        return Err(TaskError::UninitializedFunction);
    }
    Ok(())
}

/// Whether none of the inputs is malformed text.
pub open spec fn all_decoded<G>(inputs: Seq<DecodedModel<G>>) -> bool {
    forall|i: int| 0 <= i < inputs.len() ==> !(#[trigger] inputs[i] is Malformed)
}

/// The guest value of an input that decoded.
pub open spec fn resolved<G>(input: DecodedModel<G>) -> ResolvedModel<G> {
    match input {
        DecodedModel::Buffer(bytes) => ResolvedModel::Buffer(bytes),
        DecodedModel::Parsed(value) => ResolvedModel::Value(value),
        DecodedModel::Malformed(_) => arbitrary(),
    }
}

/// The guest values that a remote task is called with, one for each input,
/// in order. One input that is malformed text fails the task.
pub fn task_arguments<G>(inputs: Vec<Decoded<G>>) -> (r: Result<Vec<Resolved<G>>, TaskError>)
    ensures
        match r {
            Ok(values) => all_decoded(answers_model(inputs@)) && results_model(values@)
                == Seq::new(inputs@.len(), |i: int| resolved(answers_model(inputs@)[i])),
            Err(e) => e == TaskError::ArgumentDeserialization && !all_decoded(
                answers_model(inputs@),
            ),
        },
{
    let ghost models = answers_model(inputs@);
    let mut values: Vec<Resolved<G>> = Vec::new();
    for input in it: inputs
        invariant
            it.seq() == inputs@,
            models == answers_model(inputs@),
            values@.len() == it.index(),
            forall|i: int|
                0 <= i < it.index() ==> !(#[trigger] models[i] is Malformed) && values@[i]@
                    == resolved(models[i]),
    {
        let ghost k = it.index() as int;
        assert(input == inputs[k]);
        assert(models[k] == input@);
        match input {
            Decoded::Buffer(bytes) => {
                values.push(Resolved::Buffer(bytes));
            },
            Decoded::Parsed(value) => {
                values.push(Resolved::Value(value));
            },
            Decoded::Malformed(_) => {
                return Err(TaskError::ArgumentDeserialization);
            },
        }
    }
    assert(results_model(values@) =~= Seq::new(
        inputs@.len(),
        |i: int| resolved(answers_model(inputs@)[i]),
    ));
    Ok(values)
}

/// What the call of a remote task's function came to.
#[derive(Debug, PartialEq, Eq)]
pub enum TaskOutcome {
    /// The call threw; the exception's message.
    Threw(String),
    /// A value that is no promise: its travelling form, if it has one.
    Plain(Option<RemoteCallArgument>),
    /// A fulfilled promise: the travelling form of its value, or the text
    /// of the exception that serialising it raised.
    Fulfilled(Result<RemoteCallArgument, String>),
    /// A rejected promise: the text of its reason.
    Rejected(String),
    /// A promise that is not settled yet.
    Pending,
}

/// The value of a reply to the calling shard.
pub open spec fn reply_model(reply: Option<Result<RemoteCallArgument, String>>) -> Option<
    Result<crate::remote::ArgumentModel, Seq<char>>,
> {
    match reply {
        None => None,
        Some(Ok(argument)) => Some(Ok(argument@)),
        Some(Err(message)) => Some(Err(message@)),
    }
}

/// The reply that the outcome of a remote task sends to the calling shard;
/// none while its promise is pending.
pub open spec fn task_reply_model(outcome: TaskOutcome) -> Option<
    Result<crate::remote::ArgumentModel, Seq<char>>,
> {
    match outcome {
        TaskOutcome::Threw(message) => Some(Err(message@)),
        TaskOutcome::Plain(Some(argument)) => Some(Ok(argument@)),
        TaskOutcome::Plain(None) => Some(Err("Failed serializing result"@)),
        TaskOutcome::Fulfilled(Ok(argument)) => Some(Ok(argument@)),
        TaskOutcome::Fulfilled(Err(text)) => Some(
            Err("Failed serializing result, "@ + text@ + "."@),
        ),
        TaskOutcome::Rejected(reason) => Some(Err(reason@)),
        TaskOutcome::Pending => None,
    }
}

/// The message for a value of a promise that has no travelling form.
fn serialization_failure(text: String) -> (message: String)
    ensures
        message@ == "Failed serializing result, "@ + text@ + "."@,
{
    let mut message = joined("Failed serializing result, ", text.as_str());
    message.append(".");
    message
}

/// Turns the outcome of a remote task into the reply for the calling shard.
/// Nothing is sent while the task's promise is pending: the reply then
/// follows from [`settled_reply`] when the promise settles.
pub fn task_reply(outcome: TaskOutcome) -> (reply: Option<Result<RemoteCallArgument, String>>)
    ensures
        reply_model(reply) == task_reply_model(outcome),
{
    match outcome {
        TaskOutcome::Threw(message) => Some(Err(message)),
        TaskOutcome::Plain(Some(argument)) => Some(Ok(argument)),
        TaskOutcome::Plain(None) => Some(Err(owned("Failed serializing result"))),
        TaskOutcome::Fulfilled(Ok(argument)) => Some(Ok(argument)),
        TaskOutcome::Fulfilled(Err(text)) => Some(Err(serialization_failure(text))),
        TaskOutcome::Rejected(reason) => Some(Err(reason)),
        TaskOutcome::Pending => None,
    }
}

/// The one reply that a pending remote task still owes. Its promise may
/// call back more than once; only the first call finds the reply unsent.
pub struct ReplyOnce<F> {
    unsent: Option<F>,
}

impl<F> View for ReplyOnce<F> {
    type V = Option<F>;

    closed spec fn view(&self) -> Option<F> {
        self.unsent
    }
}

impl<F> ReplyOnce<F> {
    /// Holds the means to reply, `done`, until the reply is sent.
    pub fn new(done: F) -> (once: Self)
        ensures
            once@ == Some(done),
    {
        ReplyOnce { unsent: Some(done) }
    }

    /// Takes the means to reply, if the reply is still unsent. Afterwards
    /// nothing is left to take.
    pub fn take(&mut self) -> (done: Option<F>)
        ensures
            done == old(self)@,
            final(self)@ is None,
    {
        self.unsent.take()
    }
}

/// The reply of a remote task whose pending promise has settled: the
/// travelling form of the value it was fulfilled with, or the text of the
/// exception that serialising it raised, or the reason it was rejected with.
pub fn settled_reply(settled: Result<Result<RemoteCallArgument, String>, String>) -> (reply:
    Result<RemoteCallArgument, String>)
    ensures
        reply_model(Some(reply)) == (match settled {
            Ok(value) => task_reply_model(TaskOutcome::Fulfilled(value)),
            Err(reason) => task_reply_model(TaskOutcome::Rejected(reason)),
        }),
{
    match settled {
        Ok(Ok(argument)) => Ok(argument),
        Ok(Err(text)) => Err(serialization_failure(text)),
        Err(reason) => Err(reason),
    }
}

} // verus!
