use gears_bridge::globals::{
    check_consumer, check_function, check_promise_executor, check_remote_function,
    initial_config, settled_reply, task_arguments, task_entry, task_reply, Consumer,
    ConsumerApi, FunctionPlan, PromiseError, RegisterError, ReplyOnce, TaskError, TaskOutcome,
};
use gears_bridge::guest::{ArgError, CallArg, CallbackKind, GuestArg};
use gears_bridge::remote::{Decoded, RemoteCallArgument, Resolved};

#[test]
fn callback_kinds() {
    assert!(!CallbackKind::NotCallable.is_function());
    assert!(CallbackKind::Function.is_function());
    assert!(CallbackKind::AsyncFunction.is_function());
    assert!(!CallbackKind::NotCallable.is_async_function());
    assert!(!CallbackKind::Function.is_async_function());
    assert!(CallbackKind::AsyncFunction.is_async_function());
}

#[test]
fn call_arguments_from_guest_values() {
    assert_eq!(
        CallArg::try_from(GuestArg::Str(Some("GET".to_string()))),
        Ok(CallArg::Utf8("GET".to_string()))
    );
    assert_eq!(
        CallArg::try_from(GuestArg::StrObject(Some("key".to_string()))),
        Ok(CallArg::Utf8("key".to_string()))
    );
    assert_eq!(
        CallArg::try_from(GuestArg::Buffer(vec![0, 255])),
        Ok(CallArg::ArrBuff(vec![0, 255]))
    );
    assert_eq!(CallArg::try_from(GuestArg::Str(None)), Err(ArgError::NotBytes));
    assert_eq!(CallArg::try_from(GuestArg::StrObject(None)), Err(ArgError::NotBytes));
    assert_eq!(CallArg::try_from(GuestArg::Other), Err(ArgError::NotBytes));
}

#[test]
fn missing_call_argument() {
    assert_eq!(CallArg::try_from_next(None), Err(ArgError::Missing));
    assert_eq!(CallArg::try_from_next(Some(GuestArg::Other)), Err(ArgError::NotBytes));
    assert_eq!(
        CallArg::try_from_next(Some(GuestArg::Buffer(vec![1]))),
        Ok(CallArg::ArrBuff(vec![1]))
    );
    assert_eq!(ArgError::Missing.message(), "Wrong number of arguments.");
    assert_eq!(ArgError::NotBytes.message(), "Can not convert value into bytes buffer");
}

#[test]
fn call_argument_bytes() {
    assert_eq!(CallArg::Utf8("héllo".to_string()).as_bytes(), "héllo".as_bytes());
    assert_eq!(CallArg::ArrBuff(vec![1, 2, 3]).as_bytes(), &[1u8, 2, 3][..]);
    assert_eq!(CallArg::Utf8(String::new()).as_bytes(), &[0u8; 0][..]);
}

#[test]
fn consumer_checks_come_in_order() {
    let api = ConsumerApi::StreamConsumer;
    assert_eq!(
        check_consumer(api, CallbackKind::NotCallable, false, false, GuestArg::Other),
        Err(RegisterError::ConsumerNotAFunction(api))
    );
    assert_eq!(
        check_consumer(api, CallbackKind::Function, false, false, GuestArg::Other),
        Err(RegisterError::ConsumerOutOfContext(api))
    );
    assert_eq!(
        check_consumer(api, CallbackKind::Function, true, false, GuestArg::Other),
        Err(RegisterError::Uninitialized)
    );
    assert_eq!(
        check_consumer(api, CallbackKind::Function, true, true, GuestArg::Other),
        Err(RegisterError::BadPrefix(api))
    );
    assert_eq!(
        check_consumer(
            api,
            CallbackKind::Function,
            true,
            true,
            GuestArg::StrObject(Some("p".to_string()))
        ),
        Err(RegisterError::BadPrefix(api))
    );
    assert_eq!(
        check_consumer(api, CallbackKind::Function, true, true, GuestArg::Str(None)),
        Err(RegisterError::BadPrefix(api))
    );
}

#[test]
fn consumer_prefix_is_text_or_buffer() {
    assert_eq!(
        check_consumer(
            ConsumerApi::StreamConsumer,
            CallbackKind::Function,
            true,
            true,
            GuestArg::Str(Some("stream:é".to_string()))
        ),
        Ok(Consumer { prefix: "stream:é".as_bytes().to_vec(), is_async: false })
    );
    assert_eq!(
        check_consumer(
            ConsumerApi::NotificationsConsumer,
            CallbackKind::AsyncFunction,
            true,
            true,
            GuestArg::Buffer(vec![0xff, 0x01])
        ),
        Ok(Consumer { prefix: vec![0xff, 0x01], is_async: true })
    );
}

#[test]
fn function_checks_come_in_order() {
    assert_eq!(
        check_function(CallbackKind::NotCallable, Some(Err("bad".to_string())), false, false),
        Err(RegisterError::FunctionNotAFunction)
    );
    assert_eq!(
        check_function(CallbackKind::Function, Some(Err("bad".to_string())), false, false),
        Err(RegisterError::Flags("bad".to_string()))
    );
    assert_eq!(
        check_function(CallbackKind::Function, None, false, false),
        Err(RegisterError::FunctionOutOfContext)
    );
    assert_eq!(
        check_function(CallbackKind::Function, Some(Ok(true)), true, false),
        Err(RegisterError::Uninitialized)
    );
}

#[test]
fn function_plan_follows_callback_and_flags() {
    assert_eq!(
        check_function(CallbackKind::Function, None, true, true),
        Ok(FunctionPlan { is_async: false, decode_arguments: true })
    );
    assert_eq!(
        check_function(CallbackKind::AsyncFunction, Some(Ok(false)), true, true),
        Ok(FunctionPlan { is_async: true, decode_arguments: true })
    );
    assert_eq!(
        check_function(CallbackKind::Function, Some(Ok(true)), true, true),
        Ok(FunctionPlan { is_async: false, decode_arguments: false })
    );
}

#[test]
fn remote_function_must_be_async() {
    assert_eq!(
        check_remote_function(CallbackKind::NotCallable, true),
        Err(RegisterError::RemoteNotAFunction)
    );
    assert_eq!(
        check_remote_function(CallbackKind::Function, true),
        Err(RegisterError::RemoteNotAsync)
    );
    assert_eq!(
        check_remote_function(CallbackKind::AsyncFunction, false),
        Err(RegisterError::RemoteOutOfContext)
    );
    assert_eq!(check_remote_function(CallbackKind::AsyncFunction, true), Ok(()));
}

#[test]
fn register_error_messages() {
    let stream = ConsumerApi::StreamConsumer;
    let notes = ConsumerApi::NotificationsConsumer;
    assert_eq!(
        RegisterError::ConsumerNotAFunction(stream).message(),
        "Fith argument to 'register_stream_consumer' must be a function"
    );
    assert_eq!(
        RegisterError::ConsumerNotAFunction(notes).message(),
        "Third argument to 'register_notifications_consumer' must be a function"
    );
    assert_eq!(
        RegisterError::ConsumerOutOfContext(stream).message(),
        "Called 'register_function' out of context"
    );
    assert_eq!(
        RegisterError::ConsumerOutOfContext(notes).message(),
        "Called 'register_notifications_consumer' out of context"
    );
    assert_eq!(
        RegisterError::BadPrefix(stream).message(),
        "Second argument to 'register_stream_consumer' must be a String or ArrayBuffer representing the prefix"
    );
    assert_eq!(
        RegisterError::BadPrefix(notes).message(),
        "Second argument to 'register_notifications_consumer' must be a string or ArrayBuffer representing the prefix"
    );
    assert_eq!(
        RegisterError::FunctionNotAFunction.message(),
        "Second argument to 'register_function' must be a function"
    );
    assert_eq!(
        RegisterError::Flags("unknown flag".to_string()).message(),
        "Failed parsing function flags, unknown flag"
    );
    assert_eq!(
        RegisterError::FunctionOutOfContext.message(),
        "Called 'register_function' out of context"
    );
    assert_eq!(
        RegisterError::RemoteNotAFunction.message(),
        "Second argument to 'register_remote_function' must be a function"
    );
    assert_eq!(RegisterError::RemoteNotAsync.message(), "Remote function must be async");
    assert_eq!(
        RegisterError::RemoteOutOfContext.message(),
        "Called 'register_remote_function' out of context"
    );
    assert_eq!(RegisterError::Uninitialized.message(), "Use of uninitialized script context");
}

#[test]
fn promise_executor_must_be_a_plain_function() {
    assert_eq!(
        check_promise_executor(CallbackKind::NotCallable, true),
        Err(PromiseError::BadExecutor)
    );
    assert_eq!(
        check_promise_executor(CallbackKind::AsyncFunction, true),
        Err(PromiseError::BadExecutor)
    );
    assert_eq!(
        check_promise_executor(CallbackKind::Function, false),
        Err(PromiseError::Uninitialized)
    );
    assert_eq!(check_promise_executor(CallbackKind::Function, true), Ok(()));
    assert_eq!(PromiseError::BadExecutor.message(), "Bad argument to 'Promise' function");
    assert_eq!(PromiseError::Uninitialized.message(), "Use of uninitialized script context");
    assert_eq!(PromiseError::LibraryDeleted.message(), "Library was deleted");
}

#[test]
fn config_is_parsed_once_or_empty() {
    assert_eq!(initial_config::<u8>(None), Ok(None));
    assert_eq!(initial_config(Some(Ok(5u8))), Ok(Some(5)));
    assert_eq!(
        initial_config::<u8>(Some(Err("SyntaxError: bad json".to_string()))),
        Err("SyntaxError: bad json".to_string())
    );
}

#[test]
fn remote_task_needs_script_and_function() {
    assert_eq!(task_entry(false, false), Err(TaskError::UninitializedScript));
    assert_eq!(task_entry(false, true), Err(TaskError::UninitializedScript));
    assert_eq!(task_entry(true, false), Err(TaskError::UninitializedFunction));
    assert_eq!(task_entry(true, true), Ok(()));
    assert_eq!(
        TaskError::UninitializedScript.message(),
        "Use of uninitialized script context"
    );
    assert_eq!(
        TaskError::UninitializedFunction.message(),
        "Use of uninitialized function context"
    );
    assert_eq!(
        TaskError::ArgumentDeserialization.message(),
        "Failed deserializing remote function argument"
    );
}

#[test]
fn remote_task_arguments_decode_in_order() {
    assert_eq!(
        task_arguments(vec![Decoded::Parsed(1u8), Decoded::Buffer(vec![2]), Decoded::Parsed(3)]),
        Ok(vec![Resolved::Value(1), Resolved::Buffer(vec![2]), Resolved::Value(3)])
    );
    assert_eq!(task_arguments::<u8>(vec![]), Ok(vec![]));
    assert_eq!(
        task_arguments(vec![Decoded::Parsed(1u8), Decoded::Malformed("{".to_string())]),
        Err(TaskError::ArgumentDeserialization)
    );
}

#[test]
fn remote_task_replies() {
    let value = RemoteCallArgument::Text("1".to_string());
    assert_eq!(
        task_reply(TaskOutcome::Threw("TypeError: x".to_string())),
        Some(Err("TypeError: x".to_string()))
    );
    assert_eq!(
        task_reply(TaskOutcome::Plain(Some(RemoteCallArgument::Binary(vec![1])))),
        Some(Ok(RemoteCallArgument::Binary(vec![1])))
    );
    assert_eq!(
        task_reply(TaskOutcome::Plain(None)),
        Some(Err("Failed serializing result".to_string()))
    );
    assert_eq!(
        task_reply(TaskOutcome::Fulfilled(Ok(RemoteCallArgument::Text("1".to_string())))),
        Some(Ok(value))
    );
    assert_eq!(
        task_reply(TaskOutcome::Fulfilled(Err("cyclic object value".to_string()))),
        Some(Err("Failed serializing result, cyclic object value.".to_string()))
    );
    assert_eq!(
        task_reply(TaskOutcome::Rejected("nope".to_string())),
        Some(Err("nope".to_string()))
    );
    assert_eq!(task_reply(TaskOutcome::Pending), None);
}

#[test]
fn settled_promise_replies() {
    assert_eq!(
        settled_reply(Ok(Ok(RemoteCallArgument::Binary(vec![4])))),
        Ok(RemoteCallArgument::Binary(vec![4]))
    );
    assert_eq!(
        settled_reply(Ok(Err("BigInt".to_string()))),
        Err("Failed serializing result, BigInt.".to_string())
    );
    assert_eq!(settled_reply(Err("rejected".to_string())), Err("rejected".to_string()));
}

#[test]
fn reply_is_sent_once() {
    let mut once = ReplyOnce::new(5u8);
    assert_eq!(once.take(), Some(5));
    assert_eq!(once.take(), None);
    assert_eq!(once.take(), None);
}
