//! What the bridge reads of the guest values that are handed to it: a small
//! closed set of shapes, looked at once where the value comes in.

use crate::text::owned;
use vstd::prelude::*;
use vstd::utf8::encode_utf8;

verus! {

/// What kind of callable a guest value is.
#[derive(Clone, Copy, Debug, PartialEq, Eq, Structural)]
pub enum CallbackKind {
    /// Not a function.
    NotCallable,
    /// A function that is not async.
    Function,
    /// An async function.
    AsyncFunction,
}

impl CallbackKind {
    /// Whether the value is a function, async or not.
    pub open spec fn callable(self) -> bool {
        self != CallbackKind::NotCallable
    }

    /// Whether the value is a function, async or not.
    pub fn is_function(&self) -> (r: bool)
        ensures
            r == self.callable(),
    {
        match self {
            CallbackKind::NotCallable => false,
            _ => true,
        }
    }

    /// Whether the value is an async function.
    pub fn is_async_function(&self) -> (r: bool)
        ensures
            r == (*self == CallbackKind::AsyncFunction),
    {
        match self {
            CallbackKind::AsyncFunction => true,
            _ => false,
        }
    }
}

/// A guest value where bytes are expected: a string or a string object,
/// each with its UTF-8 text if it has one, a binary buffer, or anything else.
#[derive(Debug, PartialEq, Eq)]
pub enum GuestArg {
    Str(Option<String>),
    StrObject(Option<String>),
    Buffer(Vec<u8>),
    Other,
}

impl GuestArg {
    /// The text of a string or string object that has one.
    pub open spec fn text(self) -> Option<String> {
        match self {
            GuestArg::Str(text) => text,
            GuestArg::StrObject(text) => text,
            _ => None,
        }
    }
}

/// An argument of a host command: text or a binary buffer.
#[derive(Debug, PartialEq, Eq)]
pub enum CallArg {
    Utf8(String),
    ArrBuff(Vec<u8>),
}

/// Why a guest value is no argument of a host command.
#[derive(Clone, Copy, Debug, PartialEq, Eq, Structural)]
pub enum ArgError {
    /// The value is neither text nor a buffer, or its text cannot be read.
    NotBytes,
    /// There is no value: too few arguments were given.
    Missing,
}

impl ArgError {
    /// The text of the exception that the guest sees.
    pub open spec fn message_model(self) -> Seq<char> {
        match self {
            ArgError::NotBytes => "Can not convert value into bytes buffer"@,
            ArgError::Missing => "Wrong number of arguments."@,
        }
    }

    /// The text of the exception that the guest sees.
    pub fn message(&self) -> (text: String)
        ensures
            text@ == self.message_model(),
    {
        match self {
            ArgError::NotBytes => owned("Can not convert value into bytes buffer"),
            ArgError::Missing => owned("Wrong number of arguments."),
        }
    }
}

impl CallArg {
    /// The bytes that go to the host: the UTF-8 encoding of text, or the
    /// content of a buffer.
    pub open spec fn bytes(self) -> Seq<u8> {
        match self {
            CallArg::Utf8(text) => encode_utf8(text@),
            CallArg::ArrBuff(bytes) => bytes@,
        }
    }

    /// The bytes that go to the host.
    pub fn as_bytes(&self) -> (bytes: &[u8])
        ensures
            bytes@ == self.bytes(),
    {
        match self {
            CallArg::Utf8(text) => text.as_str().as_bytes(),
            CallArg::ArrBuff(bytes) => bytes.as_slice(),
        }
    }

    /// Reads a guest value as an argument of a host command: the text of a
    /// string or string object, or the content of a buffer.
    pub fn try_from(value: GuestArg) -> (r: Result<CallArg, ArgError>)
        ensures
            match r {
                Ok(CallArg::Utf8(text)) => value.text() == Some(text),
                Ok(CallArg::ArrBuff(bytes)) => value == GuestArg::Buffer(bytes),
                Err(e) => e == ArgError::NotBytes && value.text() is None && !(value is Buffer),
            },
    {
        match value {
            GuestArg::Str(Some(text)) => Ok(CallArg::Utf8(text)),
            GuestArg::StrObject(Some(text)) => Ok(CallArg::Utf8(text)),
            GuestArg::Buffer(bytes) => Ok(CallArg::ArrBuff(bytes)),
            _ => Err(ArgError::NotBytes),
        }
    }

    /// Reads the next of the values handed to a native function, if there
    /// is one, as an argument of a host command.
    pub fn try_from_next(next: Option<GuestArg>) -> (r: Result<CallArg, ArgError>)
        ensures
            match r {
                Ok(CallArg::Utf8(text)) => next matches Some(value) && value.text() == Some(text),
                Ok(CallArg::ArrBuff(bytes)) => next == Some(GuestArg::Buffer(bytes)),
                Err(ArgError::Missing) => next is None,
                Err(ArgError::NotBytes) => next matches Some(value) && value.text() is None && !(
                value is Buffer),
            },
    {
        match next {
            None => Err(ArgError::Missing),
            Some(value) => CallArg::try_from(value),
        }
    }
}

} // verus!
