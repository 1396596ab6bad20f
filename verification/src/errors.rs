//! The error taxonomy shared by the dispatcher, the caller and the engine
//! lifecycle.  No error here triggers a retry anywhere in the engine.

use vstd::prelude::*;

verus! {

/// Why a unary dispatch failed.
#[derive(Debug)]
pub enum DispatchError {
    /// The call body was not a well-formed parameter list.
    Decode,
    /// No handler is registered under the identifier.
    HandlerNotFound,
    /// The handler reported a failure with this message.
    Handler(String),
    /// The handler's output was not the text of one JSON value.
    Encode,
}

pub enum DispatchErrorModel {
    Decode,
    HandlerNotFound,
    Handler(Seq<char>),
    Encode,
}

impl View for DispatchError {
    type V = DispatchErrorModel;

    open spec fn view(&self) -> DispatchErrorModel {
        match self {
            DispatchError::Decode => DispatchErrorModel::Decode,
            DispatchError::HandlerNotFound => DispatchErrorModel::HandlerNotFound,
            DispatchError::Handler(msg) => DispatchErrorModel::Handler(msg@),
            DispatchError::Encode => DispatchErrorModel::Encode,
        }
    }
}

/// Why an outbound call failed.
#[derive(Debug)]
pub enum CallError {
    /// A parameter was not the text of one JSON value.
    Encode,
    /// The reply could not be decoded.
    Decode,
    /// A persistent-transport call was issued before a connection was bound.
    NotBound,
    /// The transport failed; the message is free-form.
    Transport(String),
    /// The peer explicitly reported a failure for this call.
    Remote(String),
}

pub enum CallErrorModel {
    Encode,
    Decode,
    NotBound,
    Transport(Seq<char>),
    Remote(Seq<char>),
}

impl View for CallError {
    type V = CallErrorModel;

    open spec fn view(&self) -> CallErrorModel {
        match self {
            CallError::Encode => CallErrorModel::Encode,
            CallError::Decode => CallErrorModel::Decode,
            CallError::NotBound => CallErrorModel::NotBound,
            CallError::Transport(msg) => CallErrorModel::Transport(msg@),
            CallError::Remote(msg) => CallErrorModel::Remote(msg@),
        }
    }
}

/// Lifecycle misuse of the engine.
#[derive(Debug)]
pub enum LifecycleError {
    /// The engine was asked to serve while it was already serving.
    AlreadyRunning,
    /// The engine was asked to stop while nothing was running.
    NotRunning,
}

impl LifecycleError {
    /// The message the embedding layer reports for this misuse.
    pub fn message(&self) -> (r: String)
        ensures
            self is AlreadyRunning ==> r@ == ("Server is already running")@,
            self is NotRunning ==> r@ == ("Server is not running")@,
    {
        match self {
            LifecycleError::AlreadyRunning => String::from_str("Server is already running"),
            LifecycleError::NotRunning => String::from_str("Server is not running"),
        }
    }
}

} // verus!
