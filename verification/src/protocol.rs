//! The vocabulary that a transport and its owner speak.
//!
//! An operation is a short conversation. The owner opens it with
//! [`Event::Start`] and receives a [`Step`]. Unless the step ends the
//! operation, the owner performs the platform call that the step names and
//! hands the outcome to the same operation as the next event.
use vstd::prelude::*;

use crate::endpoint::Endpoint;
use crate::error::IoError;
use crate::retrying_tcp_stream::TcpStreamSettings;

verus! {

/// Whether a value is there yet.
#[derive(Debug, PartialEq, Eq)]
pub enum Async<T> {
    /// The value is there.
    Ready(T),
    /// Nothing yet: ask again on the next readiness notification.
    NotReady,
}

/// What the owner of a transport observed on the platform.
#[derive(Debug, PartialEq, Eq)]
pub enum Event<T> {
    /// Nothing yet: the operation begins.
    Start,
    /// The pending connection attempt was polled: it is still pending, it
    /// yielded a live stream, or it failed.
    AttemptPolled(Result<Async<()>, IoError>),
    /// The settings were handed to the live stream, which took or refused them.
    SettingsApplied(Result<(), IoError>),
    /// The operation itself was carried out on the backend.
    Delegated(Result<T, IoError>),
}

/// What the owner of a transport has to do next.
#[derive(Debug, PartialEq, Eq)]
pub enum Step<T> {
    /// Poll the pending connection attempt and report
    /// [`Event::AttemptPolled`].
    PollAttempt,
    /// The attempt yielded a live stream, or new settings were requested on
    /// one: hand these settings to the live stream and report
    /// [`Event::SettingsApplied`].
    ApplySettings(TcpStreamSettings),
    /// Carry out the operation on the backend and report
    /// [`Event::Delegated`].
    Delegate,
    /// The connection was given up. Drop the stream or attempt at hand, start
    /// a fresh attempt toward the address, then return the result to the
    /// caller.
    Reconnect(Endpoint, Result<T, IoError>),
    /// The operation is over: return the result to the caller.
    Done(Result<T, IoError>),
}

/// How far a transport is from a live stream.
#[derive(Debug, PartialEq, Eq)]
pub enum Drive {
    /// A live stream is there.
    Ready,
    /// The pending attempt has not resolved yet.
    NotReady,
    /// The pending attempt has to be polled first.
    PollAttempt,
    /// The attempt just yielded a live stream, which has to be given the
    /// settings.
    ApplySettings(TcpStreamSettings),
    /// The live stream refused the settings.
    Refused(IoError),
    /// The pending attempt failed, and a fresh one toward the address has to
    /// be started.
    Reconnect(Endpoint, IoError),
}

impl<T> Step<T> {
    /// The result that this step hands to the caller, if it ends the operation.
    pub open spec fn outcome(self) -> Option<Result<T, IoError>> {
        match self {
            Step::Reconnect(_, res) => Some(res),
            Step::Done(res) => Some(res),
            _ => None,
        }
    }

    /// Whether this step hands the caller the not-ready signal in the form of
    /// a failure of kind `WouldBlock`.
    pub open spec fn blocked(self) -> bool {
        self.outcome() matches Some(Err(e)) && e.would_block()
    }
}

impl<T> Step<Async<T>> {
    /// Whether this step hands the caller the not-ready signal in either of
    /// its forms.
    pub open spec fn not_ready(self) -> bool {
        self.outcome() == Some(Ok::<Async<T>, IoError>(Async::NotReady)) || self.blocked()
    }
}

impl<T> Event<T> {
    /// The step that answers this event on a backend without state of its
    /// own: the backend's answer is the result, and anything else asks for the
    /// operation to be carried out.
    pub open spec fn forwarded(self) -> Step<T> {
        match self {
            Event::Delegated(res) => Step::Done(res),
            _ => Step::Delegate,
        }
    }

    /// Answers an event on a backend without state of its own.
    pub fn forward(self) -> (step: Step<T>)
        ensures
            step == self.forwarded(),
    {
        match self {
            Event::Delegated(res) => Step::Done(res),
            _ => Step::Delegate,
        }
    }
}

/// A result in which the not-ready signal is no failure: an error of kind
/// `WouldBlock` becomes `NotReady`, everything else stays as it is.
pub open spec fn softened<T>(res: Result<Async<T>, IoError>) -> Result<Async<T>, IoError> {
    match res {
        Err(e) => if e.would_block() {
            Ok(Async::NotReady)
        } else {
            res
        },
        Ok(_) => res,
    }
}

impl<T> Step<Async<T>> {
    /// This step with the result that reaches the caller softened.
    pub open spec fn softened(self) -> Step<Async<T>> {
        match self {
            Step::Reconnect(addr, res) => Step::Reconnect(addr, self::softened(res)),
            Step::Done(res) => Step::Done(self::softened(res)),
            _ => self,
        }
    }

    /// Turns a not-ready failure that would reach the caller into `NotReady`.
    pub fn soften(self) -> (step: Step<Async<T>>)
        ensures
            step == self.softened(),
    {
        match self {
            Step::Reconnect(addr, res) => Step::Reconnect(addr, soften(res)),
            Step::Done(res) => Step::Done(soften(res)),
            other => other,
        }
    }
}

/// Turns a not-ready failure into `NotReady`.
pub fn soften<T>(res: Result<Async<T>, IoError>) -> (out: Result<Async<T>, IoError>)
    ensures
        out == softened(res),
{
    match res {
        Err(e) => if e.is_would_block() {
            Ok(Async::NotReady)
        } else {
            Err(e)
        },
        Ok(v) => Ok(v),
    }
}

} // verus!
