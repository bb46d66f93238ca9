//! One transport over three interchangeable backends.
//!
//! The union adds nothing of its own: no buffer, no retry, no rewriting of
//! results. Each operation is answered by the backend in use. A plain stream
//! and a serial device have no state here, so their answer is to carry the
//! operation out and to return what came back; the reconnecting stream
//! answers as its state machine says.
use vstd::prelude::*;
use vstd::std_specs::convert::FromSpecImpl;

use crate::error::IoError;
use crate::protocol::{Async, Event, Step};
use crate::retrying_tcp_stream::RetryingTcpStream;
use crate::transport::Transport;

verus! {

/// A transport that is a plain network stream, a reconnecting network stream
/// or a serial device.
#[derive(Debug)]
pub enum UniConnect {
    /// A plain network stream.
    TcpStream,
    /// A network stream that reconnects after a failure.
    RetringTcpStream(RetryingTcpStream),
    /// A serial device.
    Serial,
}

/// The mathematical value behind a [`UniConnect`].
pub enum Backend {
    TcpStream,
    RetringTcpStream(Transport),
    Serial,
}

impl View for UniConnect {
    type V = Backend;

    open spec fn view(&self) -> Backend {
        match self {
            UniConnect::TcpStream => Backend::TcpStream,
            UniConnect::RetringTcpStream(inner) => Backend::RetringTcpStream(inner@),
            UniConnect::Serial => Backend::Serial,
        }
    }
}

impl Backend {
    /// Reading, writing and flushing on the backend in use.
    pub open spec fn transfer<T>(self, event: Event<T>) -> (Backend, Step<T>) {
        match self {
            Backend::RetringTcpStream(t) => (
                Backend::RetringTcpStream(t.transfer(event).0),
                t.transfer(event).1,
            ),
            _ => (self, event.forwarded()),
        }
    }

    /// Polled reading, writing and flushing on the backend in use.
    pub open spec fn poll_io<T>(self, event: Event<Async<T>>) -> (Backend, Step<Async<T>>) {
        match self {
            Backend::RetringTcpStream(t) => (
                Backend::RetringTcpStream(t.poll_io(event).0),
                t.poll_io(event).1,
            ),
            _ => (self, event.forwarded()),
        }
    }

    /// Shutting the backend in use down.
    pub open spec fn shutdown(self, event: Event<Async<()>>) -> Step<Async<()>> {
        match self {
            Backend::RetringTcpStream(t) => t.shutdown(event),
            _ => event.forwarded(),
        }
    }
}

impl UniConnect {
    /// Reads from the backend in use.
    pub fn read(&mut self, event: Event<usize>) -> (step: Step<usize>)
        ensures
            (final(self)@, step) == old(self)@.transfer(event),
    {
        match self {
            UniConnect::TcpStream => event.forward(),
            UniConnect::RetringTcpStream(inner) => inner.read(event),
            UniConnect::Serial => event.forward(),
        }
    }

    /// Writes to the backend in use.
    pub fn write(&mut self, event: Event<usize>) -> (step: Step<usize>)
        ensures
            (final(self)@, step) == old(self)@.transfer(event),
    {
        match self {
            UniConnect::TcpStream => event.forward(),
            UniConnect::RetringTcpStream(inner) => inner.write(event),
            UniConnect::Serial => event.forward(),
        }
    }

    /// Flushes the backend in use.
    pub fn flush(&mut self, event: Event<()>) -> (step: Step<()>)
        ensures
            (final(self)@, step) == old(self)@.transfer(event),
    {
        match self {
            UniConnect::TcpStream => event.forward(),
            UniConnect::RetringTcpStream(inner) => inner.flush(event),
            UniConnect::Serial => event.forward(),
        }
    }

    /// Shuts the backend in use down.
    pub fn shutdown(&self, event: Event<Async<()>>) -> (step: Step<Async<()>>)
        ensures
            step == self@.shutdown(event),
    {
        match self {
            UniConnect::TcpStream => event.forward(),
            UniConnect::RetringTcpStream(inner) => inner.shutdown(event),
            UniConnect::Serial => event.forward(),
        }
    }

    /// Writes to the backend in use, in the polled form.
    pub fn poll_write(&mut self, event: Event<Async<usize>>) -> (step: Step<Async<usize>>)
        ensures
            (final(self)@, step) == old(self)@.poll_io(event),
    {
        match self {
            UniConnect::TcpStream => event.forward(),
            UniConnect::RetringTcpStream(inner) => inner.poll_write(event),
            UniConnect::Serial => event.forward(),
        }
    }

    /// Flushes the backend in use, in the polled form.
    pub fn poll_flush(&mut self, event: Event<Async<()>>) -> (step: Step<Async<()>>)
        ensures
            (final(self)@, step) == old(self)@.poll_io(event),
    {
        match self {
            UniConnect::TcpStream => event.forward(),
            UniConnect::RetringTcpStream(inner) => inner.poll_flush(event),
            UniConnect::Serial => event.forward(),
        }
    }

    /// Reads from the backend in use, in the polled form.
    pub fn poll_read(&mut self, event: Event<Async<usize>>) -> (step: Step<Async<usize>>)
        ensures
            (final(self)@, step) == old(self)@.poll_io(event),
    {
        match self {
            UniConnect::TcpStream => event.forward(),
            UniConnect::RetringTcpStream(inner) => inner.poll_read(event),
            UniConnect::Serial => event.forward(),
        }
    }
}

impl From<RetryingTcpStream> for UniConnect {
    fn from(stream: RetryingTcpStream) -> (union: UniConnect) {
        UniConnect::RetringTcpStream(stream)
    }
}

impl FromSpecImpl<RetryingTcpStream> for UniConnect {
    open spec fn obeys_from_spec() -> bool {
        true
    }

    open spec fn from_spec(stream: RetryingTcpStream) -> UniConnect {
        UniConnect::RetringTcpStream(stream)
    }
}

/// A backend without state of its own passes everything through: to begin an
/// operation is to carry it out on the backend, the backend's answer reaches
/// the caller as it is, and the union stays what it was.
pub proof fn lemma_plain_backend_passes_through<T>(
    backend: Backend,
    res: Result<T, IoError>,
    polled: Result<Async<T>, IoError>,
    closed: Result<Async<()>, IoError>,
)
    requires
        backend is TcpStream || backend is Serial,
    ensures
        backend.transfer(Event::<T>::Start) == (backend, Step::<T>::Delegate),
        backend.transfer(Event::Delegated(res)) == (backend, Step::Done(res)),
        backend.poll_io(Event::<Async<T>>::Start) == (backend, Step::<Async<T>>::Delegate),
        backend.poll_io(Event::Delegated(polled)) == (backend, Step::Done(polled)),
        backend.shutdown(Event::Start) == Step::<Async<()>>::Delegate,
        backend.shutdown(Event::Delegated(closed)) == Step::Done(closed),
{
}

} // verus!
