//! A network stream that re-establishes itself after a failure.
//!
//! The transport holds no socket. It knows the address it was made for, the
//! settings its owner asked for last, and whether a connection attempt is
//! pending or a stream is live. Its owner performs the platform calls and
//! reports each outcome; every operation here takes such a report and answers
//! with the step to perform next.
//!
//! After a failure the transport starts over at once: there is no delay, no
//! backoff and no limit on the number of attempts. How often a new attempt is
//! made is decided by how often the owner calls.
//!
//! Two choices are worth knowing. When a fresh stream refuses the settings,
//! the operation that found the stream fails with that refusal, but the stream
//! is kept: the transport stays connected with settings that the stream may
//! not have, and the next operation goes ahead on it. To give the stream up
//! instead would turn a stream that works into an endless reconnection where
//! the platform refuses the flag for good. And a shutdown while an attempt is
//! pending is answered with a failure of kind `NotConnected`; the attempt is
//! not cancelled.
use vstd::prelude::*;

use crate::endpoint::Endpoint;
use crate::error::{ErrorKind, IoError};
use crate::protocol::{Async, Drive, Event, Step};
use crate::transport::Transport;

verus! {

/// The settings of a stream that outlive a reconnection.
#[derive(Clone, Copy, Debug, PartialEq, Eq)]
pub struct TcpStreamSettings {
    /// Send small writes at once instead of collecting them.
    pub nodelay: bool,
}

impl Default for TcpStreamSettings {
    fn default() -> (settings: TcpStreamSettings)
        ensures
            settings == (TcpStreamSettings { nodelay: false }),
    {
        TcpStreamSettings { nodelay: false }
    }
}

/// Whether a connection attempt is pending or a stream is live.
#[derive(Clone, Copy, Debug, PartialEq, Eq)]
pub enum ConnectionState {
    /// A connection attempt is in flight and has not resolved.
    Connecting,
    /// A stream is open and usable.
    Connected,
}

/// A network stream that reconnects to its address after every failure and
/// gives each new stream the settings that were asked for last.
#[derive(Debug)]
pub struct RetryingTcpStream {
    addr: Endpoint,
    settings: TcpStreamSettings,
    state: ConnectionState,
}

impl View for RetryingTcpStream {
    type V = Transport;

    closed spec fn view(&self) -> Transport {
        Transport { addr: self.addr, settings: self.settings, state: self.state }
    }
}

impl RetryingTcpStream {
    /// A transport toward `addr` with the given settings. The first attempt is
    /// pending; nothing is known yet about whether `addr` can be reached.
    pub fn connect_with_settings(addr: &Endpoint, settings: TcpStreamSettings) -> (stream: Self)
        ensures
            stream@ == (Transport { addr: *addr, settings, state: ConnectionState::Connecting }),
    {
        RetryingTcpStream { addr: *addr, settings, state: ConnectionState::Connecting }
    }

    /// A transport toward `addr` with the default settings.
    pub fn connect(addr: &Endpoint) -> (stream: Self)
        ensures
            stream@ == (Transport {
                addr: *addr,
                settings: TcpStreamSettings { nodelay: false },
                state: ConnectionState::Connecting,
            }),
    {
        Self::connect_with_settings(addr, TcpStreamSettings::default())
    }

    /// A transport around a stream that is already open: `nodelay` is the flag
    /// read from that stream and `peer` the address of its remote side, to
    /// which the transport will reconnect.
    pub fn from_std(nodelay: bool, peer: Endpoint) -> (stream: Self)
        ensures
            stream@ == (Transport {
                addr: peer,
                settings: TcpStreamSettings { nodelay },
                state: ConnectionState::Connected,
            }),
    {
        RetryingTcpStream {
            addr: peer,
            settings: TcpStreamSettings { nodelay },
            state: ConnectionState::Connected,
        }
    }

    /// The address this transport was made for.
    pub fn addr(&self) -> (addr: Endpoint)
        ensures
            addr == self@.addr,
    {
        self.addr
    }

    /// The settings that were asked for last.
    pub fn settings(&self) -> (settings: TcpStreamSettings)
        ensures
            settings == self@.settings,
    {
        self.settings
    }

    /// Whether an attempt is pending or a stream is live.
    pub fn state(&self) -> (state: ConnectionState)
        ensures
            state == self@.state,
    {
        self.state
    }

    /// Gives the connection up for a fresh attempt and returns the address
    /// toward which that attempt has to be started.
    pub fn reset(&mut self) -> (target: Endpoint)
        ensures
            final(self)@ == old(self)@.reset(),
            target == old(self)@.addr,
    {
        self.state = ConnectionState::Connecting;
        self.addr
    }

    /// Drives the transport toward a live stream.
    pub fn poll_into_tcp_stream<T>(&mut self, event: &Event<T>) -> (drive: Drive)
        ensures
            (final(self)@, drive) == old(self)@.drive(*event),
    {
        match self.state {
            ConnectionState::Connecting => match event {
                Event::AttemptPolled(Ok(Async::NotReady)) => Drive::NotReady,
                Event::AttemptPolled(Ok(Async::Ready(_))) => {
                    self.state = ConnectionState::Connected;
                    Drive::ApplySettings(self.settings)
                },
                Event::AttemptPolled(Err(e)) => {
                    let target = self.reset();
                    Drive::Reconnect(target, *e)
                },
                _ => Drive::PollAttempt,
            },
            ConnectionState::Connected => match event {
                Event::SettingsApplied(Err(e)) => Drive::Refused(*e),
                _ => Drive::Ready,
            },
        }
    }

    /// Takes the answer of the live stream to a delegated operation and gives
    /// the connection up unless the answer is a success or the not-ready
    /// signal.
    pub fn call_reset_if_io_is_closed2<T>(&mut self, res: Result<T, IoError>) -> (step: Step<T>)
        ensures
            (final(self)@, step) == old(self)@.finish(res),
    {
        match res {
            Ok(value) => Step::Done(Ok(value)),
            Err(e) => if e.is_would_block() {
                Step::Done(Err(e))
            } else {
                let target = self.reset();
                Step::Reconnect(target, Err(e))
            },
        }
    }

    fn answer<T>(&mut self, event: Event<T>, pending: Result<T, IoError>) -> (step: Step<T>)
        ensures
            (final(self)@, step) == old(self)@.answer(event, pending),
    {
        match self.poll_into_tcp_stream(&event) {
            Drive::Ready => match event {
                Event::Delegated(res) => self.call_reset_if_io_is_closed2(res),
                _ => Step::Delegate,
            },
            Drive::NotReady => Step::Done(pending),
            Drive::PollAttempt => Step::PollAttempt,
            Drive::ApplySettings(settings) => Step::ApplySettings(settings),
            Drive::Refused(e) => Step::Done(Err(e)),
            Drive::Reconnect(target, e) => Step::Reconnect(target, Err(e)),
        }
    }

    /// Reads from the live stream, once there is one.
    pub fn read(&mut self, event: Event<usize>) -> (step: Step<usize>)
        ensures
            (final(self)@, step) == old(self)@.transfer(event),
    {
        self.answer(event, Err(IoError::new(ErrorKind::WouldBlock)))
    }

    /// Writes to the live stream, once there is one.
    pub fn write(&mut self, event: Event<usize>) -> (step: Step<usize>)
        ensures
            (final(self)@, step) == old(self)@.transfer(event),
    {
        self.answer(event, Err(IoError::new(ErrorKind::WouldBlock)))
    }

    /// Flushes the live stream, once there is one.
    pub fn flush(&mut self, event: Event<()>) -> (step: Step<()>)
        ensures
            (final(self)@, step) == old(self)@.transfer(event),
    {
        self.answer(event, Err(IoError::new(ErrorKind::WouldBlock)))
    }

    /// Asks whether the live stream can be read without blocking. `R` is the
    /// readiness that the stream reports.
    pub fn poll_read_ready<R>(&mut self, event: Event<Async<R>>) -> (step: Step<Async<R>>)
        ensures
            (final(self)@, step) == old(self)@.poll(event),
    {
        self.answer(event, Ok(Async::NotReady))
    }

    /// Asks whether the live stream can be written without blocking. `R` is
    /// the readiness that the stream reports.
    pub fn poll_write_ready<R>(&mut self, event: Event<Async<R>>) -> (step: Step<Async<R>>)
        ensures
            (final(self)@, step) == old(self)@.poll(event),
    {
        self.answer(event, Ok(Async::NotReady))
    }

    /// Reads in the polled form, where not ready is no failure.
    pub fn poll_read(&mut self, event: Event<Async<usize>>) -> (step: Step<Async<usize>>)
        ensures
            (final(self)@, step) == old(self)@.poll_io(event),
    {
        self.answer(event, Ok(Async::NotReady)).soften()
    }

    /// Writes in the polled form, where not ready is no failure.
    pub fn poll_write(&mut self, event: Event<Async<usize>>) -> (step: Step<Async<usize>>)
        ensures
            (final(self)@, step) == old(self)@.poll_io(event),
    {
        self.answer(event, Ok(Async::NotReady)).soften()
    }

    /// Flushes in the polled form, where not ready is no failure.
    pub fn poll_flush(&mut self, event: Event<Async<()>>) -> (step: Step<Async<()>>)
        ensures
            (final(self)@, step) == old(self)@.poll_io(event),
    {
        self.answer(event, Ok(Async::NotReady)).soften()
    }

    /// The local address of the live stream. While an attempt is pending
    /// there is none, and the answer is a failure of kind `NotConnected`.
    pub fn local_addr(&self, event: Event<Endpoint>) -> (step: Step<Endpoint>)
        ensures
            step == self@.local_addr(event),
    {
        match self.state {
            ConnectionState::Connecting => Step::Done(Err(IoError::new(ErrorKind::NotConnected))),
            ConnectionState::Connected => event.forward(),
        }
    }

    /// The address of the remote side: what the live stream reports, or,
    /// while an attempt is pending, the address the transport was made for.
    pub fn peer_addr(&self, event: Event<Endpoint>) -> (step: Step<Endpoint>)
        ensures
            step == self@.peer_addr(event),
    {
        match self.state {
            ConnectionState::Connecting => Step::Done(Ok(self.addr)),
            ConnectionState::Connected => event.forward(),
        }
    }

    /// Shuts the live stream down. While an attempt is pending there is
    /// nothing to shut down: the answer is a failure of kind `NotConnected`,
    /// and the attempt goes on.
    pub fn shutdown(&self, event: Event<Async<()>>) -> (step: Step<Async<()>>)
        ensures
            step == self@.shutdown(event),
    {
        match self.state {
            ConnectionState::Connecting => Step::Done(Err(IoError::new(ErrorKind::NotConnected))),
            ConnectionState::Connected => event.forward(),
        }
    }

    /// Switches low latency on or off. While an attempt is pending the flag is
    /// stored and applied once a stream is there. With a live stream the flag
    /// is stored only after the stream took it.
    pub fn set_nodelay(&mut self, nodelay: bool, event: Event<()>) -> (step: Step<()>)
        ensures
            (final(self)@, step) == old(self)@.set_nodelay(nodelay, event),
    {
        match self.state {
            ConnectionState::Connecting => {
                self.settings.nodelay = nodelay;
                Step::Done(Ok(()))
            },
            ConnectionState::Connected => match event {
                Event::SettingsApplied(Ok(_)) => {
                    self.settings.nodelay = nodelay;
                    Step::Done(Ok(()))
                },
                Event::SettingsApplied(Err(e)) => Step::Done(Err(e)),
                _ => Step::ApplySettings(TcpStreamSettings { nodelay }),
            },
        }
    }

    /// Replaces the settings, under the same rule as
    /// [`RetryingTcpStream::set_nodelay`].
    pub fn set_tcp_settings(&mut self, tcp_settings: TcpStreamSettings, event: Event<()>) -> (step:
        Step<()>)
        ensures
            (final(self)@, step) == old(self)@.set_tcp_settings(tcp_settings, event),
    {
        let step = self.set_nodelay(tcp_settings.nodelay, event);
        if let Step::Done(Ok(_)) = step {
            self.settings = tcp_settings;
        }
        step
    }
}

} // verus!
