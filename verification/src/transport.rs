//! What a reconnecting transport is, and how it answers every event.
//!
//! [`Transport`] is the mathematical value behind a
//! [`RetryingTcpStream`](crate::retrying_tcp_stream::RetryingTcpStream). The
//! functions here define, for each operation, the next state and the step that
//! answers an event. The executable operations are proved to compute exactly
//! these, and the lemmas at the end state what follows for every run.
use vstd::prelude::*;

use crate::endpoint::Endpoint;
use crate::error::{ErrorKind, IoError};
use crate::protocol::{Async, Drive, Event, Step};
use crate::retrying_tcp_stream::{ConnectionState, TcpStreamSettings};

verus! {

/// A reconnecting transport: the address it was made for, the settings its
/// owner asked for last, and whether it holds a pending attempt or a live
/// stream.
pub struct Transport {
    pub addr: Endpoint,
    pub settings: TcpStreamSettings,
    pub state: ConnectionState,
}

impl Transport {
    /// The transport after the connection was given up: a fresh attempt toward
    /// the same address is pending, and the settings are kept.
    pub open spec fn reset(self) -> Transport {
        Transport { state: ConnectionState::Connecting, ..self }
    }

    /// The transport after the pending attempt yielded a live stream.
    pub open spec fn established(self) -> Transport {
        Transport { state: ConnectionState::Connected, ..self }
    }

    /// The transport with other settings.
    pub open spec fn with_settings(self, settings: TcpStreamSettings) -> Transport {
        Transport { settings, ..self }
    }

    /// Driving toward a live stream.
    ///
    /// While an attempt is pending, only a report on that attempt moves the
    /// transport: still pending changes nothing, a live stream is adopted and
    /// has to be given the settings, a failure gives the attempt up for a
    /// fresh one. With a live stream, a refusal of the settings reaches the
    /// caller and changes nothing; anything else finds the stream ready.
    pub open spec fn drive<T>(self, event: Event<T>) -> (Transport, Drive) {
        match self.state {
            ConnectionState::Connecting => match event {
                Event::AttemptPolled(Ok(Async::NotReady)) => (self, Drive::NotReady),
                Event::AttemptPolled(Ok(Async::Ready(_))) => (
                    self.established(),
                    Drive::ApplySettings(self.settings),
                ),
                Event::AttemptPolled(Err(e)) => (self.reset(), Drive::Reconnect(self.addr, e)),
                _ => (self, Drive::PollAttempt),
            },
            ConnectionState::Connected => match event {
                Event::SettingsApplied(Err(e)) => (self, Drive::Refused(e)),
                _ => (self, Drive::Ready),
            },
        }
    }

    /// Taking the answer of the live stream to a delegated operation.
    ///
    /// Success and the not-ready signal reach the caller and change nothing.
    /// Any other failure reaches the caller too, and gives the connection up.
    pub open spec fn finish<T>(self, res: Result<T, IoError>) -> (Transport, Step<T>) {
        match res {
            Ok(_) => (self, Step::Done(res)),
            Err(e) => if e.would_block() {
                (self, Step::Done(res))
            } else {
                (self.reset(), Step::Reconnect(self.addr, res))
            },
        }
    }

    /// An operation that drives toward a live stream and then delegates.
    /// `pending` is what the caller gets while the attempt has not resolved.
    pub open spec fn answer<T>(self, event: Event<T>, pending: Result<T, IoError>) -> (
        Transport,
        Step<T>,
    ) {
        match self.state {
            ConnectionState::Connecting => match event {
                Event::AttemptPolled(Ok(Async::NotReady)) => (self, Step::Done(pending)),
                Event::AttemptPolled(Ok(Async::Ready(_))) => (
                    self.established(),
                    Step::ApplySettings(self.settings),
                ),
                Event::AttemptPolled(Err(e)) => (
                    self.reset(),
                    Step::Reconnect(self.addr, Err(e)),
                ),
                _ => (self, Step::PollAttempt),
            },
            ConnectionState::Connected => match event {
                Event::SettingsApplied(Err(e)) => (self, Step::Done(Err(e))),
                Event::Delegated(res) => self.finish(res),
                _ => (self, Step::Delegate),
            },
        }
    }

    /// Reading, writing and flushing: while the attempt is pending the caller
    /// gets a failure of kind `WouldBlock`.
    pub open spec fn transfer<T>(self, event: Event<T>) -> (Transport, Step<T>) {
        self.answer(event, Err(IoError::of(ErrorKind::WouldBlock)))
    }

    /// Readiness polling: while the attempt is pending the caller gets
    /// `NotReady`.
    pub open spec fn poll<T>(self, event: Event<Async<T>>) -> (Transport, Step<Async<T>>) {
        self.answer(event, Ok(Async::NotReady))
    }

    /// Polled reading, writing and flushing: as [`Transport::poll`], and a
    /// failure of kind `WouldBlock` reaches the caller as `NotReady`.
    pub open spec fn poll_io<T>(self, event: Event<Async<T>>) -> (Transport, Step<Async<T>>) {
        (self.poll(event).0, self.poll(event).1.softened())
    }

    /// The local address: unknown while an attempt is pending, else whatever
    /// the live stream answers.
    pub open spec fn local_addr(self, event: Event<Endpoint>) -> Step<Endpoint> {
        match self.state {
            ConnectionState::Connecting => Step::Done(
                Err(IoError::of(ErrorKind::NotConnected)),
            ),
            ConnectionState::Connected => event.forwarded(),
        }
    }

    /// The remote address: the address the transport was made for while an
    /// attempt is pending, else whatever the live stream answers.
    pub open spec fn peer_addr(self, event: Event<Endpoint>) -> Step<Endpoint> {
        match self.state {
            ConnectionState::Connecting => Step::Done(Ok(self.addr)),
            ConnectionState::Connected => event.forwarded(),
        }
    }

    /// Shutting down: refused as not connected while an attempt is pending,
    /// else whatever the live stream answers.
    pub open spec fn shutdown(self, event: Event<Async<()>>) -> Step<Async<()>> {
        match self.state {
            ConnectionState::Connecting => Step::Done(
                Err(IoError::of(ErrorKind::NotConnected)),
            ),
            ConnectionState::Connected => event.forwarded(),
        }
    }

    /// Asking for other settings.
    ///
    /// While an attempt is pending they are stored at once. With a live stream
    /// they are stored only after the stream took them; if it refused, the
    /// failure reaches the caller and the stored settings stay as they were.
    pub open spec fn set_tcp_settings(self, settings: TcpStreamSettings, event: Event<()>) -> (
        Transport,
        Step<()>,
    ) {
        match self.state {
            ConnectionState::Connecting => (self.with_settings(settings), Step::Done(Ok(()))),
            ConnectionState::Connected => match event {
                Event::SettingsApplied(Ok(_)) => (
                    self.with_settings(settings),
                    Step::Done(Ok(())),
                ),
                Event::SettingsApplied(Err(e)) => (self, Step::Done(Err(e))),
                _ => (self, Step::ApplySettings(settings)),
            },
        }
    }

    /// Asking for low latency to be switched on or off: as
    /// [`Transport::set_tcp_settings`] with settings made of that flag.
    pub open spec fn set_nodelay(self, nodelay: bool, event: Event<()>) -> (Transport, Step<()>) {
        self.set_tcp_settings(TcpStreamSettings { nodelay }, event)
    }

    /// Whether the event reports a failure that costs the connection: the
    /// pending attempt failed, or the live stream failed a delegated operation
    /// with anything but the not-ready signal.
    pub open spec fn lost_by<T>(self, event: Event<T>) -> bool {
        match self.state {
            ConnectionState::Connecting => event matches Event::AttemptPolled(Err(_)),
            ConnectionState::Connected => event matches Event::Delegated(Err(e))
                && !e.would_block(),
        }
    }
}

/// One call of an operation on a transport, with the event that it was given.
/// `R` is the readiness that the platform reports.
pub enum Call<R> {
    Read(Event<usize>),
    Write(Event<usize>),
    Flush(Event<()>),
    PollReadReady(Event<Async<R>>),
    PollWriteReady(Event<Async<R>>),
    PollRead(Event<Async<usize>>),
    PollWrite(Event<Async<usize>>),
    PollFlush(Event<Async<()>>),
    LocalAddr(Event<Endpoint>),
    PeerAddr(Event<Endpoint>),
    Shutdown(Event<Async<()>>),
    SetNodelay(bool, Event<()>),
    SetTcpSettings(TcpStreamSettings, Event<()>),
}

impl Transport {
    /// The transport after one call.
    pub open spec fn after_call<R>(self, call: Call<R>) -> Transport {
        match call {
            Call::Read(event) => self.transfer(event).0,
            Call::Write(event) => self.transfer(event).0,
            Call::Flush(event) => self.transfer(event).0,
            Call::PollReadReady(event) => self.poll(event).0,
            Call::PollWriteReady(event) => self.poll(event).0,
            Call::PollRead(event) => self.poll_io(event).0,
            Call::PollWrite(event) => self.poll_io(event).0,
            Call::PollFlush(event) => self.poll_io(event).0,
            Call::LocalAddr(_) => self,
            Call::PeerAddr(_) => self,
            Call::Shutdown(_) => self,
            Call::SetNodelay(nodelay, event) => self.set_nodelay(nodelay, event).0,
            Call::SetTcpSettings(settings, event) => self.set_tcp_settings(settings, event).0,
        }
    }

    /// The transport after a sequence of calls, the first call first.
    pub open spec fn after<R>(self, calls: Seq<Call<R>>) -> Transport
        decreases calls.len(),
    {
        if calls.len() == 0 {
            self
        } else {
            self.after(calls.drop_last()).after_call(calls.last())
        }
    }
}

/// At every moment a transport holds a pending attempt or a live stream:
/// never both, never neither.
pub proof fn lemma_exactly_one_state(t: Transport)
    ensures
        (t.state is Connecting) != (t.state is Connected),
{
}

/// Whatever is called on a transport, in whatever order and with whatever
/// events: it still holds a pending attempt or a live stream and never both,
/// its address is the one it was made for, and were the connection lost now,
/// the remote address it reports would be that one.
pub proof fn lemma_every_run_keeps_the_address<R>(
    t: Transport,
    calls: Seq<Call<R>>,
    query: Event<Endpoint>,
)
    ensures
        (t.after(calls).state is Connecting) != (t.after(calls).state is Connected),
        t.after(calls).addr == t.addr,
        t.after(calls).reset().peer_addr(query) == Step::Done(Ok::<Endpoint, IoError>(t.addr)),
    decreases calls.len(),
{
    if calls.len() > 0 {
        lemma_every_run_keeps_the_address(t, calls.drop_last(), query);
    }
}

/// The settings of a transport change only where its owner asks for other
/// settings and the request succeeds. Every other call, whatever its event and
/// its outcome, leaves them as they are.
pub proof fn lemma_settings_change_only_on_request<R>(t: Transport, call: Call<R>)
    ensures
        !(call is SetNodelay || call is SetTcpSettings) ==> t.after_call(call).settings
            == t.settings,
        call matches Call::SetNodelay(nodelay, event) ==> t.after_call(call).settings == (
        if t.set_nodelay(nodelay, event).1 == Step::Done(Ok::<(), IoError>(())) {
            TcpStreamSettings { nodelay }
        } else {
            t.settings
        }),
        call matches Call::SetTcpSettings(settings, event) ==> t.after_call(call).settings == (
        if t.set_tcp_settings(settings, event).1 == Step::Done(Ok::<(), IoError>(())) {
            settings
        } else {
            t.settings
        }),
{
}

/// An operation that hands its caller the not-ready signal leaves the
/// transport as it was: its state, its settings and its address.
pub proof fn lemma_not_ready_changes_nothing<T>(
    t: Transport,
    event: Event<T>,
    polled: Event<Async<T>>,
    settings: TcpStreamSettings,
    nodelay: bool,
    asked: Event<()>,
)
    ensures
        t.drive(event).1 is NotReady ==> t.drive(event).0 == t,
        t.transfer(event).1.blocked() ==> t.transfer(event).0 == t,
        t.poll(polled).1.not_ready() ==> t.poll(polled).0 == t,
        t.poll_io(polled).1.not_ready() ==> t.poll_io(polled).0 == t,
        t.set_tcp_settings(settings, asked).1.blocked() ==> t.set_tcp_settings(settings, asked).0
            == t,
        t.set_nodelay(nodelay, asked).1.blocked() ==> t.set_nodelay(nodelay, asked).0 == t,
{
}

/// The connection is given up exactly when an event reports its loss. The
/// transport is then connecting again, toward the address it was made for and
/// with the settings it had; the failure reaches the caller; and the remote
/// address that the transport reports is the one it was made for.
pub proof fn lemma_failure_starts_over<T>(
    t: Transport,
    event: Event<T>,
    polled: Event<Async<T>>,
    answer: Result<T, IoError>,
    query: Event<Endpoint>,
)
    ensures
        t.drive(event).1 is Reconnect <==> t.state is Connecting && t.lost_by(event),
        t.finish(answer).1 is Reconnect <==> t.established().lost_by(Event::Delegated(answer)),
        t.lost_by(event) <==> t.transfer(event).1 is Reconnect,
        t.lost_by(polled) <==> t.poll(polled).1 is Reconnect,
        t.lost_by(polled) <==> t.poll_io(polled).1 is Reconnect,
        t.lost_by(event) ==> {
            &&& t.transfer(event).0 == t.reset()
            &&& t.transfer(event).1 matches Step::Reconnect(target, Err(_))
            &&& target == t.addr
        },
        t.lost_by(polled) ==> {
            &&& t.poll(polled).0 == t.reset()
            &&& t.poll(polled).1 matches Step::Reconnect(target, Err(_))
            &&& target == t.addr
        },
        t.lost_by(polled) ==> {
            &&& t.poll_io(polled).0 == t.reset()
            &&& t.poll_io(polled).1 matches Step::Reconnect(target, _)
            &&& target == t.addr
        },
        t.reset().state is Connecting,
        t.reset().addr == t.addr,
        t.reset().settings == t.settings,
        t.reset().peer_addr(query) == Step::Done(Ok::<Endpoint, IoError>(t.addr)),
{
}

/// A run in which the owner asks for no other settings keeps the settings,
/// however many times the connection is lost and found again on the way.
pub proof fn lemma_run_without_request_keeps_settings<R>(t: Transport, calls: Seq<Call<R>>)
    requires
        forall|i: int|
            0 <= i < calls.len() ==> !(calls[i] is SetNodelay || calls[i] is SetTcpSettings),
    ensures
        t.after(calls).settings == t.settings,
    decreases calls.len(),
{
    if calls.len() > 0 {
        lemma_run_without_request_keeps_settings(t, calls.drop_last());
    }
}

/// Settings outlive a reconnection. Once a request for low latency has
/// succeeded, and as long as the owner asks for nothing else, the flag is
/// kept through every loss of the connection, and each stream that a later
/// attempt yields is given exactly that flag, whatever operation finds it.
pub proof fn lemma_settings_survive_reconnect<R, U>(
    t: Transport,
    nodelay: bool,
    asked: Event<()>,
    calls: Seq<Call<R>>,
)
    requires
        t.set_nodelay(nodelay, asked).1 == Step::Done(Ok::<(), IoError>(())),
        forall|i: int|
            0 <= i < calls.len() ==> !(calls[i] is SetNodelay || calls[i] is SetTcpSettings),
    ensures
        ({
            let later = t.set_nodelay(nodelay, asked).0.after(calls);
            let settings = TcpStreamSettings { nodelay };
            let found = Event::<U>::AttemptPolled(Ok(Async::Ready(())));
            let polled = Event::<Async<U>>::AttemptPolled(Ok(Async::Ready(())));
            &&& later.settings == settings
            &&& later.state is Connecting ==> {
                &&& later.transfer(found) == (
                    later.established(),
                    Step::<U>::ApplySettings(settings),
                )
                &&& later.poll(polled) == (
                    later.established(),
                    Step::<Async<U>>::ApplySettings(settings),
                )
                &&& later.poll_io(polled) == (
                    later.established(),
                    Step::<Async<U>>::ApplySettings(settings),
                )
                &&& later.established().state is Connected
            }
        }),
{
    lemma_run_without_request_keeps_settings(t.set_nodelay(nodelay, asked).0, calls);
}

} // verus!
