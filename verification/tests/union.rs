use uniconnect::endpoint::Endpoint;
use uniconnect::error::{ErrorKind, IoError};
use uniconnect::protocol::{soften, Async, Event, Step};
use uniconnect::retrying_tcp_stream::{RetryingTcpStream, TcpStreamSettings};
use uniconnect::UniConnect;

fn target() -> Endpoint {
    Endpoint::V4 { ip: 0xc0a8_0001, port: 502 }
}

fn busy() -> IoError {
    IoError { kind: ErrorKind::WouldBlock, code: Some(11) }
}

fn broken() -> IoError {
    IoError { kind: ErrorKind::BrokenPipe, code: Some(32) }
}

fn retrying(union: &UniConnect) -> &RetryingTcpStream {
    match union {
        UniConnect::RetringTcpStream(inner) => inner,
        other => panic!("not a reconnecting stream: {:?}", other),
    }
}

#[test]
fn forward_asks_for_the_operation_and_returns_its_answer() {
    assert_eq!(Event::<usize>::Start.forward(), Step::Delegate);
    assert_eq!(Event::<usize>::AttemptPolled(Ok(Async::NotReady)).forward(), Step::Delegate);
    assert_eq!(Event::<usize>::SettingsApplied(Err(broken())).forward(), Step::Delegate);
    assert_eq!(Event::Delegated(Ok(7usize)).forward(), Step::Done(Ok(7)));
    assert_eq!(Event::<usize>::Delegated(Err(broken())).forward(), Step::Done(Err(broken())));
}

#[test]
fn soften_touches_only_would_block() {
    assert_eq!(soften::<usize>(Err(busy())), Ok(Async::NotReady));
    assert_eq!(soften::<usize>(Err(broken())), Err(broken()));
    assert_eq!(soften(Ok(Async::Ready(3usize))), Ok(Async::Ready(3)));
    assert_eq!(soften::<usize>(Ok(Async::NotReady)), Ok(Async::NotReady));
}

#[test]
fn soften_reaches_the_result_of_a_closing_step() {
    assert_eq!(Step::<Async<usize>>::Done(Err(busy())).soften(), Step::Done(Ok(Async::NotReady)));
    assert_eq!(
        Step::<Async<usize>>::Reconnect(target(), Err(busy())).soften(),
        Step::Reconnect(target(), Ok(Async::NotReady))
    );
    assert_eq!(
        Step::<Async<usize>>::Reconnect(target(), Err(broken())).soften(),
        Step::Reconnect(target(), Err(broken()))
    );
    assert_eq!(Step::<Async<usize>>::Delegate.soften(), Step::Delegate);
    assert_eq!(Step::<Async<usize>>::PollAttempt.soften(), Step::PollAttempt);
    assert_eq!(
        Step::<Async<usize>>::ApplySettings(TcpStreamSettings { nodelay: true }).soften(),
        Step::ApplySettings(TcpStreamSettings { nodelay: true })
    );
}

#[test]
fn a_plain_stream_passes_a_write_through() {
    let mut union = UniConnect::TcpStream;
    assert_eq!(union.write(Event::Start), Step::Delegate);
    assert_eq!(union.write(Event::Delegated(Ok(5))), Step::Done(Ok(5)));
    assert_eq!(union.write(Event::Delegated(Err(broken()))), Step::Done(Err(broken())));
    assert_eq!(union.write(Event::Delegated(Err(busy()))), Step::Done(Err(busy())));
    assert!(matches!(union, UniConnect::TcpStream));
}

#[test]
fn a_plain_stream_passes_every_operation_through() {
    let mut union = UniConnect::TcpStream;
    assert_eq!(union.read(Event::Start), Step::Delegate);
    assert_eq!(union.read(Event::Delegated(Ok(0))), Step::Done(Ok(0)));
    assert_eq!(union.flush(Event::Start), Step::Delegate);
    assert_eq!(union.flush(Event::Delegated(Err(broken()))), Step::Done(Err(broken())));
    assert_eq!(union.shutdown(Event::Start), Step::Delegate);
    assert_eq!(
        union.shutdown(Event::Delegated(Ok(Async::NotReady))),
        Step::Done(Ok(Async::NotReady))
    );
    assert_eq!(union.poll_read(Event::Start), Step::Delegate);
    assert_eq!(union.poll_read(Event::Delegated(Err(busy()))), Step::Done(Err(busy())));
    assert_eq!(union.poll_write(Event::Start), Step::Delegate);
    assert_eq!(
        union.poll_write(Event::Delegated(Ok(Async::Ready(2)))),
        Step::Done(Ok(Async::Ready(2)))
    );
    assert_eq!(union.poll_flush(Event::Start), Step::Delegate);
    assert_eq!(
        union.poll_flush(Event::Delegated(Ok(Async::Ready(())))),
        Step::Done(Ok(Async::Ready(())))
    );
    assert!(matches!(union, UniConnect::TcpStream));
}

#[test]
fn a_serial_device_passes_every_operation_through() {
    let mut union = UniConnect::Serial;
    assert_eq!(union.read(Event::Start), Step::Delegate);
    assert_eq!(union.read(Event::Delegated(Ok(64))), Step::Done(Ok(64)));
    assert_eq!(union.write(Event::Delegated(Err(broken()))), Step::Done(Err(broken())));
    assert_eq!(union.flush(Event::Delegated(Ok(()))), Step::Done(Ok(())));
    assert_eq!(
        union.shutdown(Event::Delegated(Ok(Async::Ready(())))),
        Step::Done(Ok(Async::Ready(())))
    );
    assert_eq!(
        union.poll_read(Event::Delegated(Ok(Async::NotReady))),
        Step::Done(Ok(Async::NotReady))
    );
    assert_eq!(union.poll_write(Event::AttemptPolled(Err(broken()))), Step::Delegate);
    assert_eq!(union.poll_flush(Event::Delegated(Err(busy()))), Step::Done(Err(busy())));
    assert!(matches!(union, UniConnect::Serial));
}

#[test]
fn a_reconnecting_stream_answers_through_the_union_as_by_itself() {
    let mut union = UniConnect::from(RetryingTcpStream::connect(&target()));
    assert_eq!(union.read(Event::Start), Step::PollAttempt);
    assert_eq!(
        union.write(Event::AttemptPolled(Ok(Async::NotReady))),
        Step::Done(Err(IoError::new(ErrorKind::WouldBlock)))
    );
    assert_eq!(
        union.shutdown(Event::Start),
        Step::Done(Err(IoError::new(ErrorKind::NotConnected)))
    );
    assert_eq!(
        union.flush(Event::AttemptPolled(Ok(Async::Ready(())))),
        Step::ApplySettings(TcpStreamSettings { nodelay: false })
    );
    assert_eq!(union.flush(Event::SettingsApplied(Ok(()))), Step::Delegate);
    assert_eq!(union.flush(Event::Delegated(Ok(()))), Step::Done(Ok(())));
    assert_eq!(union.shutdown(Event::Start), Step::Delegate);
    assert_eq!(
        union.read(Event::Delegated(Err(broken()))),
        Step::Reconnect(target(), Err(broken()))
    );
    assert_eq!(retrying(&union).peer_addr(Event::Start), Step::Done(Ok(target())));
}

#[test]
fn polled_io_on_a_reconnecting_stream_has_no_would_block_failure() {
    let mut union = UniConnect::from(RetryingTcpStream::from_std(true, target()));
    assert_eq!(union.poll_read(Event::Start), Step::Delegate);
    assert_eq!(union.poll_read(Event::Delegated(Err(busy()))), Step::Done(Ok(Async::NotReady)));
    assert_eq!(
        union.poll_write(Event::Delegated(Ok(Async::Ready(12)))),
        Step::Done(Ok(Async::Ready(12)))
    );
    assert_eq!(
        union.poll_flush(Event::Delegated(Err(broken()))),
        Step::Reconnect(target(), Err(broken()))
    );
    assert_eq!(
        union.poll_read(Event::AttemptPolled(Ok(Async::NotReady))),
        Step::Done(Ok(Async::NotReady))
    );
    assert_eq!(
        union.poll_write(Event::AttemptPolled(Ok(Async::Ready(())))),
        Step::ApplySettings(TcpStreamSettings { nodelay: true })
    );
}

#[test]
fn from_wraps_the_reconnecting_stream() {
    let stream =
        RetryingTcpStream::connect_with_settings(&target(), TcpStreamSettings { nodelay: true });
    let union = UniConnect::from(stream);
    assert_eq!(retrying(&union).addr(), target());
    assert_eq!(retrying(&union).settings(), TcpStreamSettings { nodelay: true });
}
