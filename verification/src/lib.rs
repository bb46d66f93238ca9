//! A sans-I/O core for byte transports that may be a plain network stream, a
//! network stream that reconnects by itself, or a serial device.
//!
//! Nothing in this crate touches a socket or a device. The owner of a transport
//! performs the platform calls and reports what came back as an
//! [`Event`](protocol::Event); the transport answers with the
//! [`Step`](protocol::Step) to perform next. All decisions (when to poll the
//! pending attempt, when to reapply the settings, when to reconnect, which error
//! reaches the caller) are taken here and are verified.
pub mod builder;
pub mod endpoint;
pub mod error;
pub mod protocol;
pub mod retrying_tcp_stream;
pub mod serial;
pub mod transport;
pub mod uni_connect;

pub use crate::uni_connect::UniConnect;
