//! Choosing the transport from a textual connection target.
use vstd::prelude::*;

use crate::endpoint::Endpoint;
use crate::error::IoError;
use crate::protocol::Event;
use crate::retrying_tcp_stream::{ConnectionState, RetryingTcpStream, TcpStreamSettings};
use crate::serial::SerialPortSettings;
use crate::transport::Transport;
use crate::uni_connect::{Backend, UniConnect};

verus! {

/// Builds a [`UniConnect`] from a connection target: a reconnecting network
/// stream where the target is a network address, else a serial device at the
/// path that the target names.
#[derive(Debug)]
pub struct RetryingTcpOrSerial {
    connect_point: String,
    serial_port_settings: Option<SerialPortSettings>,
    tcp_settings: Option<TcpStreamSettings>,
}

/// The mathematical value behind a [`RetryingTcpOrSerial`].
pub struct Target {
    pub connect_point: Seq<char>,
    pub serial_port_settings: Option<SerialPortSettings>,
    pub tcp_settings: Option<TcpStreamSettings>,
}

/// What has to be done to finish a build.
#[derive(Debug)]
pub enum Blueprint {
    /// The target is a network address. The union is complete: its first
    /// connection attempt is pending and nothing has been checked about
    /// whether the address can be reached.
    Network(UniConnect),
    /// The target is no network address. The serial device at `path` has to
    /// be opened with `settings` now, and a failure to open it is the failure
    /// of the build.
    Serial { path: String, settings: SerialPortSettings },
}

impl Blueprint {
    /// Finishes the build. `opened` tells how the opening of the serial device
    /// went. A network target opens nothing and cannot fail: `opened` is not
    /// looked at. A serial target fails exactly when its device could not be
    /// opened, and with that failure.
    pub fn complete(self, opened: Result<(), IoError>) -> (built: Result<UniConnect, IoError>)
        ensures
            self matches Blueprint::Network(union) ==> built == Ok::<UniConnect, IoError>(union),
            self is Serial && opened is Ok ==> built == Ok::<UniConnect, IoError>(
                UniConnect::Serial,
            ),
            self is Serial ==> (opened matches Err(failure) ==> built == Err::<
                UniConnect,
                IoError,
            >(failure)),
    {
        match self {
            Blueprint::Network(union) => Ok(union),
            Blueprint::Serial { .. } => match opened {
                Ok(_) => Ok(UniConnect::Serial),
                Err(failure) => Err(failure),
            },
        }
    }
}

impl Target {
    /// The settings of the network stream: those supplied, else the default.
    pub open spec fn network_settings(self) -> TcpStreamSettings {
        match self.tcp_settings {
            Some(settings) => settings,
            None => TcpStreamSettings { nodelay: false },
        }
    }

    /// The settings of the serial device: those supplied, else the standard
    /// ones.
    pub open spec fn serial_settings(self) -> SerialPortSettings {
        match self.serial_port_settings {
            Some(settings) => settings,
            None => SerialPortSettings::standard(),
        }
    }
}

impl View for RetryingTcpOrSerial {
    type V = Target;

    closed spec fn view(&self) -> Target {
        Target {
            connect_point: self.connect_point@,
            serial_port_settings: self.serial_port_settings,
            tcp_settings: self.tcp_settings,
        }
    }
}

impl RetryingTcpOrSerial {
    /// A builder for the given target, with no settings supplied.
    pub fn new(connect_point: String) -> (builder: Self)
        ensures
            builder@ == (Target {
                connect_point: connect_point@,
                serial_port_settings: None,
                tcp_settings: None,
            }),
    {
        RetryingTcpOrSerial { connect_point, serial_port_settings: None, tcp_settings: None }
    }

    /// The connection target.
    pub fn connect_point(&self) -> (target: &str)
        ensures
            target@ == self@.connect_point,
    {
        self.connect_point.as_str()
    }

    /// Supplies the settings to use if the target turns out to be a serial
    /// device; `None` stands for the standard ones.
    pub fn set_serial_port_settings(&mut self, serial_port_settings: Option<SerialPortSettings>)
        ensures
            final(self)@ == (Target { serial_port_settings, ..old(self)@ }),
    {
        self.serial_port_settings = serial_port_settings;
    }

    /// Supplies the settings to use if the target turns out to be a network
    /// address; `None` stands for the default ones.
    pub fn set_tcp_settings(&mut self, tcp_settings: Option<TcpStreamSettings>)
        ensures
            final(self)@ == (Target { tcp_settings, ..old(self)@ }),
    {
        self.tcp_settings = tcp_settings;
    }

    /// Decides between network and serial. `parsed` is the connection target
    /// read as a network address, or `None` where it is none.
    pub fn build(self, parsed: Option<Endpoint>) -> (plan: Blueprint)
        ensures
            parsed matches Some(addr) ==> {
                &&& plan matches Blueprint::Network(union)
                &&& union@ == Backend::RetringTcpStream(
                    Transport {
                        addr,
                        settings: self@.network_settings(),
                        state: ConnectionState::Connecting,
                    },
                )
            },
            parsed is None ==> {
                &&& plan matches Blueprint::Serial { path, settings }
                &&& path@ == self@.connect_point
                &&& settings == self@.serial_settings()
            },
    {
        match parsed {
            Some(addr) => {
                let mut tcp_stream = RetryingTcpStream::connect(&addr);
                if let Some(tcp_settings) = self.tcp_settings {
                    let _ = tcp_stream.set_tcp_settings(tcp_settings, Event::Start);
                }
                Blueprint::Network(UniConnect::from(tcp_stream))
            },
            None => {
                let settings = match self.serial_port_settings {
                    Some(settings) => settings,
                    None => SerialPortSettings::default(),
                };
                Blueprint::Serial { path: self.connect_point, settings }
            },
        }
    }
}

impl Default for RetryingTcpOrSerial {
    fn default() -> (builder: RetryingTcpOrSerial)
        ensures
            builder@ == (Target {
                connect_point: Seq::empty(),
                serial_port_settings: None,
                tcp_settings: None,
            }),
    {
        RetryingTcpOrSerial {
            connect_point: String::new(),
            serial_port_settings: None,
            tcp_settings: None,
        }
    }
}

} // verus!
