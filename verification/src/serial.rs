//! The settings of a serial device, as plain values.
use vstd::prelude::*;

verus! {

/// Number of bits per character.
#[derive(Clone, Copy, Debug, PartialEq, Eq)]
pub enum DataBits {
    Five,
    Six,
    Seven,
    Eight,
}

/// How the flow of data is controlled.
#[derive(Clone, Copy, Debug, PartialEq, Eq)]
pub enum FlowControl {
    /// No flow control.
    Off,
    /// XON/XOFF bytes.
    Software,
    /// RTS/CTS signals.
    Hardware,
}

/// Parity checking.
#[derive(Clone, Copy, Debug, PartialEq, Eq)]
pub enum Parity {
    /// No parity bit.
    Off,
    Odd,
    Even,
}

/// Number of stop bits.
#[derive(Clone, Copy, Debug, PartialEq, Eq)]
pub enum StopBits {
    One,
    Two,
}

/// Everything that is set on a serial device when it is opened.
#[derive(Clone, Copy, Debug, PartialEq, Eq)]
pub struct SerialPortSettings {
    /// Symbols per second.
    pub baud_rate: u32,
    pub data_bits: DataBits,
    pub flow_control: FlowControl,
    pub parity: Parity,
    pub stop_bits: StopBits,
    /// How long a read waits for data, in milliseconds.
    pub timeout_millis: u64,
}

impl SerialPortSettings {
    /// 9600 baud, eight data bits, no parity, one stop bit, no flow control,
    /// and a timeout of one millisecond.
    pub open spec fn standard() -> SerialPortSettings {
        SerialPortSettings {
            baud_rate: 9600,
            data_bits: DataBits::Eight,
            flow_control: FlowControl::Off,
            parity: Parity::Off,
            stop_bits: StopBits::One,
            timeout_millis: 1,
        }
    }
}

impl Default for SerialPortSettings {
    fn default() -> (settings: SerialPortSettings)
        ensures
            settings == SerialPortSettings::standard(),
    {
        SerialPortSettings {
            baud_rate: 9600,
            data_bits: DataBits::Eight,
            flow_control: FlowControl::Off,
            parity: Parity::Off,
            stop_bits: StopBits::One,
            timeout_millis: 1,
        }
    }
}

} // verus!
