//! Network addresses as plain values.
use vstd::prelude::*;

verus! {

/// A network address: an IP address and a port.
///
/// The address is held as the integer whose big-endian bytes are the address
/// bytes, so `127.0.0.1` is `0x7f00_0001`.
#[derive(Clone, Copy, Debug, PartialEq, Eq)]
#[allow(inconsistent_fields)]
pub enum Endpoint {
    V4 { ip: u32, port: u16 },
    V6 { ip: u128, port: u16, flowinfo: u32, scope_id: u32 },
}

} // verus!
