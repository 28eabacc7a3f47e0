//! Socket call results and socket options: the decisions between a system
//! socket call and the I/O result an application sees.

use vstd::prelude::*;
use crate::io::{Error, SocketError};
use super::addr::{ipv4_bits, ipv4_of_bits, Ipv4Addr, SocketAddrV4};

verus! {

/// The backlog of pending connections a listening TCP socket is given.
pub const LISTEN_BACKLOG: i32 = 128;

/// An IPv4 socket address in the layout the system's socket calls use: the
/// port and the address as a 32-bit number (the family is always IPv4).
#[derive(Debug, Clone, Copy, PartialEq, Eq, Structural)]
pub struct RawAddress {
    pub port: u16,
    pub address: u32,
}

/// The socket error the system reports, or `None` when it reports success.
pub open spec fn last_error_of(code: SocketError) -> Option<SocketError> {
    match code {
        SocketError::Success => None,
        _ => Some(code),
    }
}

/// The system form of a socket address.
pub fn convert_addr(addr: SocketAddrV4) -> (r: RawAddress)
    ensures
        r == (RawAddress { port: addr.port, address: ipv4_bits(addr.ip) }),
{
    RawAddress { port: addr.port, address: addr.ip.to_bits() }
}

/// The socket address the system reports in its own form.
pub fn address_of(raw: RawAddress) -> (r: SocketAddrV4)
    ensures
        r == (SocketAddrV4 { ip: ipv4_of_bits(raw.address), port: raw.port }),
{
    SocketAddrV4::new(Ipv4Addr::from_bits(raw.address), raw.port)
}

/// The socket error last reported, as an option.
pub fn last_error(code: SocketError) -> (r: Option<SocketError>)
    ensures
        r == last_error_of(code),
{
    match code {
        SocketError::Success => None,
        _ => Some(code),
    }
}

/// The result of a socket call that returns a number or `-1` on failure, given
/// the error code the system reported after it. A failed call always comes with
/// an error code.
pub fn call_result(ret: i32, code: SocketError) -> (r: Result<i32, Error>)
    requires
        ret == -1 ==> code != SocketError::Success,
    ensures
        ret == -1 ==> r == Err::<i32, Error>(Error::Other),
        ret != -1 ==> r == Ok::<i32, Error>(ret),
{
    if ret == -1 {
        match last_error(code) {
            Some(e) => Err(Error::from_socket_error(e)),
            None => Err(Error::Other),
        }
    } else {
        Ok(ret)
    }
}

/// The result of a call that transfers bytes (`recv`, `recvfrom`, `sendto`):
/// the count, or the error that comes with `-1`.
pub fn transfer_result(ret: i32, code: SocketError) -> (r: Result<usize, Error>)
    requires
        ret == -1 ==> code != SocketError::Success,
    ensures
        ret == -1 ==> r == Err::<usize, Error>(Error::Other),
        ret != -1 ==> r == Ok::<usize, Error>(ret as usize),
{
    match call_result(ret, code) {
        Ok(n) => Ok(n as usize),
        Err(e) => Err(e),
    }
}

/// The result of `send`: like any transfer, but a failure that comes without an
/// error code means the connection was aborted.
pub fn send_result(ret: i32, code: SocketError) -> (r: Result<usize, Error>)
    ensures
        ret == -1 && code == SocketError::Success ==> r == Err::<usize, Error>(
            Error::ConnectionAborted,
        ),
        ret == -1 && code != SocketError::Success ==> r == Err::<usize, Error>(Error::Other),
        ret != -1 ==> r == Ok::<usize, Error>(ret as usize),
{
    if ret == -1 {
        match last_error(code) {
            None => Err(Error::ConnectionAborted),
            Some(e) => Err(Error::from_socket_error(e)),
        }
    } else {
        Ok(ret as usize)
    }
}

/// The option value of a read or write timeout: whole seconds and the whole
/// duration in milliseconds, each truncated to 32 bits; no timeout is `(0, 0)`.
pub open spec fn timeout_value(timeout: Option<(u64, u128)>) -> (u32, u32) {
    match timeout {
        Some((secs, millis)) => (secs as u32, millis as u32),
        None => (0, 0),
    }
}

/// The option value for a timeout given as its whole seconds and its whole
/// duration in milliseconds.
pub fn encode_timeout(timeout: Option<(u64, u128)>) -> (r: (u32, u32))
    ensures
        r == timeout_value(timeout),
{
    match timeout {
        Some((secs, millis)) => (secs as u32, millis as u32),
        None => (0, 0),
    }
}

/// The timeout an option value stands for, as seconds and milliseconds to be
/// added together; `(0, 0)` is no timeout.
pub open spec fn timeout_reading(value: (u32, u32)) -> Option<(u64, u64)> {
    if value.0 == 0 && value.1 == 0 {
        None
    } else {
        Some((value.0 as u64, value.1 as u64))
    }
}

/// The timeout an option value stands for, as seconds and milliseconds to be
/// added together; `(0, 0)` is no timeout.
pub fn decode_timeout(value: (u32, u32)) -> (r: Option<(u64, u64)>)
    ensures
        r == timeout_reading(value),
{
    if value.0 == 0 && value.1 == 0 {
        None
    } else {
        Some((value.0 as u64, value.1 as u64))
    }
}

/// The option value of a boolean socket option.
pub fn encode_flag(on: bool) -> (r: u32)
    ensures
        r == (if on { 1u32 } else { 0u32 }),
{
    if on { 1 } else { 0 }
}

/// The boolean a socket option value stands for; a value other than 0 or 1 is
/// invalid data.
pub fn decode_flag(value: u32) -> (r: Result<bool, Error>)
    ensures
        value == 0 ==> r == Ok::<bool, Error>(false),
        value == 1 ==> r == Ok::<bool, Error>(true),
        value > 1 ==> r == Err::<bool, Error>(Error::InvalidData),
{
    match value {
        0 => Ok(false),
        1 => Ok(true),
        _ => Err(Error::InvalidData),
    }
}

/// A timeout below one second, in whole milliseconds, reads back as the same
/// number of milliseconds; no timeout reads back as no timeout.
pub proof fn lemma_subsecond_timeout_round_trip(millis: u64)
    requires
        0 < millis < 1000,
    ensures
        timeout_reading(timeout_value(Some((0u64, millis as u128)))) == Some((0u64, millis)),
        timeout_reading(timeout_value(None)) is None,
{
}

/// The outcome of trying the resolved addresses one after another: the first
/// success ends the search; otherwise the error of the last attempt stands, and
/// with no address at all, `AddrNotAvailable`.
pub struct Attempts {
    last: Error,
}

impl Attempts {
    /// The error that stands so far.
    pub closed spec fn standing(self) -> Error {
        self.last
    }

    /// No attempt made yet.
    pub fn new() -> (r: Self)
        ensures
            r.standing() == Error::AddrNotAvailable,
    {
        Attempts { last: Error::AddrNotAvailable }
    }

    /// Records one attempt; returns whether it succeeded (and the search is over).
    pub fn record(&mut self, outcome: Result<(), Error>) -> (done: bool)
        ensures
            done == outcome is Ok,
            outcome matches Err(e) ==> final(self).standing() == e,
            outcome is Ok ==> final(self).standing() == old(self).standing(),
    {
        match outcome {
            Ok(()) => true,
            Err(e) => {
                self.last = e;
                false
            },
        }
    }

    /// The error of the search once every address failed.
    pub fn error(&self) -> (r: Error)
        ensures
            r == self.standing(),
    {
        self.last
    }
}

/// Reading an address back from the system's form gives the same address.
pub proof fn lemma_raw_address_round_trip(addr: SocketAddrV4)
    ensures
        (SocketAddrV4 { ip: ipv4_of_bits(ipv4_bits(addr.ip)), port: addr.port }) == addr,
{
    super::addr::lemma_ipv4_bits_round_trip(addr.ip, 0);
}

} // verus!
