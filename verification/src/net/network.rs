//! The system's automatic network connection.

use vstd::prelude::*;

verus! {

/// What the auto-connect service reports for a request.
#[derive(Debug, Clone, Copy, PartialEq, Eq, Structural)]
pub enum AcStatus {
    Failed,
    Processing,
    Success,
}

/// Failures of the auto-connect service.
#[derive(Debug, Clone, Copy, PartialEq, Eq, Structural)]
pub enum Error {
    /// Auto connect could not be initialized
    Initialization,
    /// Cannot connect to auto-configured network
    NetworkConnect,
    /// Cannot disconnect from network
    NetworkDisconnect,
}

/// The sentence that describes an error.
pub open spec fn error_message(e: Error) -> Seq<char> {
    match e {
        Error::Initialization => "Auto connect could not be initialized"@,
        Error::NetworkConnect => "Cannot connect to auto-configured network"@,
        Error::NetworkDisconnect => "Cannot disconnect from network"@,
    }
}

/// A request succeeds unless the service reports failure; a request still in
/// progress counts as a success.
pub open spec fn status_result(status: AcStatus, failure: Error) -> Result<(), Error> {
    match status {
        AcStatus::Failed => Err(failure),
        _ => Ok(()),
    }
}

impl Error {
    /// The sentence that describes this error.
    pub fn message(&self) -> (r: &'static str)
        ensures
            r@ == error_message(*self),
    {
        match self {
            Error::Initialization => "Auto connect could not be initialized",
            Error::NetworkConnect => "Cannot connect to auto-configured network",
            Error::NetworkDisconnect => "Cannot disconnect from network",
        }
    }
}

fn settle(status: AcStatus, failure: Error) -> (r: Result<(), Error>)
    ensures
        r == status_result(status, failure),
{
    match status {
        AcStatus::Failed => Err(failure),
        AcStatus::Processing | AcStatus::Success => Ok(()),
    }
}

/// The result of initialising the auto-connect service, from its status.
pub fn init_result(status: AcStatus) -> (r: Result<(), Error>)
    ensures
        r == status_result(status, Error::Initialization),
{
    settle(status, Error::Initialization)
}

/// The result of connecting to the configured network, from the service's status.
pub fn connect_result(status: AcStatus) -> (r: Result<(), Error>)
    ensures
        r == status_result(status, Error::NetworkConnect),
{
    settle(status, Error::NetworkConnect)
}

/// The result of closing the network connection, from the service's status.
pub fn disconnect_result(status: AcStatus) -> (r: Result<(), Error>)
    ensures
        r == status_result(status, Error::NetworkDisconnect),
{
    settle(status, Error::NetworkDisconnect)
}

} // verus!
