//! I/O errors, named after the kinds of `std::io::ErrorKind`.

use vstd::prelude::*;

verus! {

/// The kind of an I/O failure.
#[non_exhaustive]
#[derive(Debug, Clone, Copy, PartialEq, Eq, Structural)]
pub enum Error {
    /// An entity was not found, often a file.
    NotFound,
    /// The operation lacked the necessary privileges to complete.
    PermissionDenied,
    /// The connection was refused by the remote server.
    ConnectionRefused,
    /// The connection was reset by the remote server.
    ConnectionReset,
    /// The remote host is not reachable.
    HostUnreachable,
    /// The network containing the remote host is not reachable.
    NetworkUnreachable,
    /// The connection was aborted (terminated) by the remote server.
    ConnectionAborted,
    /// The network operation failed because it was not connected yet.
    NotConnected,
    /// A socket address could not be bound because the address is already in use elsewhere.
    AddrInUse,
    /// A nonexistent interface was requested or the requested address was not local.
    AddrNotAvailable,
    /// The system’s networking is down.
    NetworkDown,
    /// The operation failed because a pipe was closed.
    BrokenPipe,
    /// An entity already exists, often a file.
    AlreadyExists,
    /// The operation needs to block to complete, but the blocking operation was requested to not occur.
    WouldBlock,
    /// A filesystem object is, unexpectedly, not a directory.
    NotADirectory,
    /// The filesystem object is, unexpectedly, a directory.
    IsADirectory,
    /// A non-empty directory was specified where an empty directory was expected.
    DirectoryNotEmpty,
    /// The filesystem or storage medium is read-only, but a write operation was attempted.
    ReadOnlyFilesystem,
    /// A parameter was incorrect.
    InvalidInput,
    /// Data not valid for the operation were encountered.
    InvalidData,
    /// The I/O operation’s timeout expired, causing it to be canceled.
    TimedOut,
    /// The underlying storage (typically, a filesystem) is full. This does not include out of quota errors.
    StorageFull,
    /// Seek on unseekable file.
    NotSeekable,
    /// Filesystem quota or some other kind of quota was exceeded.
    QuotaExceeded,
    /// File larger than allowed or supported.
    FileTooLarge,
    /// Resource is busy.
    ResourceBusy,
    /// Executable file is busy.
    ExecutableFileBusy,
    /// Cross-device or cross-filesystem (hard) link or rename.
    CrossesDevices,
    /// Too many (hard) links to the same filesystem object.
    TooManyLinks,
    /// A filename was invalid.
    InvalidFilename,
    /// Program argument list too long.
    ArgumentListTooLong,
    /// This operation was interrupted.
    Interrupted,
    /// This operation is unsupported on this platform.
    Unsupported,
    /// An error returned when an operation could not be completed because an “end of file” was reached prematurely.
    UnexpectedEof,
    /// An operation could not be completed, because it failed to allocate enough memory.
    OutOfMemory,
    /// A custom error that does not fall under any other I/O error kind.
    Other,
}

/// The sentence that describes an error.
pub open spec fn error_message(e: Error) -> Seq<char> {
    match e {
        Error::NotFound => "An entity was not found, often a file."@,
        Error::PermissionDenied => "The operation lacked the necessary privileges to complete."@,
        Error::ConnectionRefused => "The connection was refused by the remote server."@,
        Error::ConnectionReset => "The connection was reset by the remote server."@,
        Error::HostUnreachable => "The remote host is not reachable."@,
        Error::NetworkUnreachable => "The network containing the remote host is not reachable."@,
        Error::ConnectionAborted => "The connection was aborted (terminated) by the remote server."@,
        Error::NotConnected => "The network operation failed because it was not connected yet."@,
        Error::AddrInUse => "A socket address could not be bound because the address is already in use elsewhere."@,
        Error::AddrNotAvailable => "A nonexistent interface was requested or the requested address was not local."@,
        Error::NetworkDown => "The system’s networking is down."@,
        Error::BrokenPipe => "The operation failed because a pipe was closed."@,
        Error::AlreadyExists => "An entity already exists, often a file."@,
        Error::WouldBlock => "The operation needs to block to complete, but the blocking operation was requested to not occur."@,
        Error::NotADirectory => "A filesystem object is, unexpectedly, not a directory."@,
        Error::IsADirectory => "The filesystem object is, unexpectedly, a directory."@,
        Error::DirectoryNotEmpty => "A non-empty directory was specified where an empty directory was expected."@,
        Error::ReadOnlyFilesystem => "The filesystem or storage medium is read-only, but a write operation was attempted."@,
        Error::InvalidInput => "A parameter was incorrect."@,
        Error::InvalidData => "Data not valid for the operation were encountered."@,
        Error::TimedOut => "The I/O operation’s timeout expired, causing it to be canceled."@,
        Error::StorageFull => "The underlying storage (typically, a filesystem) is full. This does not include out of quota errors."@,
        Error::NotSeekable => "Seek on unseekable file."@,
        Error::QuotaExceeded => "Filesystem quota or some other kind of quota was exceeded."@,
        Error::FileTooLarge => "File larger than allowed or supported."@,
        Error::ResourceBusy => "Resource is busy."@,
        Error::ExecutableFileBusy => "Executable file is busy."@,
        Error::CrossesDevices => "Cross-device or cross-filesystem (hard) link or rename."@,
        Error::TooManyLinks => "Too many (hard) links to the same filesystem object."@,
        Error::InvalidFilename => "A filename was invalid."@,
        Error::ArgumentListTooLong => "Program argument list too long."@,
        Error::Interrupted => "This operation was interrupted."@,
        Error::Unsupported => "This operation is unsupported on this platform."@,
        Error::UnexpectedEof => "An error returned when an operation could not be completed because an “end of file” was reached prematurely."@,
        Error::OutOfMemory => "An operation could not be completed, because it failed to allocate enough memory."@,
        Error::Other => "A custom error that does not fall under any other I/O error kind."@,
    }
}

/// A system socket error code; `Success` is the code of no error.
#[derive(Debug, Clone, Copy, PartialEq, Eq, Structural)]
pub enum SocketError {
    Success,
    Code(i32),
}

impl Error {
    /// The sentence that describes this error.
    pub fn message(&self) -> (r: &'static str)
        ensures
            r@ == error_message(*self),
    {
        match self {
            Error::NotFound => "An entity was not found, often a file.",
            Error::PermissionDenied => "The operation lacked the necessary privileges to complete.",
            Error::ConnectionRefused => "The connection was refused by the remote server.",
            Error::ConnectionReset => "The connection was reset by the remote server.",
            Error::HostUnreachable => "The remote host is not reachable.",
            Error::NetworkUnreachable => "The network containing the remote host is not reachable.",
            Error::ConnectionAborted => "The connection was aborted (terminated) by the remote server.",
            Error::NotConnected => "The network operation failed because it was not connected yet.",
            Error::AddrInUse => "A socket address could not be bound because the address is already in use elsewhere.",
            Error::AddrNotAvailable => "A nonexistent interface was requested or the requested address was not local.",
            Error::NetworkDown => "The system’s networking is down.",
            Error::BrokenPipe => "The operation failed because a pipe was closed.",
            Error::AlreadyExists => "An entity already exists, often a file.",
            Error::WouldBlock => "The operation needs to block to complete, but the blocking operation was requested to not occur.",
            Error::NotADirectory => "A filesystem object is, unexpectedly, not a directory.",
            Error::IsADirectory => "The filesystem object is, unexpectedly, a directory.",
            Error::DirectoryNotEmpty => "A non-empty directory was specified where an empty directory was expected.",
            Error::ReadOnlyFilesystem => "The filesystem or storage medium is read-only, but a write operation was attempted.",
            Error::InvalidInput => "A parameter was incorrect.",
            Error::InvalidData => "Data not valid for the operation were encountered.",
            Error::TimedOut => "The I/O operation’s timeout expired, causing it to be canceled.",
            Error::StorageFull => "The underlying storage (typically, a filesystem) is full. This does not include out of quota errors.",
            Error::NotSeekable => "Seek on unseekable file.",
            Error::QuotaExceeded => "Filesystem quota or some other kind of quota was exceeded.",
            Error::FileTooLarge => "File larger than allowed or supported.",
            Error::ResourceBusy => "Resource is busy.",
            Error::ExecutableFileBusy => "Executable file is busy.",
            Error::CrossesDevices => "Cross-device or cross-filesystem (hard) link or rename.",
            Error::TooManyLinks => "Too many (hard) links to the same filesystem object.",
            Error::InvalidFilename => "A filename was invalid.",
            Error::ArgumentListTooLong => "Program argument list too long.",
            Error::Interrupted => "This operation was interrupted.",
            Error::Unsupported => "This operation is unsupported on this platform.",
            Error::UnexpectedEof => "An error returned when an operation could not be completed because an “end of file” was reached prematurely.",
            Error::OutOfMemory => "An operation could not be completed, because it failed to allocate enough memory.",
            Error::Other => "A custom error that does not fall under any other I/O error kind.",
        }
    }

    /// The I/O error that a socket error stands for: every socket error is `Other`.
    pub fn from_socket_error(e: SocketError) -> (r: Self)
        ensures
            r == Error::Other,
    {
        Error::Other
    }
}

} // verus!
