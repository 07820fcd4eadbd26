use vstd::prelude::*;

verus! {

/// The error type of the kernel, similar to `std::io::ErrorKind`.
#[non_exhaustive]
#[derive(Clone, Copy, Debug, PartialEq, Eq, Structural)]
pub enum AxError {
    /// A socket address could not be bound because the address is already in use elsewhere.
    AddrInUse,
    /// An entity already exists, often a file.
    AlreadyExists,
    /// Bad address.
    BadAddress,
    /// Bad internal state.
    BadState,
    /// The connection was refused by the remote server.
    ConnectionRefused,
    /// The connection was reset by the remote peer.
    ConnectionReset,
    /// A non-empty directory was specified where an empty directory was expected.
    DirectoryNotEmpty,
    /// Data not valid for the operation were encountered.
    InvalidData,
    /// Invalid parameter/argument.
    InvalidInput,
    /// Input/output error.
    Io,
    /// The filesystem object is, unexpectedly, a directory.
    IsADirectory,
    /// Not enough space/cannot allocate memory.
    NoMemory,
    /// A filesystem object is, unexpectedly, not a directory.
    NotADirectory,
    /// The network operation failed because it was not connected yet.
    NotConnected,
    /// The requested entity is not found.
    NotFound,
    /// The operation lacked the necessary privileges to complete.
    PermissionDenied,
    /// Device or resource is busy.
    ResourceBusy,
    /// The underlying storage (typically, a filesystem) is full.
    StorageFull,
    /// An "end of file" was reached prematurely.
    UnexpectedEof,
    /// This operation is unsupported or unimplemented.
    Unsupported,
    /// The operation needs to block to complete, but blocking was not wanted.
    WouldBlock,
    /// A call to `write()` returned `Ok(0)`.
    WriteZero,
}

/// A result whose error is an [`AxError`].
pub type AxResult<T = ()> = Result<T, AxError>;

/// The Linux error numbers that [`AxError`] maps to, as defined in `errno.h`.
#[derive(Clone, Copy, Debug, PartialEq, Eq, Structural)]
pub enum LinuxError {
    /// Operation not permitted.
    EPERM,
    /// No such file or directory.
    ENOENT,
    /// I/O error.
    EIO,
    /// Try again.
    EAGAIN,
    /// Out of memory.
    ENOMEM,
    /// Permission denied.
    EACCES,
    /// Bad address.
    EFAULT,
    /// Device or resource busy.
    EBUSY,
    /// File exists.
    EEXIST,
    /// Not a directory.
    ENOTDIR,
    /// Is a directory.
    EISDIR,
    /// Invalid argument.
    EINVAL,
    /// No space left on device.
    ENOSPC,
    /// Invalid system call number.
    ENOSYS,
    /// Directory not empty.
    ENOTEMPTY,
    /// Address already in use.
    EADDRINUSE,
    /// Connection reset by peer.
    ECONNRESET,
    /// Transport endpoint is not connected.
    ENOTCONN,
    /// Connection refused.
    ECONNREFUSED,
}

/// The number of a Linux error.
pub open spec fn linux_code(e: LinuxError) -> i32 {
    match e {
        LinuxError::EPERM => 1,
        LinuxError::ENOENT => 2,
        LinuxError::EIO => 5,
        LinuxError::EAGAIN => 11,
        LinuxError::ENOMEM => 12,
        LinuxError::EACCES => 13,
        LinuxError::EFAULT => 14,
        LinuxError::EBUSY => 16,
        LinuxError::EEXIST => 17,
        LinuxError::ENOTDIR => 20,
        LinuxError::EISDIR => 21,
        LinuxError::EINVAL => 22,
        LinuxError::ENOSPC => 28,
        LinuxError::ENOSYS => 38,
        LinuxError::ENOTEMPTY => 39,
        LinuxError::EADDRINUSE => 98,
        LinuxError::ECONNRESET => 104,
        LinuxError::ENOTCONN => 107,
        LinuxError::ECONNREFUSED => 111,
    }
}

/// The description of a Linux error, as in `errno.h`.
pub open spec fn linux_desc(e: LinuxError) -> &'static str {
    match e {
        LinuxError::EPERM => "Operation not permitted",
        LinuxError::ENOENT => "No such file or directory",
        LinuxError::EIO => "I/O error",
        LinuxError::EAGAIN => "Try again",
        LinuxError::ENOMEM => "Out of memory",
        LinuxError::EACCES => "Permission denied",
        LinuxError::EFAULT => "Bad address",
        LinuxError::EBUSY => "Device or resource busy",
        LinuxError::EEXIST => "File exists",
        LinuxError::ENOTDIR => "Not a directory",
        LinuxError::EISDIR => "Is a directory",
        LinuxError::EINVAL => "Invalid argument",
        LinuxError::ENOSPC => "No space left on device",
        LinuxError::ENOSYS => "Invalid system call number",
        LinuxError::ENOTEMPTY => "Directory not empty",
        LinuxError::EADDRINUSE => "Address already in use",
        LinuxError::ECONNRESET => "Connection reset by peer",
        LinuxError::ENOTCONN => "Transport endpoint is not connected",
        LinuxError::ECONNREFUSED => "Connection refused",
    }
}

/// The Linux error that an [`AxError`] stands for.
pub open spec fn linux_of(e: AxError) -> LinuxError {
    match e {
        AxError::AddrInUse => LinuxError::EADDRINUSE,
        AxError::AlreadyExists => LinuxError::EEXIST,
        AxError::BadAddress | AxError::BadState => LinuxError::EFAULT,
        AxError::ConnectionRefused => LinuxError::ECONNREFUSED,
        AxError::ConnectionReset => LinuxError::ECONNRESET,
        AxError::DirectoryNotEmpty => LinuxError::ENOTEMPTY,
        AxError::InvalidInput | AxError::InvalidData => LinuxError::EINVAL,
        AxError::Io => LinuxError::EIO,
        AxError::IsADirectory => LinuxError::EISDIR,
        AxError::NoMemory => LinuxError::ENOMEM,
        AxError::NotADirectory => LinuxError::ENOTDIR,
        AxError::NotConnected => LinuxError::ENOTCONN,
        AxError::NotFound => LinuxError::ENOENT,
        AxError::PermissionDenied => LinuxError::EACCES,
        AxError::ResourceBusy => LinuxError::EBUSY,
        AxError::StorageFull => LinuxError::ENOSPC,
        AxError::Unsupported => LinuxError::ENOSYS,
        AxError::UnexpectedEof | AxError::WriteZero => LinuxError::EIO,
        AxError::WouldBlock => LinuxError::EAGAIN,
    }
}

/// The description of an [`AxError`]: its own for the errors that Linux has
/// no closer word for, else that of the Linux error it stands for.
pub open spec fn ax_desc(e: AxError) -> &'static str {
    match e {
        AxError::BadState => "Bad internal state",
        AxError::InvalidData => "Invalid data",
        AxError::Unsupported => "Operation not supported",
        AxError::UnexpectedEof => "Unexpected end of file",
        AxError::WriteZero => "Write zero",
        _ => linux_desc(linux_of(e)),
    }
}

impl LinuxError {
    /// The error number.
    pub fn code(&self) -> (r: i32)
        ensures
            r == linux_code(*self),
    {
        match *self {
            LinuxError::EPERM => 1,
            LinuxError::ENOENT => 2,
            LinuxError::EIO => 5,
            LinuxError::EAGAIN => 11,
            LinuxError::ENOMEM => 12,
            LinuxError::EACCES => 13,
            LinuxError::EFAULT => 14,
            LinuxError::EBUSY => 16,
            LinuxError::EEXIST => 17,
            LinuxError::ENOTDIR => 20,
            LinuxError::EISDIR => 21,
            LinuxError::EINVAL => 22,
            LinuxError::ENOSPC => 28,
            LinuxError::ENOSYS => 38,
            LinuxError::ENOTEMPTY => 39,
            LinuxError::EADDRINUSE => 98,
            LinuxError::ECONNRESET => 104,
            LinuxError::ENOTCONN => 107,
            LinuxError::ECONNREFUSED => 111,
        }
    }

    /// The error description.
    pub fn as_str(&self) -> (r: &'static str)
        ensures
            r == linux_desc(*self),
    {
        match *self {
            LinuxError::EPERM => "Operation not permitted",
            LinuxError::ENOENT => "No such file or directory",
            LinuxError::EIO => "I/O error",
            LinuxError::EAGAIN => "Try again",
            LinuxError::ENOMEM => "Out of memory",
            LinuxError::EACCES => "Permission denied",
            LinuxError::EFAULT => "Bad address",
            LinuxError::EBUSY => "Device or resource busy",
            LinuxError::EEXIST => "File exists",
            LinuxError::ENOTDIR => "Not a directory",
            LinuxError::EISDIR => "Is a directory",
            LinuxError::EINVAL => "Invalid argument",
            LinuxError::ENOSPC => "No space left on device",
            LinuxError::ENOSYS => "Invalid system call number",
            LinuxError::ENOTEMPTY => "Directory not empty",
            LinuxError::EADDRINUSE => "Address already in use",
            LinuxError::ECONNRESET => "Connection reset by peer",
            LinuxError::ENOTCONN => "Transport endpoint is not connected",
            LinuxError::ECONNREFUSED => "Connection refused",
        }
    }
}

impl From<AxError> for LinuxError {
    fn from(e: AxError) -> (r: LinuxError) {
        match e {
            AxError::AddrInUse => LinuxError::EADDRINUSE,
            AxError::AlreadyExists => LinuxError::EEXIST,
            AxError::BadAddress | AxError::BadState => LinuxError::EFAULT,
            AxError::ConnectionRefused => LinuxError::ECONNREFUSED,
            AxError::ConnectionReset => LinuxError::ECONNRESET,
            AxError::DirectoryNotEmpty => LinuxError::ENOTEMPTY,
            AxError::InvalidInput | AxError::InvalidData => LinuxError::EINVAL,
            AxError::Io => LinuxError::EIO,
            AxError::IsADirectory => LinuxError::EISDIR,
            AxError::NoMemory => LinuxError::ENOMEM,
            AxError::NotADirectory => LinuxError::ENOTDIR,
            AxError::NotConnected => LinuxError::ENOTCONN,
            AxError::NotFound => LinuxError::ENOENT,
            AxError::PermissionDenied => LinuxError::EACCES,
            AxError::ResourceBusy => LinuxError::EBUSY,
            AxError::StorageFull => LinuxError::ENOSPC,
            AxError::Unsupported => LinuxError::ENOSYS,
            AxError::UnexpectedEof | AxError::WriteZero => LinuxError::EIO,
            AxError::WouldBlock => LinuxError::EAGAIN,
        }
    }
}

impl vstd::std_specs::convert::FromSpecImpl<AxError> for LinuxError {
    open spec fn obeys_from_spec() -> bool {
        true
    }

    open spec fn from_spec(e: AxError) -> LinuxError {
        linux_of(e)
    }
}

impl AxError {
    /// Returns the error description.
    pub fn as_str(&self) -> (r: &'static str)
        ensures
            r == ax_desc(*self),
    {
        match *self {
            AxError::BadState => "Bad internal state",
            AxError::InvalidData => "Invalid data",
            AxError::Unsupported => "Operation not supported",
            AxError::UnexpectedEof => "Unexpected end of file",
            AxError::WriteZero => "Write zero",
            _ => LinuxError::from(*self).as_str(),
        }
    }
}

} // verus!
