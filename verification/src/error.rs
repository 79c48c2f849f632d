//! Errors, and the interpretation of lwext4's return codes.
use vstd::prelude::*;

verus! {

/// Operation not permitted.
pub const EPERM: i32 = 1;
/// No such file or directory.
pub const ENOENT: i32 = 2;
/// Permission denied.
pub const EACCES: i32 = 13;
/// File exists.
pub const EEXIST: i32 = 17;
/// Not a directory.
pub const ENOTDIR: i32 = 20;
/// Is a directory.
pub const EISDIR: i32 = 21;
/// Invalid argument.
pub const EINVAL: i32 = 22;
/// No space left on device.
pub const ENOSPC: i32 = 28;
/// Read-only file system.
pub const EROFS: i32 = 30;
/// Directory not empty.
pub const ENOTEMPTY: i32 = 39;

/// Errors of filesystem operations.
///
/// The variants that carry a `String` carry the path the failed operation
/// was about (empty where the operation names no path), except
/// `InvalidArgument`, which carries a message or, for an `EINVAL` code, the
/// path.
#[derive(Debug, Clone, PartialEq, Eq)]
pub enum Error {
    /// The path does not exist (`ENOENT`).
    NotFound(String),
    /// The path already exists (`EEXIST`).
    AlreadyExists(String),
    /// The operation is not permitted on the path (`EPERM`, `EACCES`).
    PermissionDenied(String),
    /// A component of the path is not a directory (`ENOTDIR`).
    NotADirectory(String),
    /// The path is a directory (`EISDIR`).
    IsADirectory(String),
    /// The directory is not empty (`ENOTEMPTY`).
    DirectoryNotEmpty(String),
    /// The device is full (`ENOSPC`).
    NoSpace,
    /// The filesystem is mounted read-only, or lwext4 reported `EROFS`.
    ReadOnly,
    /// An argument was rejected: a name with an interior NUL byte, bytes
    /// that are not UTF-8, or an `EINVAL` code.
    InvalidArgument(String),
    /// Any other nonzero lwext4 return code.
    Io(i32),
}

/// The mathematical value of an error: its variant, with each string taken
/// as its sequence of characters.
pub ghost enum ErrorView {
    NotFound(Seq<char>),
    AlreadyExists(Seq<char>),
    PermissionDenied(Seq<char>),
    NotADirectory(Seq<char>),
    IsADirectory(Seq<char>),
    DirectoryNotEmpty(Seq<char>),
    NoSpace,
    ReadOnly,
    InvalidArgument(Seq<char>),
    Io(i32),
}

impl View for Error {
    type V = ErrorView;

    open spec fn view(&self) -> ErrorView {
        match self {
            Error::NotFound(p) => ErrorView::NotFound(p@),
            Error::AlreadyExists(p) => ErrorView::AlreadyExists(p@),
            Error::PermissionDenied(p) => ErrorView::PermissionDenied(p@),
            Error::NotADirectory(p) => ErrorView::NotADirectory(p@),
            Error::IsADirectory(p) => ErrorView::IsADirectory(p@),
            Error::DirectoryNotEmpty(p) => ErrorView::DirectoryNotEmpty(p@),
            Error::NoSpace => ErrorView::NoSpace,
            Error::ReadOnly => ErrorView::ReadOnly,
            Error::InvalidArgument(m) => ErrorView::InvalidArgument(m@),
            Error::Io(c) => ErrorView::Io(*c),
        }
    }
}

/// The error that a nonzero lwext4 return code stands for, about `path`.
pub open spec fn errno_error(code: i32, path: Seq<char>) -> ErrorView {
    if code == ENOENT {
        ErrorView::NotFound(path)
    } else if code == EEXIST {
        ErrorView::AlreadyExists(path)
    } else if code == EPERM || code == EACCES {
        ErrorView::PermissionDenied(path)
    } else if code == ENOTDIR {
        ErrorView::NotADirectory(path)
    } else if code == EISDIR {
        ErrorView::IsADirectory(path)
    } else if code == ENOTEMPTY {
        ErrorView::DirectoryNotEmpty(path)
    } else if code == ENOSPC {
        ErrorView::NoSpace
    } else if code == EROFS {
        ErrorView::ReadOnly
    } else if code == EINVAL {
        ErrorView::InvalidArgument(path)
    } else {
        ErrorView::Io(code)
    }
}

/// The outcome of an lwext4 call that returned `ret`, about `path`.
pub open spec fn errno_result(ret: i32, path: Seq<char>) -> Result<(), ErrorView> {
    if ret == 0 {
        Ok(())
    } else {
        Err(errno_error(ret, path))
    }
}

/// The view of a result whose success value has no view of interest.
pub open spec fn unit_result_view(r: Result<(), Error>) -> Result<(), ErrorView> {
    match r {
        Ok(()) => Ok(()),
        Err(e) => Err(e@),
    }
}

impl Error {
    /// The error for a nonzero lwext4 return code about `path`.
    pub fn from_errno_with_path(code: i32, path: &str) -> (r: Error)
        ensures
            r@ == errno_error(code, path@),
    {
        if code == ENOENT {
            Error::NotFound(path.to_owned())
        } else if code == EEXIST {
            Error::AlreadyExists(path.to_owned())
        } else if code == EPERM || code == EACCES {
            Error::PermissionDenied(path.to_owned())
        } else if code == ENOTDIR {
            Error::NotADirectory(path.to_owned())
        } else if code == EISDIR {
            Error::IsADirectory(path.to_owned())
        } else if code == ENOTEMPTY {
            Error::DirectoryNotEmpty(path.to_owned())
        } else if code == ENOSPC {
            Error::NoSpace
        } else if code == EROFS {
            Error::ReadOnly
        } else if code == EINVAL {
            Error::InvalidArgument(path.to_owned())
        } else {
            Error::Io(code)
        }
    }

    /// The error for a nonzero lwext4 return code that names no path.
    pub fn from_errno(code: i32) -> (r: Error)
        ensures
            r@ == errno_error(code, Seq::empty()),
    {
        let empty = "";
        proof {
            reveal_strlit("");
            assert(empty@ =~= Seq::<char>::empty());
        }
        Error::from_errno_with_path(code, empty)
    }
}

/// Turn an lwext4 return code into a result: zero is success.
pub fn check_errno(ret: i32) -> (r: Result<(), Error>)
    ensures
        unit_result_view(r) == errno_result(ret, Seq::empty()),
{
    if ret == 0 {
        Ok(())
    } else {
        Err(Error::from_errno(ret))
    }
}

/// Turn an lwext4 return code about `path` into a result: zero is success.
pub fn check_errno_with_path(ret: i32, path: &str) -> (r: Result<(), Error>)
    ensures
        unit_result_view(r) == errno_result(ret, path@),
{
    if ret == 0 {
        Ok(())
    } else {
        Err(Error::from_errno_with_path(ret, path))
    }
}

/// Every nonzero code is an error, and the codes that name a condition about
/// a path keep that path in the error.
pub proof fn lemma_errno_error_keeps_path(code: i32, path: Seq<char>)
    requires
        code == ENOENT || code == EEXIST || code == EPERM || code == EACCES || code == ENOTDIR
            || code == EISDIR || code == ENOTEMPTY || code == EINVAL,
    ensures
        match errno_error(code, path) {
            ErrorView::NotFound(p) => p == path,
            ErrorView::AlreadyExists(p) => p == path,
            ErrorView::PermissionDenied(p) => p == path,
            ErrorView::NotADirectory(p) => p == path,
            ErrorView::IsADirectory(p) => p == path,
            ErrorView::DirectoryNotEmpty(p) => p == path,
            ErrorView::InvalidArgument(p) => p == path,
            _ => false,
        },
{
}

} // verus!
