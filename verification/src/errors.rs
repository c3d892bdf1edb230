use vstd::prelude::*;

use crate::native::{
    cleared, errno_call, perform, performed, takes_all, Native, NativeCall, NativeReply, Procedure,
};

verus! {

/// Broad category of an input/output error.
#[verifier::external_type_specification]
pub struct ExErrorKind(std::io::ErrorKind);

/// Category that the operating system's error code `code` falls under.
pub uninterp spec fn kind_of_code(code: i32) -> std::io::ErrorKind;

/// Category that the operating system's error code `code` falls under.
///
/// Calls `std::io::Error::from_raw_os_error`, then `std::io::Error::kind`
/// on the error made: the category depends on the code alone.
#[verifier::external_body]
fn os_error_kind(code: i32) -> (kind: std::io::ErrorKind)
    ensures
        kind == kind_of_code(code),
{
    std::io::Error::from_raw_os_error(code).kind()
}

/// Cause of a failed operation.
#[derive(Debug, Copy, Clone, PartialEq, Eq, Structural, Hash)]
pub enum IoError {
    /// The operating system reported this error code.
    Os(i32),
    /// An entity was not found.
    NotFound,
    /// An entity already exists.
    AlreadyExists,
    /// A parameter was incorrect.
    InvalidInput,
    /// Data not valid for the operation were encountered.
    InvalidData,
}

impl IoError {
    /// Error carrying the error code that the operating system reported last.
    pub fn last_os_error(errno: i32) -> (err: Self)
        ensures
            err == IoError::Os(errno),
    {
        IoError::Os(errno)
    }

    /// Error code reported by the operating system, if this error came from it.
    pub open spec fn spec_raw_os_error(&self) -> Option<i32> {
        match *self {
            IoError::Os(code) => Some(code),
            _ => None,
        }
    }

    /// Error code reported by the operating system, if this error came from it.
    #[verifier::when_used_as_spec(spec_raw_os_error)]
    pub fn raw_os_error(&self) -> (code: Option<i32>)
        ensures
            code == self.spec_raw_os_error(),
    {
        match *self {
            IoError::Os(code) => Some(code),
            _ => None,
        }
    }

    /// `true` if the operating system reported no error at all.
    pub open spec fn spec_is_clear(&self) -> bool {
        self.spec_raw_os_error() == None::<i32> || self.spec_raw_os_error() == Some(0i32)
    }

    /// `true` if the operating system reported no error at all.
    #[verifier::when_used_as_spec(spec_is_clear)]
    pub fn is_clear(&self) -> (clear: bool)
        ensures
            clear == self.spec_is_clear(),
    {
        match *self {
            IoError::Os(code) => code == 0,
            _ => true,
        }
    }

    /// Category of this error: for an error code of the operating system,
    /// the category that the code falls under.
    pub open spec fn spec_kind(&self) -> std::io::ErrorKind {
        match *self {
            IoError::Os(code) => kind_of_code(code),
            IoError::NotFound => std::io::ErrorKind::NotFound,
            IoError::AlreadyExists => std::io::ErrorKind::AlreadyExists,
            IoError::InvalidInput => std::io::ErrorKind::InvalidInput,
            IoError::InvalidData => std::io::ErrorKind::InvalidData,
        }
    }

    /// Category of this error.
    #[verifier::when_used_as_spec(spec_kind)]
    pub fn kind(&self) -> (kind: std::io::ErrorKind)
        ensures
            kind == self.spec_kind(),
    {
        match *self {
            IoError::Os(code) => os_error_kind(code),
            IoError::NotFound => std::io::ErrorKind::NotFound,
            IoError::AlreadyExists => std::io::ErrorKind::AlreadyExists,
            IoError::InvalidInput => std::io::ErrorKind::InvalidInput,
            IoError::InvalidData => std::io::ErrorKind::InvalidData,
        }
    }
}

/// Error.
#[derive(Debug, Clone, PartialEq, Eq)]
#[non_exhaustive]
pub enum Error {
    /// Path is invalid.
    PathIsInvalid(Vec<u8>),
    /// Input security contexts have different formats.
    SecurityContextFormatMismatch,
    /// Security context has an expected format.
    UnexpectedSecurityContextFormat,
    /// Lock was poisoned.
    LockPoisoned {
        /// Operation.
        operation: &'static str,
    },
    /// Input/Output operation failed.
    IO {
        /// Cause.
        source: IoError,
        /// Operation.
        operation: &'static str,
    },
    /// Operation failed on a process.
    IO1Process {
        /// Cause.
        source: IoError,
        /// Operation.
        operation: &'static str,
        /// Process identifier.
        process_id: i32,
    },
    /// Operation failed on a named object.
    IO1Name {
        /// Cause.
        source: IoError,
        /// Operation.
        operation: &'static str,
        /// Name.
        name: String,
    },
    /// Operation failed on a file system object.
    IO1Path {
        /// Cause.
        source: IoError,
        /// Operation.
        operation: &'static str,
        /// Path.
        path: Vec<u8>,
    },
    /// Data is not encoded as UTF-8.
    NotUTF8,
    /// Integer is out of valid range.
    IntegerOutOfRange,
}

/// Mathematical model of an [`Error`]: paths and names are sequences.
pub enum ErrorView {
    PathIsInvalid(Seq<u8>),
    SecurityContextFormatMismatch,
    UnexpectedSecurityContextFormat,
    LockPoisoned { operation: &'static str },
    IO { source: IoError, operation: &'static str },
    IO1Process { source: IoError, operation: &'static str, process_id: i32 },
    IO1Name { source: IoError, operation: &'static str, name: Seq<char> },
    IO1Path { source: IoError, operation: &'static str, path: Seq<u8> },
    NotUTF8,
    IntegerOutOfRange,
}

impl View for Error {
    type V = ErrorView;

    open spec fn view(&self) -> ErrorView {
        match *self {
            Error::PathIsInvalid(path) => ErrorView::PathIsInvalid(path@),
            Error::SecurityContextFormatMismatch => ErrorView::SecurityContextFormatMismatch,
            Error::UnexpectedSecurityContextFormat => ErrorView::UnexpectedSecurityContextFormat,
            Error::LockPoisoned { operation } => ErrorView::LockPoisoned { operation },
            Error::IO { source, operation } => ErrorView::IO { source, operation },
            Error::IO1Process { source, operation, process_id } => ErrorView::IO1Process {
                source,
                operation,
                process_id,
            },
            Error::IO1Name { source, operation, name } => ErrorView::IO1Name {
                source,
                operation,
                name: name@,
            },
            Error::IO1Path { source, operation, path } => ErrorView::IO1Path {
                source,
                operation,
                path: path@,
            },
            Error::NotUTF8 => ErrorView::NotUTF8,
            Error::IntegerOutOfRange => ErrorView::IntegerOutOfRange,
        }
    }
}

impl ErrorView {
    /// Cause of the failure, for the variants that carry one.
    pub open spec fn io_source(self) -> Option<IoError> {
        match self {
            ErrorView::IO { source, .. } => Some(source),
            ErrorView::IO1Process { source, .. } => Some(source),
            ErrorView::IO1Name { source, .. } => Some(source),
            ErrorView::IO1Path { source, .. } => Some(source),
            _ => None,
        }
    }
}

/// Model of a result whose success value is compared as it is.
pub open spec fn outcome<T>(result: Result<T, Error>) -> Result<T, ErrorView> {
    match result {
        Ok(value) => Ok(value),
        Err(err) => Err(err@),
    }
}

/// Model of a result whose success value is compared by its view.
pub open spec fn outcome_view<T: View>(result: Result<T, Error>) -> Result<T::V, ErrorView> {
    match result {
        Ok(value) => Ok(value@),
        Err(err) => Err(err@),
    }
}

impl Error {
    /// Failure of `operation` caused by `source`.
    pub fn from_io(operation: &'static str, source: IoError) -> (err: Self)
        ensures
            err@ == (ErrorView::IO { source, operation }),
    {
        Error::IO { source, operation }
    }

    /// Failure of `operation`, caused by the error code `errno` that the
    /// operating system reported last.
    pub fn last_io_error(operation: &'static str, errno: i32) -> (err: Self)
        ensures
            err@ == (ErrorView::IO { source: IoError::Os(errno), operation }),
    {
        Error::IO { source: IoError::last_os_error(errno), operation }
    }

    /// Failure of `operation` on the process `process_id`.
    pub fn from_io_pid(operation: &'static str, process_id: i32, source: IoError) -> (err: Self)
        ensures
            err@ == (ErrorView::IO1Process { source, operation, process_id }),
    {
        Error::IO1Process { source, operation, process_id }
    }

    /// Failure of `operation` on the file system object at `path`.
    pub fn from_io_path(operation: &'static str, path: &[u8], source: IoError) -> (err: Self)
        ensures
            err@ == (ErrorView::IO1Path { source, operation, path: path@ }),
    {
        Error::IO1Path { source, operation, path: slice_to_vec(path) }
    }

    /// Failure of `operation` on the object called `name`.
    pub fn from_io_name(operation: &'static str, name: &str, source: IoError) -> (err: Self)
        ensures
            err@ == (ErrorView::IO1Name { source, operation, name: name@ }),
    {
        Error::IO1Name { source, operation, name: name.to_owned() }
    }

    /// The path `path` cannot be handed to the native library.
    pub fn path_is_invalid(path: &[u8]) -> (err: Self)
        ensures
            err@ == ErrorView::PathIsInvalid(path@),
    {
        Error::PathIsInvalid(slice_to_vec(path))
    }

    /// Set the error code of the calling thread to `errno`.
    pub fn set_errno<F: Fn(NativeCall) -> NativeReply>(errno: i32, native: &mut Native<F>)
        requires
            takes_all(*old(native)),
        ensures
            exists|reply: NativeReply| #[trigger]
                performed(*old(native), *final(native), errno_call(errno), reply),
    {
        let _ = perform(native, NativeCall::new(Procedure::SetErrno).number(errno as i64));
    }

    /// Set the error code of the calling thread to zero.
    pub fn clear_errno<F: Fn(NativeCall) -> NativeReply>(native: &mut Native<F>)
        requires
            takes_all(*old(native)),
        ensures
            cleared(*old(native), *final(native)),
    {
        Self::set_errno(0, native);
    }

    /// Cause of the failure, for the variants that carry one.
    pub fn io_source(&self) -> (source: Option<IoError>)
        ensures
            source == self@.io_source(),
    {
        match self {
            Error::IO { source, .. } => Some(*source),
            Error::IO1Process { source, .. } => Some(*source),
            Error::IO1Name { source, .. } => Some(*source),
            Error::IO1Path { source, .. } => Some(*source),
            _ => None,
        }
    }
}

/// Copy of the bytes of `bytes`.
pub fn slice_to_vec(bytes: &[u8]) -> (copy: Vec<u8>)
    ensures
        copy@ == bytes@,
{
    let mut copy: Vec<u8> = Vec::new();
    let mut index: usize = 0;
    while index < bytes.len()
        invariant
            index <= bytes.len(),
            copy@ == bytes@.subrange(0, index as int),
        decreases bytes.len() - index,
    {
        copy.push(bytes[index]);
        index += 1;
        assert(copy@ == bytes@.subrange(0, index as int));
    }
    assert(bytes@.subrange(0, bytes.len() as int) == bytes@);
    copy
}

} // verus!
