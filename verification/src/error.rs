//! Error values that the scripts exit with.
use vstd::prelude::*;

verus! {

/// What a failed syscall reports.
#[derive(Clone, Copy, Debug, PartialEq, Eq)]
pub enum SysErrorKind {
    /// The index is past the last item of the source.
    IndexOutOfBound,
    /// The item has no such field (a cell without type script, a header that is not a dependency).
    ItemMissing,
    /// The buffer was too small; holds the length of the data.
    LengthNotEnough(usize),
    /// The data is not well encoded.
    Encoding,
    /// Waiting for a spawned script failed.
    WaitFailure,
    /// The file descriptor is not valid.
    InvalidFd,
    /// The other end of the pipe is closed.
    OtherEndClosed,
    /// Too many scripts were spawned.
    MaxVmsSpawned,
    /// Too many file descriptors were created.
    MaxFdsCreated,
    /// Any other error number.
    Unknown(u64),
}

/// A numbered script error: the number is the script's exit code.
#[derive(Clone, Copy, Debug)]
pub struct Error {
    pub err: u32,
}

/// The exit code of a syscall error that a script passes on.
pub open spec fn sys_error_code(e: SysErrorKind) -> u32 {
    match e {
        SysErrorKind::IndexOutOfBound => 1,
        SysErrorKind::ItemMissing => 2,
        SysErrorKind::LengthNotEnough(_) => 3,
        SysErrorKind::Encoding => 4,
        _ => 0,
    }
}

/// Whether the scripts convert the syscall error into an error of their own;
/// the others (unknown to them) make them abort.
pub open spec fn converted(e: SysErrorKind) -> bool {
    e is IndexOutOfBound || e is ItemMissing || e is LengthNotEnough || e is Encoding
}

/// How a script that exits with numbered errors stops on a syscall error.
pub open spec fn sys_halt_of(e: SysErrorKind) -> Halt<Error> {
    if converted(e) {
        Halt::Fail(Error { err: sys_error_code(e) })
    } else {
        Halt::Abort
    }
}

/// How a script that exits with named errors stops on a syscall error.
pub open spec fn sys_script_halt_of(e: SysErrorKind) -> Halt<ScriptError> {
    if converted(e) {
        Halt::Fail(sys_script_error(e))
    } else {
        Halt::Abort
    }
}

/// How a script that exits with numbered errors stops on a syscall error.
pub fn halt_of_sys_kind(e: SysErrorKind) -> (r: Halt<Error>)
    ensures
        r == sys_halt_of(e),
{
    match e {
        SysErrorKind::IndexOutOfBound => Halt::Fail(Error { err: 1 }),
        SysErrorKind::ItemMissing => Halt::Fail(Error { err: 2 }),
        SysErrorKind::LengthNotEnough(_) => Halt::Fail(Error { err: 3 }),
        SysErrorKind::Encoding => Halt::Fail(Error { err: 4 }),
        _ => Halt::Abort,
    }
}

/// How a script that exits with named errors stops on a syscall error.
pub fn script_halt_of_sys_kind(e: SysErrorKind) -> (r: Halt<ScriptError>)
    ensures
        r == sys_script_halt_of(e),
{
    match e {
        SysErrorKind::IndexOutOfBound => Halt::Fail(ScriptError::IndexOutOfBound),
        SysErrorKind::ItemMissing => Halt::Fail(ScriptError::ItemMissing),
        SysErrorKind::LengthNotEnough(_) => Halt::Fail(ScriptError::LengthNotEnough),
        SysErrorKind::Encoding => Halt::Fail(ScriptError::Encoding),
        _ => Halt::Abort,
    }
}

impl Error {
    /// The error that a syscall error becomes.  An error that the scripts do
    /// not know is not converted (a script aborts on it), so it is ruled out here.
    pub fn from_sys(e: SysErrorKind) -> (r: Error)
        requires
            converted(e),
        ensures
            r.err == sys_error_code(e),
    {
        match e {
            SysErrorKind::IndexOutOfBound => Error { err: 1 },
            SysErrorKind::ItemMissing => Error { err: 2 },
            SysErrorKind::LengthNotEnough(_) => Error { err: 3 },
            SysErrorKind::Encoding => Error { err: 4 },
            _ => Error { err: 0 },
        }
    }
}

impl From<u32> for Error {
    fn from(err: u32) -> (r: Error) {
        Error { err }
    }
}

impl vstd::std_specs::convert::FromSpecImpl<u32> for Error {
    open spec fn obeys_from_spec() -> bool {
        true
    }

    open spec fn from_spec(err: u32) -> Error {
        Error { err }
    }
}

/// Named errors of the scripts that report their failures by name.
#[derive(Clone, Copy, Debug, PartialEq, Eq)]
pub enum ScriptError {
    IndexOutOfBound,
    ItemMissing,
    LengthNotEnough,
    Encoding,
    MyError,
    ErrArgs,
    ErrZero,
    ErrMoreOneCell,
    ErrDifferenceData,
    ErrOutputData,
    ErrIndex,
    ErrCDP,
    ErrAmount,
    ErrNotExist,
    ErrorMode,
    ErrorArgs,
}

/// The named error that a syscall error becomes.
pub open spec fn sys_script_error(e: SysErrorKind) -> ScriptError {
    match e {
        SysErrorKind::IndexOutOfBound => ScriptError::IndexOutOfBound,
        SysErrorKind::ItemMissing => ScriptError::ItemMissing,
        SysErrorKind::LengthNotEnough(_) => ScriptError::LengthNotEnough,
        _ => ScriptError::Encoding,
    }
}

impl ScriptError {
    /// The named error that a syscall error becomes; errors that the scripts
    /// do not know abort them and are ruled out here.
    pub fn from_sys(e: SysErrorKind) -> (r: ScriptError)
        requires
            converted(e),
        ensures
            r == sys_script_error(e),
    {
        match e {
            SysErrorKind::IndexOutOfBound => ScriptError::IndexOutOfBound,
            SysErrorKind::ItemMissing => ScriptError::ItemMissing,
            SysErrorKind::LengthNotEnough(_) => ScriptError::LengthNotEnough,
            _ => ScriptError::Encoding,
        }
    }
}

/// How a script stops without accepting the transaction.
#[derive(Clone, Copy, Debug)]
pub enum Halt<E> {
    /// The script returns the error `E`.
    Fail(E),
    /// The script panics (a failed assertion or unwrap, a slice out of
    /// range, an arithmetic overflow) and exits with the panic code.
    Abort,
}

/// The exit code of a named error: the syscall errors first, then the
/// scripts' own errors in the order they are declared.
pub open spec fn script_error_code(e: ScriptError) -> i8 {
    match e {
        ScriptError::IndexOutOfBound => 1,
        ScriptError::ItemMissing => 2,
        ScriptError::LengthNotEnough => 3,
        ScriptError::Encoding => 4,
        ScriptError::MyError => 5,
        ScriptError::ErrArgs => 6,
        ScriptError::ErrZero => 7,
        ScriptError::ErrMoreOneCell => 8,
        ScriptError::ErrDifferenceData => 9,
        ScriptError::ErrOutputData => 10,
        ScriptError::ErrIndex => 11,
        ScriptError::ErrCDP => 12,
        ScriptError::ErrAmount => 13,
        ScriptError::ErrNotExist => 14,
        ScriptError::ErrorMode => 15,
        ScriptError::ErrorArgs => 16,
    }
}

impl ScriptError {
    /// The exit code of this error.
    pub fn code(self) -> (r: i8)
        ensures
            r == script_error_code(self),
    {
        match self {
            ScriptError::IndexOutOfBound => 1,
            ScriptError::ItemMissing => 2,
            ScriptError::LengthNotEnough => 3,
            ScriptError::Encoding => 4,
            ScriptError::MyError => 5,
            ScriptError::ErrArgs => 6,
            ScriptError::ErrZero => 7,
            ScriptError::ErrMoreOneCell => 8,
            ScriptError::ErrDifferenceData => 9,
            ScriptError::ErrOutputData => 10,
            ScriptError::ErrIndex => 11,
            ScriptError::ErrCDP => 12,
            ScriptError::ErrAmount => 13,
            ScriptError::ErrNotExist => 14,
            ScriptError::ErrorMode => 15,
            ScriptError::ErrorArgs => 16,
        }
    }
}

/// The exit code of a script that aborts.
pub const PANIC_EXIT_CODE: i8 = -1;

/// The exit code of a script with numbered errors: zero when it accepts,
/// the error's number (its low byte) when it fails, the panic code when it aborts.
pub fn numbered_exit_code(r: &Result<(), Halt<Error>>) -> (c: i8)
    ensures
        c == match *r {
            Ok(_) => 0i8,
            Err(Halt::Fail(e)) => e.err as i8,
            Err(Halt::Abort) => PANIC_EXIT_CODE,
        },
{
    match r {
        Ok(_) => 0,
        Err(Halt::Fail(e)) => e.err as i8,
        Err(Halt::Abort) => PANIC_EXIT_CODE,
    }
}

/// The exit code of a script with named errors.
pub fn named_exit_code(r: &Result<(), Halt<ScriptError>>) -> (c: i8)
    ensures
        c == match *r {
            Ok(_) => 0i8,
            Err(Halt::Fail(e)) => script_error_code(e),
            Err(Halt::Abort) => PANIC_EXIT_CODE,
        },
{
    match r {
        Ok(_) => 0,
        Err(Halt::Fail(e)) => e.code(),
        Err(Halt::Abort) => PANIC_EXIT_CODE,
    }
}

} // verus!
