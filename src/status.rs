//! Firmware status codes and the three-way outcome of a firmware call.
use vstd::prelude::*;

verus! {

/// The high bit of a raw status code: set on every error code.
pub const ERROR_BIT: u64 = 0x8000_0000_0000_0000;

/// The largest error number that has a name of its own.
pub const LAST_NAMED_ERROR: u64 = 35;

/// A status code returned by the firmware.
///
/// Every raw 64-bit code has exactly one well-formed `Status`: zero is
/// `Success`, a non-zero code with the high bit clear is a `Warning`, and a
/// code with the high bit set is an error, named by its number where the
/// number is a known one and `Unknown` otherwise.
#[derive(Debug, Clone, Copy, PartialEq, Eq, Structural)]
pub enum Status {
    Success,
    LoadError,
    InvalidParameter,
    Unsupported,
    BadBufferSize,
    BufferTooSmall,
    NotReady,
    DeviceError,
    WriteProtected,
    OutOfResources,
    VolumeCorrupted,
    VolumeFull,
    NoMedia,
    MediaChanged,
    NotFound,
    AccessDenied,
    NoResponse,
    NoMapping,
    Timeout,
    NotStarted,
    AlreadyStarted,
    Aborted,
    IcmpError,
    TftpError,
    ProtocolError,
    IncompatibleVersion,
    SecurityViolation,
    CrcError,
    EndOfMedia,
    Error29,
    Error30,
    EndOfFile,
    InvalidLanguage,
    CompromisedData,
    Error34,
    HttpError,
    /// A warning, by its raw code (non-zero, high bit clear).
    Warning(u64),
    /// An error without a name, by its number below the high bit.
    Unknown(u64),
}

/// The error with the given number, if it has a name, else `Unknown(number)`.
pub open spec fn error_with_number(number: u64) -> Status {
    match number {
        1 => Status::LoadError,
        2 => Status::InvalidParameter,
        3 => Status::Unsupported,
        4 => Status::BadBufferSize,
        5 => Status::BufferTooSmall,
        6 => Status::NotReady,
        7 => Status::DeviceError,
        8 => Status::WriteProtected,
        9 => Status::OutOfResources,
        10 => Status::VolumeCorrupted,
        11 => Status::VolumeFull,
        12 => Status::NoMedia,
        13 => Status::MediaChanged,
        14 => Status::NotFound,
        15 => Status::AccessDenied,
        16 => Status::NoResponse,
        17 => Status::NoMapping,
        18 => Status::Timeout,
        19 => Status::NotStarted,
        20 => Status::AlreadyStarted,
        21 => Status::Aborted,
        22 => Status::IcmpError,
        23 => Status::TftpError,
        24 => Status::ProtocolError,
        25 => Status::IncompatibleVersion,
        26 => Status::SecurityViolation,
        27 => Status::CrcError,
        28 => Status::EndOfMedia,
        29 => Status::Error29,
        30 => Status::Error30,
        31 => Status::EndOfFile,
        32 => Status::InvalidLanguage,
        33 => Status::CompromisedData,
        34 => Status::Error34,
        35 => Status::HttpError,
        _ => Status::Unknown(number),
    }
}

/// The `Status` that a raw code stands for.
pub open spec fn status_of_code(code: u64) -> Status {
    if code == 0 {
        Status::Success
    } else if code < ERROR_BIT {
        Status::Warning(code)
    } else {
        error_with_number((code - ERROR_BIT) as u64)
    }
}

impl Status {
    /// The one representation of each raw code: warnings carry a code below
    /// the high bit, unnamed errors a number below it that has no name.
    pub open spec fn wf(self) -> bool {
        match self {
            Status::Warning(code) => 0 < code < ERROR_BIT,
            Status::Unknown(number) => number < ERROR_BIT && (number == 0 || number > LAST_NAMED_ERROR),
            _ => true,
        }
    }

    /// The raw code of a well-formed status.
    pub open spec fn code(self) -> int {
        match self {
            Status::Success => 0,
            Status::LoadError => ERROR_BIT + 1,
            Status::InvalidParameter => ERROR_BIT + 2,
            Status::Unsupported => ERROR_BIT + 3,
            Status::BadBufferSize => ERROR_BIT + 4,
            Status::BufferTooSmall => ERROR_BIT + 5,
            Status::NotReady => ERROR_BIT + 6,
            Status::DeviceError => ERROR_BIT + 7,
            Status::WriteProtected => ERROR_BIT + 8,
            Status::OutOfResources => ERROR_BIT + 9,
            Status::VolumeCorrupted => ERROR_BIT + 10,
            Status::VolumeFull => ERROR_BIT + 11,
            Status::NoMedia => ERROR_BIT + 12,
            Status::MediaChanged => ERROR_BIT + 13,
            Status::NotFound => ERROR_BIT + 14,
            Status::AccessDenied => ERROR_BIT + 15,
            Status::NoResponse => ERROR_BIT + 16,
            Status::NoMapping => ERROR_BIT + 17,
            Status::Timeout => ERROR_BIT + 18,
            Status::NotStarted => ERROR_BIT + 19,
            Status::AlreadyStarted => ERROR_BIT + 20,
            Status::Aborted => ERROR_BIT + 21,
            Status::IcmpError => ERROR_BIT + 22,
            Status::TftpError => ERROR_BIT + 23,
            Status::ProtocolError => ERROR_BIT + 24,
            Status::IncompatibleVersion => ERROR_BIT + 25,
            Status::SecurityViolation => ERROR_BIT + 26,
            Status::CrcError => ERROR_BIT + 27,
            Status::EndOfMedia => ERROR_BIT + 28,
            Status::Error29 => ERROR_BIT + 29,
            Status::Error30 => ERROR_BIT + 30,
            Status::EndOfFile => ERROR_BIT + 31,
            Status::InvalidLanguage => ERROR_BIT + 32,
            Status::CompromisedData => ERROR_BIT + 33,
            Status::Error34 => ERROR_BIT + 34,
            Status::HttpError => ERROR_BIT + 35,
            Status::Warning(code) => code as int,
            Status::Unknown(number) => ERROR_BIT + number as int,
        }
    }

    pub open spec fn spec_is_success(self) -> bool {
        self is Success
    }

    pub open spec fn spec_is_warning(self) -> bool {
        self is Warning
    }

    pub open spec fn spec_is_error(self) -> bool {
        !(self is Success) && !(self is Warning)
    }

    /// Reads a raw firmware code.
    pub fn from_raw(code: u64) -> (r: Status)
        ensures
            r == status_of_code(code),
            r.wf(),
            r.code() == code as int,
    {
        if code == 0 {
            Status::Success
        } else if code < ERROR_BIT {
            Status::Warning(code)
        } else {
            Status::from_error_number(code - ERROR_BIT)
        }
    }

    fn from_error_number(number: u64) -> (r: Status)
        requires
            number < ERROR_BIT,
        ensures
            r == error_with_number(number),
            r.wf(),
            r.code() == ERROR_BIT + number,
    {
        match number {
            1 => Status::LoadError,
            2 => Status::InvalidParameter,
            3 => Status::Unsupported,
            4 => Status::BadBufferSize,
            5 => Status::BufferTooSmall,
            6 => Status::NotReady,
            7 => Status::DeviceError,
            8 => Status::WriteProtected,
            9 => Status::OutOfResources,
            10 => Status::VolumeCorrupted,
            11 => Status::VolumeFull,
            12 => Status::NoMedia,
            13 => Status::MediaChanged,
            14 => Status::NotFound,
            15 => Status::AccessDenied,
            16 => Status::NoResponse,
            17 => Status::NoMapping,
            18 => Status::Timeout,
            19 => Status::NotStarted,
            20 => Status::AlreadyStarted,
            21 => Status::Aborted,
            22 => Status::IcmpError,
            23 => Status::TftpError,
            24 => Status::ProtocolError,
            25 => Status::IncompatibleVersion,
            26 => Status::SecurityViolation,
            27 => Status::CrcError,
            28 => Status::EndOfMedia,
            29 => Status::Error29,
            30 => Status::Error30,
            31 => Status::EndOfFile,
            32 => Status::InvalidLanguage,
            33 => Status::CompromisedData,
            34 => Status::Error34,
            35 => Status::HttpError,
            _ => Status::Unknown(number),
        }
    }

    /// Whether this is the one representation of its raw code.
    pub fn is_canonical(self) -> (r: bool)
        ensures
            r == self.wf(),
    {
        match self {
            Status::Warning(code) => 0 < code && code < ERROR_BIT,
            Status::Unknown(number) => number < ERROR_BIT && (number == 0 || number > LAST_NAMED_ERROR),
            _ => true,
        }
    }

    /// The raw code of this status.
    pub fn raw(self) -> (r: u64)
        requires
            self.wf(),
        ensures
            r as int == self.code(),
    {
        match self {
            Status::Success => 0,
            Status::LoadError => ERROR_BIT + 1,
            Status::InvalidParameter => ERROR_BIT + 2,
            Status::Unsupported => ERROR_BIT + 3,
            Status::BadBufferSize => ERROR_BIT + 4,
            Status::BufferTooSmall => ERROR_BIT + 5,
            Status::NotReady => ERROR_BIT + 6,
            Status::DeviceError => ERROR_BIT + 7,
            Status::WriteProtected => ERROR_BIT + 8,
            Status::OutOfResources => ERROR_BIT + 9,
            Status::VolumeCorrupted => ERROR_BIT + 10,
            Status::VolumeFull => ERROR_BIT + 11,
            Status::NoMedia => ERROR_BIT + 12,
            Status::MediaChanged => ERROR_BIT + 13,
            Status::NotFound => ERROR_BIT + 14,
            Status::AccessDenied => ERROR_BIT + 15,
            Status::NoResponse => ERROR_BIT + 16,
            Status::NoMapping => ERROR_BIT + 17,
            Status::Timeout => ERROR_BIT + 18,
            Status::NotStarted => ERROR_BIT + 19,
            Status::AlreadyStarted => ERROR_BIT + 20,
            Status::Aborted => ERROR_BIT + 21,
            Status::IcmpError => ERROR_BIT + 22,
            Status::TftpError => ERROR_BIT + 23,
            Status::ProtocolError => ERROR_BIT + 24,
            Status::IncompatibleVersion => ERROR_BIT + 25,
            Status::SecurityViolation => ERROR_BIT + 26,
            Status::CrcError => ERROR_BIT + 27,
            Status::EndOfMedia => ERROR_BIT + 28,
            Status::Error29 => ERROR_BIT + 29,
            Status::Error30 => ERROR_BIT + 30,
            Status::EndOfFile => ERROR_BIT + 31,
            Status::InvalidLanguage => ERROR_BIT + 32,
            Status::CompromisedData => ERROR_BIT + 33,
            Status::Error34 => ERROR_BIT + 34,
            Status::HttpError => ERROR_BIT + 35,
            Status::Warning(code) => code,
            Status::Unknown(number) => ERROR_BIT + number,
        }
    }

    /// Whether this is the plain success status.
    pub fn is_success(self) -> (r: bool)
        ensures
            r == self.spec_is_success(),
    {
        matches!(self, Status::Success)
    }

    /// Whether this status is a warning: the call produced its output, maybe degraded.
    pub fn is_warning(self) -> (r: bool)
        ensures
            r == self.spec_is_warning(),
    {
        matches!(self, Status::Warning(_))
    }

    /// Whether this status is an error: the call produced nothing.
    pub fn is_error(self) -> (r: bool)
        ensures
            r == self.spec_is_error(),
    {
        !self.is_success() && !self.is_warning()
    }
}

/// Every raw code falls in exactly one of the three classes, decided by
/// whether it is zero and by its high bit alone.
pub proof fn lemma_classification(code: u64)
    ensures
        status_of_code(code).spec_is_success() <==> code == 0,
        status_of_code(code).spec_is_warning() <==> (code != 0 && code < ERROR_BIT),
        status_of_code(code).spec_is_error() <==> code >= ERROR_BIT,
        status_of_code(code).spec_is_success() as int + status_of_code(code).spec_is_warning() as int
            + status_of_code(code).spec_is_error() as int == 1,
{
}

/// No status is lost on the way to a raw code and back: each well-formed
/// status is the one its raw code stands for.
pub proof fn lemma_code_round_trip(s: Status)
    requires
        s.wf(),
    ensures
        0 <= s.code() <= u64::MAX,
        status_of_code(s.code() as u64) == s,
{
}

/// The outcome of a firmware call that produced a value: plain success, or a
/// warning whose value is valid but may be degraded.
#[derive(Debug, PartialEq, Eq)]
pub enum Completion<T> {
    Success(T),
    Warning(T, Status),
}

/// The outcome of every firmware-backed operation.
pub type UefiResult<T> = Result<Completion<T>, Status>;

impl<T> Completion<T> {
    pub open spec fn spec_value(self) -> T {
        match self {
            Completion::Success(v) => v,
            Completion::Warning(v, _) => v,
        }
    }

    pub open spec fn spec_status(self) -> Status {
        match self {
            Completion::Success(_) => Status::Success,
            Completion::Warning(_, s) => s,
        }
    }

    /// The status that came with the value.
    pub fn status(&self) -> (r: Status)
        ensures
            r == self.spec_status(),
    {
        match self {
            Completion::Success(_) => Status::Success,
            Completion::Warning(_, s) => *s,
        }
    }

    /// The value and the status, apart.
    pub fn split(self) -> (r: (T, Status))
        ensures
            r.0 == self.spec_value(),
            r.1 == self.spec_status(),
    {
        match self {
            Completion::Success(v) => (v, Status::Success),
            Completion::Warning(v, s) => (v, s),
        }
    }

    /// The value, whether or not a warning came with it.
    pub fn unwrap(self) -> (r: T)
        ensures
            r == self.spec_value(),
    {
        match self {
            Completion::Success(v) => v,
            Completion::Warning(v, _) => v,
        }
    }

    /// Adds the status of a later step: a success takes it on as its warning
    /// when it is not a success; an earlier warning is kept.
    pub fn with_status(self, extra: Status) -> (r: Completion<T>)
        ensures
            r == (match self {
                Completion::Success(v) => if extra.spec_is_success() {
                    Completion::Success(v)
                } else {
                    Completion::Warning(v, extra)
                },
                Completion::Warning(v, s) => Completion::Warning(v, s),
            }),
    {
        match self {
            Completion::Success(v) => if extra.is_success() {
                Completion::Success(v)
            } else {
                Completion::Warning(v, extra)
            },
            Completion::Warning(v, s) => Completion::Warning(v, s),
        }
    }

    /// Transforms the value and keeps the status.
    pub fn map<U, F: FnOnce(T) -> U>(self, f: F) -> (r: Completion<U>)
        requires
            f.requires((self.spec_value(),)),
        ensures
            f.ensures((self.spec_value(),), r.spec_value()),
            r.spec_status() == self.spec_status(),
            r is Success <==> self is Success,
    {
        match self {
            Completion::Success(v) => Completion::Success(f(v)),
            Completion::Warning(v, s) => Completion::Warning(f(v), s),
        }
    }
}

impl Status {
    /// Turns this status into an outcome, producing the value only when the
    /// status is not an error.
    pub fn into_with<T, F: FnOnce() -> T>(self, f: F) -> (r: UefiResult<T>)
        requires
            !self.spec_is_error() ==> f.requires(()),
        ensures
            match r {
                Ok(Completion::Success(v)) => self.spec_is_success() && f.ensures((), v),
                Ok(Completion::Warning(v, s)) => self.spec_is_warning() && s == self && f.ensures((), v),
                Err(s) => self.spec_is_error() && s == self,
            },
    {
        if self.is_success() {
            Ok(Completion::Success(f()))
        } else if self.is_warning() {
            Ok(Completion::Warning(f(), self))
        } else {
            Err(self)
        }
    }

    /// This status as an outcome with no value.
    pub fn into_result(self) -> (r: UefiResult<()>)
        ensures
            r == unit_outcome(self),
    {
        self.into_with(|| ())
    }
}

/// The outcome that a status stands for, with the value that the call produced.
pub open spec fn outcome<T>(s: Status, v: T) -> UefiResult<T> {
    if s.spec_is_success() {
        Ok(Completion::Success(v))
    } else if s.spec_is_warning() {
        Ok(Completion::Warning(v, s))
    } else {
        Err(s)
    }
}

/// The outcome with no value that a status stands for.
pub open spec fn unit_outcome(s: Status) -> UefiResult<()> {
    if s.spec_is_success() {
        Ok(Completion::Success(()))
    } else if s.spec_is_warning() {
        Ok(Completion::Warning((), s))
    } else {
        Err(s)
    }
}

/// The two-way view of an outcome: a warning counts as a failure.
pub open spec fn strict<T>(r: UefiResult<T>) -> Result<T, Status> {
    match r {
        Ok(Completion::Success(v)) => Ok(v),
        Ok(Completion::Warning(_, s)) => Err(s),
        Err(s) => Err(s),
    }
}

/// Helpers on outcomes for call sites that cannot accept a degraded result.
pub trait ResultExt<T>: Sized {
    spec fn spec_strict(self) -> Result<T, Status>;

    /// Treats warnings as errors.
    fn warning_as_error(self) -> (r: Result<T, Status>)
        ensures
            r == self.spec_strict(),
    ;

    /// The value of a plain success.
    fn unwrap_success(self) -> (r: T)
        requires
            self.spec_strict() is Ok,
        ensures
            Ok::<T, Status>(r) == self.spec_strict(),
    ;

    /// The value of a plain success; the message names the fault otherwise.
    fn expect_success(self, msg: &str) -> (r: T)
        requires
            self.spec_strict() is Ok,
        ensures
            Ok::<T, Status>(r) == self.spec_strict(),
    ;
}

impl<T> ResultExt<T> for UefiResult<T> {
    open spec fn spec_strict(self) -> Result<T, Status> {
        strict(self)
    }

    fn warning_as_error(self) -> (r: Result<T, Status>) {
        match self {
            Ok(Completion::Success(v)) => Ok(v),
            Ok(Completion::Warning(_, s)) => Err(s),
            Err(s) => Err(s),
        }
    }

    fn unwrap_success(self) -> (r: T) {
        self.warning_as_error().unwrap()
    }

    fn expect_success(self, msg: &str) -> (r: T) {
        self.unwrap_success()
    }
}

/// Transforms the value of an outcome, if there is one.
pub fn map_inner<T, U, F: FnOnce(T) -> U>(r: UefiResult<T>, f: F) -> (out: UefiResult<U>)
    requires
        r is Ok ==> f.requires((r->Ok_0.spec_value(),)),
    ensures
        match (r, out) {
            (Ok(c), Ok(d)) => f.ensures((c.spec_value(),), d.spec_value())
                && d.spec_status() == c.spec_status() && (d is Success <==> c is Success),
            (Err(s), Err(t)) => s == t,
            _ => false,
        },
{
    match r {
        Ok(c) => Ok(c.map(f)),
        Err(s) => Err(s),
    }
}

} // verus!
