//! The decisions of semihosting, the channel through which a program under a
//! debugger reports to and writes on its host: which reason code an exit
//! reports, what the reply to an open means, and how a write goes on after
//! each reply. Issuing the calls themselves is up to the caller.
use vstd::prelude::*;

verus! {

/// Declares `core::fmt::Error`, the error of a formatting write, which a
/// host stream's `Error` carries.
#[verifier::external_type_specification]
#[verifier::external_body]
pub struct ExFmtError(core::fmt::Error);

/// Semihosting operation number of OPEN.
pub const SEMIH_OPEN: usize = 0x01;

/// Semihosting operation number of WRITEC.
pub const SEMIH_WRITEC: usize = 0x03;

/// Semihosting operation number of WRITE0.
pub const SEMIH_WRITE0: usize = 0x04;

/// Semihosting operation number of WRITE.
pub const SEMIH_WRITE: usize = 0x05;

/// Semihosting operation number of REPORT_EXCEPTION.
pub const SEMIH_REPORT_EXCEPTION: usize = 0x18;

/// OPEN mode of fopen "w".
pub const W_TRUNC: usize = 4;

/// OPEN mode of fopen "a".
pub const W_APPEND: usize = 8;

/// What a semihosting call returns, given what the host left in r0: WRITEC
/// and WRITE0 return nothing, so their r0 is reported as 0; any other
/// operation's r0 is its result.
pub fn call_reply(nr: usize, r0: usize) -> (r: usize)
    ensures
        (nr == SEMIH_WRITEC || nr == SEMIH_WRITE0) ==> r == 0,
        !(nr == SEMIH_WRITEC || nr == SEMIH_WRITE0) ==> r == r0,
{
    if nr == SEMIH_WRITEC || nr == SEMIH_WRITE0 {
        0
    } else {
        r0
    }
}

/// Status of the `exit` call.
pub type ExitStatus = Result<(), ()>;

/// Reason codes reported to the debugger, after section 5.5.2 of the ADS
/// Debug Target Guide (DUI0058).
#[derive(Clone, Copy, Debug, PartialEq, Eq)]
pub enum Exception {
    BranchThroughZero,
    UndefinedInstr,
    SoftwareInterrupt,
    PrefetchAbort,
    DataAbort,
    AddressException,
    IRQ,
    FIQ,
    BreakPoint,
    WatchPoint,
    StepComplete,
    RunTimeErrorUnknown,
    InternalError,
    UserInterruption,
    ApplicationExit,
    StackOverflow,
    DivisionByZero,
    OSSpecific,
}

/// The reason code of an exception: hardware reasons from 0x20000 up,
/// software reasons from 0x20020 up.
pub open spec fn exception_code(e: Exception) -> usize {
    match e {
        Exception::BranchThroughZero => 0x20000,
        Exception::UndefinedInstr => 0x20001,
        Exception::SoftwareInterrupt => 0x20002,
        Exception::PrefetchAbort => 0x20003,
        Exception::DataAbort => 0x20004,
        Exception::AddressException => 0x20005,
        Exception::IRQ => 0x20006,
        Exception::FIQ => 0x20007,
        Exception::BreakPoint => 0x20020,
        Exception::WatchPoint => 0x20021,
        Exception::StepComplete => 0x20022,
        Exception::RunTimeErrorUnknown => 0x20023,
        Exception::InternalError => 0x20024,
        Exception::UserInterruption => 0x20025,
        Exception::ApplicationExit => 0x20026,
        Exception::StackOverflow => 0x20027,
        Exception::DivisionByZero => 0x20028,
        Exception::OSSpecific => 0x20029,
    }
}

impl Exception {
    /// The reason code reported to the debugger.
    pub fn code(&self) -> (r: usize)
        ensures
            r == exception_code(*self),
    {
        match self {
            Exception::BranchThroughZero => 0x20000,
            Exception::UndefinedInstr => 0x20001,
            Exception::SoftwareInterrupt => 0x20002,
            Exception::PrefetchAbort => 0x20003,
            Exception::DataAbort => 0x20004,
            Exception::AddressException => 0x20005,
            Exception::IRQ => 0x20006,
            Exception::FIQ => 0x20007,
            Exception::BreakPoint => 0x20020,
            Exception::WatchPoint => 0x20021,
            Exception::StepComplete => 0x20022,
            Exception::RunTimeErrorUnknown => 0x20023,
            Exception::InternalError => 0x20024,
            Exception::UserInterruption => 0x20025,
            Exception::ApplicationExit => 0x20026,
            Exception::StackOverflow => 0x20027,
            Exception::DivisionByZero => 0x20028,
            Exception::OSSpecific => 0x20029,
        }
    }
}

/// The exception that `exit` reports for `status`: the application's exit
/// on success, an unknown run-time error on failure.
pub fn exit_reason(status: ExitStatus) -> (r: Exception)
    ensures
        status is Ok ==> r == Exception::ApplicationExit,
        status is Err ==> r == Exception::RunTimeErrorUnknown,
{
    match status {
        Ok(()) => Exception::ApplicationExit,
        Err(()) => Exception::RunTimeErrorUnknown,
    }
}

/// The operation number and the argument of the semihosting call that
/// reports `reason` to the debugger.
pub fn report_exception_call(reason: Exception) -> (r: (usize, usize))
    ensures
        r == (SEMIH_REPORT_EXCEPTION, exception_code(reason)),
{
    (SEMIH_REPORT_EXCEPTION, reason.code())
}

/// Errors of the host streams.
#[derive(Debug, Clone, Copy)]
pub enum Error {
    /// The host refused to open the stream.
    OpenFailed,
    /// A formatting write failed.
    FmtFailed(core::fmt::Error),
}

impl From<core::fmt::Error> for Error {
    fn from(e: core::fmt::Error) -> (r: Self)
        ensures
            r == Error::FmtFailed(e),
    {
        Error::FmtFailed(e)
    }
}

impl vstd::std_specs::convert::FromSpecImpl<core::fmt::Error> for Error {
    open spec fn obeys_from_spec() -> bool {
        true
    }

    open spec fn from_spec(e: core::fmt::Error) -> Error {
        Error::FmtFailed(e)
    }
}

/// A byte stream to the host (e.g., host's stdout or stderr).
#[derive(Clone, Copy)]
pub struct HostStream {
    fd: usize,
}

impl HostStream {
    /// The host's handle of the stream.
    pub closed spec fn handle(&self) -> usize {
        self.fd
    }

    /// The host's handle of the stream.
    pub fn fd(&self) -> (r: usize)
        ensures
            r == self.handle(),
    {
        self.fd
    }
}

/// The stream that an OPEN call answered with `reply`: the host reports a
/// failure as -1, any other reply is the new stream's handle.
pub fn open_result(reply: usize) -> (r: Result<HostStream, Error>)
    ensures
        reply == usize::MAX <==> r is Err,
        r is Err ==> r->Err_0 is OpenFailed,
        r is Ok ==> r->Ok_0.handle() == reply,
{
    if reply == usize::MAX {
        Err(Error::OpenFailed)
    } else {
        Ok(HostStream { fd: reply })
    }
}

/// How a write goes on once the host has answered a WRITE call.
#[derive(Clone, Copy, Debug, PartialEq, Eq)]
pub enum WriteProgress {
    /// Every byte was written.
    Done,
    /// This many bytes, the end of what was handed over, are left to write.
    Remaining(usize),
    /// The host reported an error.
    Failed,
}

/// How a write of `pending` bytes goes on after the host answered `reply`,
/// the number of bytes it did not write: none left means done, a number up
/// to `pending` leaves that many bytes at the end still to write, and any
/// larger reply is an error.
pub fn write_progress(pending: usize, reply: usize) -> (r: WriteProgress)
    ensures
        reply == 0 ==> r == WriteProgress::Done,
        0 < reply <= pending ==> r == WriteProgress::Remaining(reply),
        reply > pending ==> r == WriteProgress::Failed,
{
    if reply == 0 {
        WriteProgress::Done
    } else if reply <= pending {
        WriteProgress::Remaining(reply)
    } else {
        WriteProgress::Failed
    }
}

} // verus!
