use vstd::prelude::*;

verus! {

/// Why an invocation was refused. Every variant is raised before the stored
/// record is written, so a failed call leaves it as it was.
#[derive(Clone, Copy, Debug, PartialEq, Eq, Structural)]
pub enum ScheduleError {
    /// No account was supplied to the invocation.
    MissingAccount,
    /// The target account is owned by another program.
    Unauthorized,
    /// The instruction is shorter than three bytes, or its day or hour is out of range.
    InvalidInstruction,
    /// The stored buffer does not hold exactly one encoded record.
    CorruptState,
    /// The destination buffer is too small to take an encoded record.
    WriteFailure,
}

} // verus!
