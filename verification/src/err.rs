//! The error taxonomy of the tracer: bad command-line arguments, a path that
//! cannot be decoded, a failed kernel call, and a failed filter setup.
//! Every variant carries plain data; the caller turns it into a message.

use vstd::prelude::*;

verus! {

/// Why the command line was rejected.
#[derive(Clone, Copy, Debug, PartialEq, Eq, Structural)]
pub enum ArgReason {
    /// A rule argument holds more than one `=`.
    BadParts,
    /// A rule argument starts with `=`: the path to match is empty.
    EmptyPath,
    /// An argument holds a NUL byte, which no pathname handed to the kernel
    /// can carry.
    NulByte,
    /// No program to execute was given after the rules.
    NoProgram,
}

/// Which phase of installing the syscall filter failed.
#[derive(Clone, Copy, Debug, PartialEq, Eq, Structural)]
pub enum SeccompPhase {
    Init,
    Rule,
    Load,
}

/// One error of the tracer: a usage error, an undecodable tracee path, a
/// failed kernel call with its error number, or a failed filter phase.
#[derive(Clone, Copy, Debug, PartialEq, Eq, Structural)]
pub enum Error {
    Arg { reason: ArgReason },
    Parse,
    OS { errno: i32 },
    Seccomp { phase: SeccompPhase },
}

impl Error {
    /// Whether this error comes from command-line handling, so that the
    /// caller prints the usage text beside it.
    pub fn is_usage(&self) -> (r: bool)
        ensures
            r == (self matches Error::Arg { .. }),
    {
        match self {
            Error::Arg { .. } => true,
            _ => false,
        }
    }
}

} // verus!
