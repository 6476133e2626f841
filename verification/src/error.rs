//! The failure conditions this engine can report, each carrying its own
//! process exit code and a user-facing message. Every failure is returned to
//! the caller as a typed value; nothing here is logged or retried.

use vstd::prelude::*;

verus! {

/// Everything that can go wrong inside the layout and resolution engine.
#[derive(Clone, Copy, Debug, PartialEq, Eq, Structural)]
pub enum ErrorDetails {
    /// The host has no resolvable home directory, so no root can be derived.
    NoHomeDirectory,
    /// The shared shim executable was found in none of its candidate
    /// locations.
    ShimExecutableNotFound,
}

/// Process exit codes, one per failure class, mapped exhaustively.
#[derive(Clone, Copy, Debug, PartialEq, Eq, Structural)]
pub enum ExitCode {
    Success,
    UnknownError,
    EnvironmentError,
    ExecutableNotFound,
}

impl ExitCode {
    pub open spec fn spec_code(self) -> int {
        match self {
            ExitCode::Success => 0,
            ExitCode::UnknownError => 1,
            ExitCode::EnvironmentError => 2,
            ExitCode::ExecutableNotFound => 127,
        }
    }

    /// The numeric code handed to the operating system on process exit.
    pub fn code(self) -> (r: i32)
        ensures
            r as int == self.spec_code(),
    {
        match self {
            ExitCode::Success => 0,
            ExitCode::UnknownError => 1,
            ExitCode::EnvironmentError => 2,
            ExitCode::ExecutableNotFound => 127,
        }
    }
}

impl ErrorDetails {
    pub open spec fn spec_exit_code(self) -> ExitCode {
        match self {
            ErrorDetails::NoHomeDirectory => ExitCode::EnvironmentError,
            ErrorDetails::ShimExecutableNotFound => ExitCode::ExecutableNotFound,
        }
    }

    /// The exit code this failure maps to; the match is exhaustive, so a new
    /// failure class cannot be added without choosing its code.
    pub fn exit_code(self) -> (r: ExitCode)
        ensures
            r == self.spec_exit_code(),
    {
        match self {
            ErrorDetails::NoHomeDirectory => ExitCode::EnvironmentError,
            ErrorDetails::ShimExecutableNotFound => ExitCode::ExecutableNotFound,
        }
    }

    pub open spec fn spec_message(self) -> Seq<char> {
        match self {
            ErrorDetails::NoHomeDirectory => "could not determine home directory"@,
            ErrorDetails::ShimExecutableNotFound => "could not locate the shim executable; please reinstall"@,
        }
    }

    /// The user-facing description of this failure.
    pub fn message(self) -> (r: String)
        ensures
            r@ == self.spec_message(),
    {
        match self {
            ErrorDetails::NoHomeDirectory => String::from_str(
                "could not determine home directory",
            ),
            ErrorDetails::ShimExecutableNotFound => String::from_str(
                "could not locate the shim executable; please reinstall",
            ),
        }
    }
}

} // verus!
