//! Errors and exit signals shared by the whole shell.

use vstd::prelude::*;

verus! {

/// An error with a human-readable message.
#[derive(Debug)]
pub struct RshError {
    pub message: String,
}

impl RshError {
    /// An error carrying `message`.
    pub fn new(message: &str) -> (e: RshError)
        ensures
            e.message@ == message@,
    {
        RshError { message: message.to_owned() }
    }
}

/// Whether the session goes on or ends after a command.
#[derive(Debug, PartialEq, Eq, Structural, Clone, Copy)]
pub enum StatusCode {
    Success,
    Exit,
}

/// The coarse result of running a command: a status and an exit code.
#[derive(Debug, PartialEq, Eq, Structural, Clone, Copy)]
pub struct Status {
    status_code: StatusCode,
    exit_code: i32,
}

impl Status {
    pub closed spec fn status_code(self) -> StatusCode {
        self.status_code
    }

    pub closed spec fn exit_code(self) -> i32 {
        self.exit_code
    }

    pub fn new(status_code: StatusCode, exit_code: i32) -> (s: Status)
        ensures
            s.status_code() == status_code,
            s.exit_code() == exit_code,
    {
        Status { status_code, exit_code }
    }

    /// The status of a command that succeeded: `Success` with exit code 0.
    pub fn success() -> (s: Status)
        ensures
            s.status_code() == StatusCode::Success,
            s.exit_code() == 0,
    {
        Status { status_code: StatusCode::Success, exit_code: 0 }
    }

    pub fn get_status_code(&self) -> (c: StatusCode)
        ensures
            c == self.status_code(),
    {
        self.status_code
    }

    pub fn get_exit_code(&self) -> (c: i32)
        ensures
            c == self.exit_code(),
    {
        self.exit_code
    }
}

} // verus!
