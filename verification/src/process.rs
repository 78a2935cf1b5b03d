//! What a finished child process leaves behind.

use vstd::prelude::*;

verus! {

/// How a child process ended: its exit code, or `None` when it ended
/// without one (terminated by a signal).
#[derive(Clone, Copy, Debug, PartialEq, Eq, Structural)]
pub struct ExitStatus {
    pub code: Option<i32>,
}

impl ExitStatus {
    /// The process ran to its end and reported success.
    pub open spec fn succeeded(self) -> bool {
        self.code == Some(0i32)
    }

    /// The status of a process that exited with `code`.
    pub fn exited(code: i32) -> (status: ExitStatus)
        ensures
            status.code == Some(code),
    {
        ExitStatus { code: Some(code) }
    }

    /// Whether the process reported success: exit code zero.
    pub fn success(&self) -> (ok: bool)
        ensures
            ok == self.succeeded(),
    {
        match self.code {
            Some(code) => code == 0,
            None => false,
        }
    }
}

/// The record of one child process: how it ended and every byte it wrote
/// to its two output streams.
#[derive(Clone, Debug, PartialEq, Eq)]
pub struct CapturedOutput {
    pub exit_status: ExitStatus,
    pub stdout: Vec<u8>,
    pub stderr: Vec<u8>,
}

} // verus!
