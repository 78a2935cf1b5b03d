//! Joining the three activities of one subprocess capture: the wait for
//! the child and the drains of its two output streams.
//!
//! The caller spawns the child, runs the two drains beside the wait, and
//! records here what each gave as it ends. The capture is reported only
//! once all three are in: when a child reports termination its pipes may
//! still hold bytes, so an exit status without both drains is a truncated
//! capture.

use vstd::prelude::*;
use crate::drain::DrainFailure;
use crate::process::{CapturedOutput, ExitStatus};

verus! {

/// Why a capture gave no output.
#[derive(Clone, Debug, PartialEq, Eq)]
pub enum CaptureFailure {
    /// The child could not be started. Nothing was captured.
    Spawn(String),
    /// Waiting for the child failed.
    Wait(String),
    /// The drain of standard output failed.
    Stdout(DrainFailure),
    /// The drain of standard error failed.
    Stderr(DrainFailure),
}

/// What the caller is to do next.
#[derive(Clone, Copy, Debug, PartialEq, Eq, Structural)]
pub enum CaptureStep {
    /// Wait for the child to exit.
    AwaitExit,
    /// Join the drain of standard output.
    JoinStdout,
    /// Join the drain of standard error.
    JoinStderr,
    /// Everything is in: take the report.
    Report,
}

/// The state of one capture.
#[derive(Debug)]
pub struct Capture {
    pub spawn_failure: Option<String>,
    pub exit: Option<Result<ExitStatus, String>>,
    pub stdout: Option<Result<Vec<u8>, DrainFailure>>,
    pub stderr: Option<Result<Vec<u8>, DrainFailure>>,
}

impl Capture {
    /// The wait and both drains have ended, or the child never started.
    pub open spec fn complete(&self) -> bool {
        self.spawn_failure is Some || (self.exit is Some && self.stdout is Some
            && self.stderr is Some)
    }

    /// The capture of a child that has just been started.
    pub fn spawned() -> (capture: Capture)
        ensures
            capture.spawn_failure is None,
            capture.exit is None,
            capture.stdout is None,
            capture.stderr is None,
    {
        Capture { spawn_failure: None, exit: None, stdout: None, stderr: None }
    }

    /// The capture of a child that could not be started: it is complete at
    /// once, with nothing captured.
    pub fn spawn_failed(detail: String) -> (capture: Capture)
        ensures
            capture.spawn_failure == Some(detail),
            capture.exit is None,
            capture.stdout is None,
            capture.stderr is None,
            capture.complete(),
    {
        Capture { spawn_failure: Some(detail), exit: None, stdout: None, stderr: None }
    }

    /// What remains to be done, in the order wait, standard output,
    /// standard error. `Report` comes exactly when the capture is complete.
    pub fn next_step(&self) -> (step: CaptureStep)
        ensures
            step == if self.spawn_failure is Some {
                CaptureStep::Report
            } else if self.exit is None {
                CaptureStep::AwaitExit
            } else if self.stdout is None {
                CaptureStep::JoinStdout
            } else if self.stderr is None {
                CaptureStep::JoinStderr
            } else {
                CaptureStep::Report
            },
            step == CaptureStep::Report <==> self.complete(),
    {
        if self.spawn_failure.is_some() {
            CaptureStep::Report
        } else if self.exit.is_none() {
            CaptureStep::AwaitExit
        } else if self.stdout.is_none() {
            CaptureStep::JoinStdout
        } else if self.stderr.is_none() {
            CaptureStep::JoinStderr
        } else {
            CaptureStep::Report
        }
    }

    /// Records how the wait for the child ended. The first record stands.
    pub fn child_exited(&mut self, waited: Result<ExitStatus, String>)
        ensures
            final(self).exit == if old(self).exit is None {
                Some(waited)
            } else {
                old(self).exit
            },
            final(self).spawn_failure == old(self).spawn_failure,
            final(self).stdout == old(self).stdout,
            final(self).stderr == old(self).stderr,
    {
        if self.exit.is_none() {
            self.exit = Some(waited);
        }
    }

    /// Records how the drain of standard output ended. The first record
    /// stands.
    pub fn stdout_drained(&mut self, drained: Result<Vec<u8>, DrainFailure>)
        ensures
            final(self).stdout == if old(self).stdout is None {
                Some(drained)
            } else {
                old(self).stdout
            },
            final(self).spawn_failure == old(self).spawn_failure,
            final(self).exit == old(self).exit,
            final(self).stderr == old(self).stderr,
    {
        if self.stdout.is_none() {
            self.stdout = Some(drained);
        }
    }

    /// Records how the drain of standard error ended. The first record
    /// stands.
    pub fn stderr_drained(&mut self, drained: Result<Vec<u8>, DrainFailure>)
        ensures
            final(self).stderr == if old(self).stderr is None {
                Some(drained)
            } else {
                old(self).stderr
            },
            final(self).spawn_failure == old(self).spawn_failure,
            final(self).exit == old(self).exit,
            final(self).stdout == old(self).stdout,
    {
        if self.stderr.is_none() {
            self.stderr = Some(drained);
        }
    }

    /// The outcome of the capture, or `None` while anything is still
    /// running.
    ///
    /// A child that never started gives `Spawn`. Otherwise the first of
    /// wait, standard output and standard error that failed gives the
    /// failure; when none did, the output holds the exit status and both
    /// buffers as the drains returned them.
    pub fn report(self) -> (r: Option<Result<CapturedOutput, CaptureFailure>>)
        ensures
            r is Some <==> self.complete(),
            r matches Some(outcome) ==> match outcome {
                Err(CaptureFailure::Spawn(detail)) => self.spawn_failure == Some(detail),
                Err(CaptureFailure::Wait(detail)) => {
                    &&& self.spawn_failure is None
                    &&& self.exit == Some(Err::<ExitStatus, String>(detail))
                },
                Err(CaptureFailure::Stdout(failure)) => {
                    &&& self.spawn_failure is None
                    &&& self.exit matches Some(Ok(_))
                    &&& self.stdout == Some(Err::<Vec<u8>, DrainFailure>(failure))
                },
                Err(CaptureFailure::Stderr(failure)) => {
                    &&& self.spawn_failure is None
                    &&& self.exit matches Some(Ok(_))
                    &&& self.stdout matches Some(Ok(_))
                    &&& self.stderr == Some(Err::<Vec<u8>, DrainFailure>(failure))
                },
                Ok(output) => {
                    &&& self.spawn_failure is None
                    &&& self.exit == Some(Ok::<ExitStatus, String>(output.exit_status))
                    &&& self.stdout == Some(Ok::<Vec<u8>, DrainFailure>(output.stdout))
                    &&& self.stderr == Some(Ok::<Vec<u8>, DrainFailure>(output.stderr))
                },
            },
    {
        let Capture { spawn_failure, exit, stdout, stderr } = self;
        match spawn_failure {
            Some(detail) => {
                return Some(Err(CaptureFailure::Spawn(detail)));
            },
            None => {},
        }
        match (exit, stdout, stderr) {
            (Some(exit), Some(stdout), Some(stderr)) => {
                let exit_status = match exit {
                    Ok(status) => status,
                    Err(detail) => {
                        return Some(Err(CaptureFailure::Wait(detail)));
                    },
                };
                let stdout = match stdout {
                    Ok(bytes) => bytes,
                    Err(failure) => {
                        return Some(Err(CaptureFailure::Stdout(failure)));
                    },
                };
                let stderr = match stderr {
                    Ok(bytes) => bytes,
                    Err(failure) => {
                        return Some(Err(CaptureFailure::Stderr(failure)));
                    },
                };
                Some(Ok(CapturedOutput { exit_status, stdout, stderr }))
            },
            _ => None,
        }
    }
}

} // verus!
