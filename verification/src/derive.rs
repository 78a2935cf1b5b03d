//! Values derived from outside the wizard: what each source gives for what
//! the tools it runs left behind.

use vstd::prelude::*;
use vstd::utf8::{decode_utf8, valid_utf8};
use crate::capture::CaptureFailure;
use crate::lookup::{git_identity, git_repository, identity, repository, LookupFailure};
use crate::process::CapturedOutput;
use crate::text::lossy_text;
use crate::toolchain::{extract_toolchain_version, extraction, ExtractionFailure};

verus! {

/// Why a source gave no value. Each of these sends the user back to the
/// menu; none ends the run.
#[derive(Clone, Debug, PartialEq, Eq)]
pub enum DeriveFailure {
    /// The tool could not be run, or its output could not be captured
    /// whole.
    Capture(CaptureFailure),
    /// The helper's output names no toolchain version.
    Extraction(ExtractionFailure),
    /// Version control gave no answer.
    Lookup(LookupFailure),
}

/// The toolchain version, from the capture of the helper run.
///
/// A capture that failed gives `Capture` with its failure; a capture that
/// is whole gives what extraction finds in it, both streams decoded
/// permissively. A stream of well-formed UTF-8 decodes to exactly the text
/// it encodes.
pub fn toolchain_answer(report: Result<CapturedOutput, CaptureFailure>) -> (r: Result<
    String,
    DeriveFailure,
>)
    ensures
        match report {
            Err(failure) => r == Err::<String, DeriveFailure>(DeriveFailure::Capture(failure)),
            Ok(output) => match extraction(
                output.exit_status,
                lossy_text(output.stdout@),
                lossy_text(output.stderr@),
            ) {
                Ok(version) => r matches Ok(text) && text@ == version,
                Err(failure) => r matches Err(DeriveFailure::Extraction(f)) && f@ == failure,
            },
        },
        report matches Ok(output) ==> {
            &&& valid_utf8(output.stdout@) ==> lossy_text(output.stdout@) == decode_utf8(
                output.stdout@,
            )
            &&& valid_utf8(output.stderr@) ==> lossy_text(output.stderr@) == decode_utf8(
                output.stderr@,
            )
        },
{
    match report {
        Err(failure) => Err(DeriveFailure::Capture(failure)),
        Ok(output) => match extract_toolchain_version(&output) {
            Ok(version) => Ok(version.token),
            Err(failure) => Err(DeriveFailure::Extraction(failure)),
        },
    }
}

/// The author, from the two runs that look up the user's name and address.
///
/// The first run that could not be made gives `Capture`; otherwise a
/// lookup that gave no answer gives `Lookup`.
pub fn identity_answer(
    name: Result<CapturedOutput, CaptureFailure>,
    email: Result<CapturedOutput, CaptureFailure>,
) -> (r: Result<String, DeriveFailure>)
    ensures
        match (name, email) {
            (Err(failure), _) => r == Err::<String, DeriveFailure>(
                DeriveFailure::Capture(failure),
            ),
            (Ok(_), Err(failure)) => r == Err::<String, DeriveFailure>(
                DeriveFailure::Capture(failure),
            ),
            (Ok(n), Ok(e)) => match identity(
                n.exit_status,
                n.stdout@,
                e.exit_status,
                e.stdout@,
            ) {
                Ok(author) => r matches Ok(text) && text@ == author,
                Err(failure) => r == Err::<String, DeriveFailure>(DeriveFailure::Lookup(failure)),
            },
        },
{
    let name = match name {
        Ok(output) => output,
        Err(failure) => {
            return Err(DeriveFailure::Capture(failure));
        },
    };
    let email = match email {
        Ok(output) => output,
        Err(failure) => {
            return Err(DeriveFailure::Capture(failure));
        },
    };
    match git_identity(name, email) {
        Ok(author) => Ok(author),
        Err(failure) => Err(DeriveFailure::Lookup(failure)),
    }
}

/// The repository address, from the run that looks up the origin remote.
pub fn repository_answer(remote: Result<CapturedOutput, CaptureFailure>) -> (r: Result<
    String,
    DeriveFailure,
>)
    ensures
        match remote {
            Err(failure) => r == Err::<String, DeriveFailure>(DeriveFailure::Capture(failure)),
            Ok(output) => match repository(output.exit_status, output.stdout@) {
                Ok(address) => r matches Ok(text) && text@ == address,
                Err(failure) => r == Err::<String, DeriveFailure>(DeriveFailure::Lookup(failure)),
            },
        },
{
    match remote {
        Err(failure) => Err(DeriveFailure::Capture(failure)),
        Ok(output) => match git_repository(output) {
            Ok(address) => Ok(address),
            Err(failure) => Err(DeriveFailure::Lookup(failure)),
        },
    }
}

} // verus!
