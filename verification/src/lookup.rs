//! Answers read from version control: the author's identity and the
//! address of the repository.
//!
//! The caller runs the version-control tool and hands over what it
//! printed; a run that failed, or that printed something other than text,
//! gives no answer.

use vstd::prelude::*;
use vstd::string::StringExecFns;
use vstd::utf8::{decode_utf8, valid_utf8};
use crate::process::{CapturedOutput, ExitStatus};
use crate::text::{chars_of, decode_strict, ends_with, range_ends_with, slice_of, trim, trim_range, trimmed};

verus! {

/// Why a lookup gave no answer.
#[derive(Clone, Copy, Debug, PartialEq, Eq, Structural)]
pub enum LookupFailure {
    /// The tool did not exit successfully.
    ToolFailed(ExitStatus),
    /// The tool printed bytes that are not UTF-8.
    NotText,
    /// The address of the remote does not end in `.git`.
    NoGitSuffix,
}

/// The content of a result that holds text.
pub open spec fn text_view<E>(r: Result<String, E>) -> Result<Seq<char>, E> {
    match r {
        Ok(s) => Ok(s@),
        Err(e) => Err(e),
    }
}

/// What a tool run says, as text.
pub open spec fn said(status: ExitStatus, stdout: Seq<u8>) -> Result<Seq<char>, LookupFailure> {
    if !status.succeeded() {
        Err(LookupFailure::ToolFailed(status))
    } else if !valid_utf8(stdout) {
        Err(LookupFailure::NotText)
    } else {
        Ok(decode_utf8(stdout))
    }
}

/// The standard output of a tool run, when the tool succeeded and printed
/// UTF-8.
pub fn output_text(output: CapturedOutput) -> (r: Result<String, LookupFailure>)
    ensures
        text_view(r) == said(output.exit_status, output.stdout@),
{
    if !output.exit_status.success() {
        return Err(LookupFailure::ToolFailed(output.exit_status));
    }
    match decode_strict(output.stdout) {
        Some(text) => Ok(text),
        None => Err(LookupFailure::NotText),
    }
}

/// An author as the manifest lists one: the name, then the address in
/// angle brackets, both trimmed.
pub open spec fn author_entry(name: Seq<char>, email: Seq<char>) -> Seq<char> {
    trim(name) + " <"@ + trim(email) + ">"@
}

/// The author entry for a configured name and address.
pub fn author_from(name: &str, email: &str) -> (author: String)
    ensures
        author@ == author_entry(name@, email@),
{
    let mut author = trimmed(name);
    author.append(" <");
    let email = trimmed(email);
    author.append(email.as_str());
    author.append(">");
    author
}

/// What the two identity lookups give together: the failure of the name
/// lookup, else that of the address lookup, else the author entry.
pub open spec fn identity(
    name_status: ExitStatus,
    name_stdout: Seq<u8>,
    email_status: ExitStatus,
    email_stdout: Seq<u8>,
) -> Result<Seq<char>, LookupFailure> {
    match said(name_status, name_stdout) {
        Err(failure) => Err(failure),
        Ok(name) => match said(email_status, email_stdout) {
            Err(failure) => Err(failure),
            Ok(email) => Ok(author_entry(name, email)),
        },
    }
}

/// The single author that version control is configured with, from the
/// lookups of the user's name and address.
pub fn git_identity(name: CapturedOutput, email: CapturedOutput) -> (r: Result<
    String,
    LookupFailure,
>)
    ensures
        text_view(r) == identity(
            name.exit_status,
            name.stdout@,
            email.exit_status,
            email.stdout@,
        ),
{
    let name = match output_text(name) {
        Ok(text) => text,
        Err(failure) => {
            return Err(failure);
        },
    };
    let email = match output_text(email) {
        Ok(text) => text,
        Err(failure) => {
            return Err(failure);
        },
    };
    Ok(author_from(name.as_str(), email.as_str()))
}

/// What the remote's address ends with.
pub open spec fn git_suffix() -> Seq<char> {
    ".git"@
}

/// The repository that a remote address names: the address, trimmed,
/// without its `.git` ending.
pub open spec fn repository_of(remote: Seq<char>) -> Option<Seq<char>> {
    let address = trim(remote);
    if ends_with(address, git_suffix()) {
        Some(address.take(address.len() - git_suffix().len()))
    } else {
        None
    }
}

/// The repository address for the address of a remote, or `None` when it
/// does not end in `.git`.
pub fn repository_from(remote: &str) -> (repository: Option<String>)
    ensures
        match repository {
            Some(r) => repository_of(remote@) == Some(r@),
            None => repository_of(remote@) is None,
        },
{
    let text = chars_of(remote);
    let suffix = chars_of(".git");
    let (from, to) = trim_range(&text, 0, text.len());
    assert(text@.subrange(0, text.len() as int) =~= text@);
    if range_ends_with(&text, from, to, &suffix) {
        assert(text@.subrange(from as int, to as int).take((to - from) - suffix.len())
            =~= text@.subrange(from as int, to - suffix.len()));
        Some(slice_of(remote, from, to - suffix.len()))
    } else {
        None
    }
}

/// What the lookup of the remote gives: its failure, else the repository
/// that the address names, else `NoGitSuffix`.
pub open spec fn repository(status: ExitStatus, stdout: Seq<u8>) -> Result<
    Seq<char>,
    LookupFailure,
> {
    match said(status, stdout) {
        Err(failure) => Err(failure),
        Ok(remote) => match repository_of(remote) {
            Some(address) => Ok(address),
            None => Err(LookupFailure::NoGitSuffix),
        },
    }
}

/// The repository address, from the lookup of the origin remote.
pub fn git_repository(remote: CapturedOutput) -> (r: Result<String, LookupFailure>)
    ensures
        text_view(r) == repository(remote.exit_status, remote.stdout@),
{
    let remote = match output_text(remote) {
        Ok(text) => text,
        Err(failure) => {
            return Err(failure);
        },
    };
    match repository_from(remote.as_str()) {
        Some(address) => Ok(address),
        None => Err(LookupFailure::NoGitSuffix),
    }
}

} // verus!
