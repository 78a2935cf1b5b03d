use cargo_fill::capture::CaptureFailure;
use cargo_fill::derive::{identity_answer, repository_answer, toolchain_answer, DeriveFailure};
use cargo_fill::lookup::{
    author_from, git_identity, git_repository, output_text, repository_from, LookupFailure,
};
use cargo_fill::process::{CapturedOutput, ExitStatus};
use cargo_fill::toolchain::ExtractionFailure;

fn printed(code: i32, stdout: &[u8]) -> CapturedOutput {
    CapturedOutput {
        exit_status: ExitStatus::exited(code),
        stdout: stdout.to_vec(),
        stderr: Vec::new(),
    }
}

#[test]
fn the_author_is_the_trimmed_name_and_address() {
    assert_eq!(
        author_from("Jane Doe\n", " jane@example.com \n"),
        "Jane Doe <jane@example.com>"
    );
    assert_eq!(author_from("", ""), " <>");
}

#[test]
fn the_identity_comes_from_both_lookups() {
    assert_eq!(
        git_identity(printed(0, b"Jane Doe\n"), printed(0, b"jane@example.com\n")),
        Ok("Jane Doe <jane@example.com>".to_string())
    );
}

#[test]
fn a_failed_lookup_gives_no_identity() {
    assert_eq!(
        git_identity(printed(1, b""), printed(0, b"jane@example.com\n")),
        Err(LookupFailure::ToolFailed(ExitStatus { code: Some(1) }))
    );
    assert_eq!(
        git_identity(printed(0, b"Jane"), printed(128, b"")),
        Err(LookupFailure::ToolFailed(ExitStatus { code: Some(128) }))
    );
}

#[test]
fn output_that_is_not_utf8_gives_no_answer() {
    assert_eq!(output_text(printed(0, b"Jane \xff")), Err(LookupFailure::NotText));
    assert_eq!(
        git_identity(printed(0, b"Jane"), printed(0, b"\xc3\x28")),
        Err(LookupFailure::NotText)
    );
    assert_eq!(git_repository(printed(0, b"\x80.git")), Err(LookupFailure::NotText));
    assert_eq!(
        output_text(printed(0, "J\u{e9}r\u{f4}me".as_bytes())),
        Ok("J\u{e9}r\u{f4}me".to_string())
    );
}

#[test]
fn the_repository_is_the_remote_without_its_ending() {
    assert_eq!(
        repository_from("https://github.com/jane/wizard.git\n"),
        Some("https://github.com/jane/wizard".to_string())
    );
    assert_eq!(repository_from(".git"), Some(String::new()));
    assert_eq!(repository_from("https://github.com/jane/wizard"), None);
    assert_eq!(repository_from(""), None);
    assert_eq!(
        git_repository(printed(0, b"git@example.com:jane/wizard.git\n")),
        Ok("git@example.com:jane/wizard".to_string())
    );
    assert_eq!(
        git_repository(printed(0, b"git@example.com:jane/wizard\n")),
        Err(LookupFailure::NoGitSuffix)
    );
    assert_eq!(
        git_repository(printed(1, b"x.git")),
        Err(LookupFailure::ToolFailed(ExitStatus { code: Some(1) }))
    );
}

#[test]
fn a_run_that_could_not_be_made_is_a_capture_failure() {
    let missing = CaptureFailure::Spawn("No such file or directory".to_string());
    assert_eq!(
        toolchain_answer(Err(missing.clone())),
        Err(DeriveFailure::Capture(missing.clone()))
    );
    assert_eq!(
        identity_answer(Err(missing.clone()), Ok(printed(0, b"x"))),
        Err(DeriveFailure::Capture(missing.clone()))
    );
    assert_eq!(
        identity_answer(Ok(printed(0, b"x")), Err(missing.clone())),
        Err(DeriveFailure::Capture(missing.clone()))
    );
    assert_eq!(
        repository_answer(Err(missing.clone())),
        Err(DeriveFailure::Capture(missing))
    );
}

#[test]
fn answers_come_from_captured_runs() {
    let helper = CapturedOutput {
        exit_status: ExitStatus::exited(0),
        stdout: Vec::new(),
        stderr: b"Check for toolchain '1.61.0-x86_64-pc-windows-msvc' succeeded\n".to_vec(),
    };
    assert_eq!(toolchain_answer(Ok(helper)), Ok("1.61.0".to_string()));
    let silent = CapturedOutput {
        exit_status: ExitStatus::exited(0),
        stdout: Vec::new(),
        stderr: Vec::new(),
    };
    assert_eq!(
        toolchain_answer(Ok(silent)),
        Err(DeriveFailure::Extraction(ExtractionFailure::ShapeMismatch { line: None }))
    );
    assert_eq!(
        identity_answer(Ok(printed(0, b"Jane\n")), Ok(printed(0, b"j@example.com\n"))),
        Ok("Jane <j@example.com>".to_string())
    );
    assert_eq!(
        identity_answer(Ok(printed(0, b"Jane\n")), Ok(printed(1, b""))),
        Err(DeriveFailure::Lookup(LookupFailure::ToolFailed(ExitStatus { code: Some(1) })))
    );
    assert_eq!(
        repository_answer(Ok(printed(0, b"https://example.com/w.git\n"))),
        Ok("https://example.com/w".to_string())
    );
    assert_eq!(
        repository_answer(Ok(printed(0, b"https://example.com/w\n"))),
        Err(DeriveFailure::Lookup(LookupFailure::NoGitSuffix))
    );
}
