use cargo_fill::process::{CapturedOutput, ExitStatus};
use cargo_fill::toolchain::{
    extract_from_text, extract_toolchain_version, ExtractedVersion, ExtractionFailure,
};

fn ok() -> ExitStatus {
    ExitStatus::exited(0)
}

fn version(token: &str) -> Result<ExtractedVersion, ExtractionFailure> {
    Ok(ExtractedVersion { token: token.to_string() })
}

fn mismatch(line: Option<&str>) -> Result<ExtractedVersion, ExtractionFailure> {
    Err(ExtractionFailure::ShapeMismatch { line: line.map(|l| l.to_string()) })
}

#[test]
fn the_version_is_taken_from_the_success_line() {
    let stderr = "Check for toolchain '1.61.0-x86_64-pc-windows-msvc' succeeded";
    assert_eq!(extract_from_text(ok(), "", stderr), version("1.61.0"));
}

#[test]
fn the_last_success_line_wins() {
    let stderr = "Fetching index\n\
        Check for toolchain '1.63.0-x86_64-unknown-linux-gnu' succeeded\n\
        Check for toolchain '1.59.0-x86_64-unknown-linux-gnu' failed\n\
        Check for toolchain '1.61.0-x86_64-unknown-linux-gnu' succeeded\n\
        Finished\n";
    assert_eq!(extract_from_text(ok(), "", stderr), version("1.61.0"));
}

#[test]
fn a_carriage_return_before_the_line_feed_is_part_of_the_line_ending() {
    let stderr = "Check for toolchain '1.70.0-x86_64-pc-windows-msvc' succeeded\r\nDone\r\n";
    assert_eq!(extract_from_text(ok(), "", stderr), version("1.70.0"));
}

#[test]
fn a_bare_carriage_return_at_the_end_is_part_of_the_line() {
    let stderr = "Check for toolchain '1.70.0-x86_64-pc-windows-msvc' succeeded\r";
    assert_eq!(extract_from_text(ok(), "", stderr), mismatch(None));
}

#[test]
fn no_success_line_is_a_shape_mismatch() {
    assert_eq!(extract_from_text(ok(), "", ""), mismatch(None));
    assert_eq!(extract_from_text(ok(), "", "\n\n"), mismatch(None));
    assert_eq!(
        extract_from_text(ok(), "", "Check for toolchain '1.61.0-x86_64' failed\n"),
        mismatch(None)
    );
    assert_eq!(
        extract_from_text(ok(), "", "it succeeded, eventually\n"),
        mismatch(None)
    );
}

#[test]
fn a_success_line_without_the_leading_marker_is_kept_for_display() {
    assert_eq!(
        extract_from_text(ok(), "", "Build succeeded\n"),
        mismatch(Some("Build succeeded"))
    );
    assert_eq!(extract_from_text(ok(), "", "succeeded"), mismatch(Some("succeeded")));
}

#[test]
fn a_success_line_without_a_separator_is_kept_for_display() {
    let line = "Check for toolchain '1.61.0' succeeded";
    assert_eq!(extract_from_text(ok(), "", line), mismatch(Some(line)));
}

#[test]
fn only_the_last_success_line_is_read() {
    let stderr = "Check for toolchain '1.61.0-x86_64' succeeded\nBuild succeeded\n";
    assert_eq!(
        extract_from_text(ok(), "", stderr),
        mismatch(Some("Build succeeded"))
    );
}

#[test]
fn the_version_ends_at_the_first_separator() {
    let stderr = "Check for toolchain '1.74.0-beta-aarch64-apple-darwin' succeeded";
    assert_eq!(extract_from_text(ok(), "", stderr), version("1.74.0"));
    let stderr = "Check for toolchain '-x86_64' succeeded";
    assert_eq!(extract_from_text(ok(), "", stderr), version(""));
}

#[test]
fn a_failed_helper_fails_whatever_it_printed() {
    let stderr = "Check for toolchain '1.61.0-x86_64-pc-windows-msvc' succeeded";
    for code in [Some(1), Some(101), Some(-1), None] {
        let status = ExitStatus { code };
        assert_eq!(
            extract_from_text(status, "out", stderr),
            Err(ExtractionFailure::ToolFailed {
                status,
                stdout: "out".to_string(),
                stderr: stderr.to_string(),
            })
        );
        assert_eq!(
            extract_from_text(status, "", ""),
            Err(ExtractionFailure::ToolFailed {
                status,
                stdout: String::new(),
                stderr: String::new(),
            })
        );
    }
}

#[test]
fn captured_bytes_are_decoded_before_they_are_read() {
    let output = CapturedOutput {
        exit_status: ok(),
        stdout: Vec::new(),
        stderr: b"Check for toolchain '1.61.0-x86_64-pc-windows-msvc' succeeded\n".to_vec(),
    };
    assert_eq!(extract_toolchain_version(&output), version("1.61.0"));
}

#[test]
fn malformed_bytes_are_replaced_and_never_fatal() {
    let mut stderr = b"caf\xff\xfe\n".to_vec();
    stderr.extend_from_slice(b"Check for toolchain '1.56.1-\xc3\x28' succeeded\n");
    let output = CapturedOutput { exit_status: ok(), stdout: Vec::new(), stderr };
    assert_eq!(extract_toolchain_version(&output), version("1.56.1"));

    let output = CapturedOutput {
        exit_status: ok(),
        stdout: Vec::new(),
        stderr: b"\xffoops succeeded".to_vec(),
    };
    assert_eq!(
        extract_toolchain_version(&output),
        mismatch(Some("\u{fffd}oops succeeded"))
    );
}

#[test]
fn a_failed_capture_shows_both_streams_as_text() {
    let output = CapturedOutput {
        exit_status: ExitStatus::exited(2),
        stdout: b"out \xff".to_vec(),
        stderr: b"error: no toolchain".to_vec(),
    };
    assert_eq!(
        extract_toolchain_version(&output),
        Err(ExtractionFailure::ToolFailed {
            status: ExitStatus { code: Some(2) },
            stdout: "out \u{fffd}".to_string(),
            stderr: "error: no toolchain".to_string(),
        })
    );
}

#[test]
fn text_beyond_ascii_is_counted_in_characters() {
    let stderr = "p\u{e9}riode \u{2014} d\u{e9}but\nCheck for toolchain '1.65.0-\u{3b1}' succeeded\n";
    assert_eq!(extract_from_text(ok(), "", stderr), version("1.65.0"));
}
