//! Reading the toolchain version out of what the version-finding helper
//! printed.
//!
//! On success the helper's diagnostics hold a line such as
//! `Check for toolchain '1.61.0-x86_64-pc-windows-msvc' succeeded`. The
//! version is what stands between the leading marker and the first
//! separator; the platform triple behind the separator is dropped.

use vstd::prelude::*;
use vstd::utf8::{decode_utf8, valid_utf8};
use crate::process::{CapturedOutput, ExitStatus};
use crate::text::{
    chars_of, decode_lossy, ends_with, find_in_range, first_index_of, lemma_first_index_of,
    lossy_text, range_ends_with, range_starts_with, slice_of, starts_with,
};

verus! {

/// A toolchain version that the helper tool reported.
#[derive(Clone, Debug, PartialEq, Eq)]
pub struct ExtractedVersion {
    pub token: String,
}

/// Why no version came out of a helper run.
#[derive(Clone, Debug, PartialEq, Eq)]
pub enum ExtractionFailure {
    /// The helper did not exit successfully. Both streams are kept for
    /// display.
    ToolFailed { status: ExitStatus, stdout: String, stderr: String },
    /// The diagnostics do not have the expected shape: either no line
    /// reports success (`line` is `None`), or the last line that does lacks
    /// the leading marker or the separator (`line` holds it).
    ShapeMismatch { line: Option<String> },
}

/// The mathematical content of an [`ExtractionFailure`].
pub enum ExtractionFailureView {
    ToolFailed { status: ExitStatus, stdout: Seq<char>, stderr: Seq<char> },
    ShapeMismatch { line: Option<Seq<char>> },
}

impl View for ExtractedVersion {
    type V = Seq<char>;

    open spec fn view(&self) -> Seq<char> {
        self.token@
    }
}

impl View for ExtractionFailure {
    type V = ExtractionFailureView;

    open spec fn view(&self) -> ExtractionFailureView {
        match self {
            ExtractionFailure::ToolFailed { status, stdout, stderr } => {
                ExtractionFailureView::ToolFailed {
                    status: *status,
                    stdout: stdout@,
                    stderr: stderr@,
                }
            },
            ExtractionFailure::ShapeMismatch { line } => ExtractionFailureView::ShapeMismatch {
                line: match line {
                    Some(l) => Some(l@),
                    None => None,
                },
            },
        }
    }
}

/// The content of the result of an extraction.
pub open spec fn outcome_view(r: Result<ExtractedVersion, ExtractionFailure>) -> Result<
    Seq<char>,
    ExtractionFailureView,
> {
    match r {
        Ok(v) => Ok(v@),
        Err(e) => Err(e@),
    }
}

/// What a line ends with when it reports success.
pub open spec fn success_marker() -> Seq<char> {
    "succeeded"@
}

/// What stands before the toolchain in a line that reports success.
pub open spec fn leading_marker() -> Seq<char> {
    "Check for toolchain '"@
}

/// What parts the version from the platform triple.
pub open spec fn separator() -> char {
    '-'
}

/// `text[start..stop]` is one line of `text`: it begins at the start of the
/// text or behind a line feed, holds no line feed, and ends at a line feed
/// or at the end of the text. Nothing behind a final line feed is a line.
pub open spec fn is_line(text: Seq<char>, start: int, stop: int) -> bool {
    &&& 0 <= start <= stop <= text.len()
    &&& start < text.len()
    &&& (start == 0 || text[start - 1] == '\n')
    &&& (stop == text.len() || text[stop] == '\n')
    &&& forall|k: int| start <= k < stop ==> text[k] != '\n'
}

/// Where the content of the line `text[start..stop]` ends: a carriage
/// return directly before the closing line feed belongs to the line ending.
pub open spec fn content_end(text: Seq<char>, start: int, stop: int) -> int {
    if stop < text.len() && start < stop && text[stop - 1] == '\r' {
        stop - 1
    } else {
        stop
    }
}

/// The line `text[start..stop]` without its line ending.
pub open spec fn line_content(text: Seq<char>, start: int, stop: int) -> Seq<char> {
    text.subrange(start, content_end(text, start, stop))
}

/// `text[start..stop]` is a line that reports success.
pub open spec fn is_success_line(text: Seq<char>, start: int, stop: int) -> bool {
    is_line(text, start, stop) && ends_with(line_content(text, start, stop), success_marker())
}

/// `text[start..stop]` is the last line of `text` that reports success.
pub open spec fn is_last_success_line(text: Seq<char>, start: int, stop: int) -> bool {
    &&& is_success_line(text, start, stop)
    &&& forall|s: int, e: int| start < s && is_success_line(text, s, e) ==> false
}

/// The content of the last line of `text` that reports success, if any
/// line does.
pub open spec fn last_success_line(text: Seq<char>) -> Option<Seq<char>> {
    if exists|s: int, e: int| is_last_success_line(text, s, e) {
        let (s, e) = choose|s: int, e: int| is_last_success_line(text, s, e);
        Some(line_content(text, s, e))
    } else {
        None
    }
}

/// The version that `line` names: what stands between the leading marker
/// and the first separator behind it. `None` when the line does not begin
/// with the marker or holds no separator behind it.
pub open spec fn version_in(line: Seq<char>) -> Option<Seq<char>> {
    if starts_with(line, leading_marker()) {
        let rest = line.skip(leading_marker().len() as int);
        let k = first_index_of(rest, separator());
        if k < rest.len() {
            Some(rest.take(k))
        } else {
            None
        }
    } else {
        None
    }
}

/// What extraction yields for a helper that ended with `status` and wrote
/// the texts `stdout` and `stderr`.
pub open spec fn extraction(status: ExitStatus, stdout: Seq<char>, stderr: Seq<char>) -> Result<
    Seq<char>,
    ExtractionFailureView,
> {
    if !status.succeeded() {
        Err(ExtractionFailureView::ToolFailed { status, stdout, stderr })
    } else {
        match last_success_line(stderr) {
            None => Err(ExtractionFailureView::ShapeMismatch { line: None }),
            Some(line) => match version_in(line) {
                Some(version) => Ok(version),
                None => Err(ExtractionFailureView::ShapeMismatch { line: Some(line) }),
            },
        }
    }
}

/// A line is determined by where it starts.
pub proof fn lemma_line_stop_unique(text: Seq<char>, start: int, e1: int, e2: int)
    requires
        is_line(text, start, e1),
        is_line(text, start, e2),
    ensures
        e1 == e2,
{
    if e1 < e2 {
        assert(text[e1] == '\n');
    } else if e2 < e1 {
        assert(text[e2] == '\n');
    }
}

/// A text has at most one last line that reports success.
pub proof fn lemma_last_success_line_unique(text: Seq<char>, s1: int, e1: int, s2: int, e2: int)
    requires
        is_last_success_line(text, s1, e1),
        is_last_success_line(text, s2, e2),
    ensures
        s1 == s2,
        e1 == e2,
{
    if s1 < s2 {
        assert(is_success_line(text, s2, e2));
    } else if s2 < s1 {
        assert(is_success_line(text, s1, e1));
    }
    lemma_line_stop_unique(text, s1, e1, e2);
}

/// A helper that did not exit successfully yields `ToolFailed` with its
/// status and both texts, whatever the texts hold.
pub proof fn lemma_failed_tool_fails(status: ExitStatus, stdout: Seq<char>, stderr: Seq<char>)
    requires
        !status.succeeded(),
    ensures
        extraction(status, stdout, stderr) == Err::<Seq<char>, ExtractionFailureView>(
            ExtractionFailureView::ToolFailed { status, stdout, stderr },
        ),
{
}

/// When the helper succeeded and no line of its diagnostics ends with the
/// success marker, extraction fails with a shape mismatch that holds no
/// line.
pub proof fn lemma_no_success_line_is_shape_mismatch(
    status: ExitStatus,
    stdout: Seq<char>,
    stderr: Seq<char>,
)
    requires
        status.succeeded(),
        forall|start: int, stop: int|
            is_line(stderr, start, stop) ==> !ends_with(
                line_content(stderr, start, stop),
                success_marker(),
            ),
    ensures
        extraction(status, stdout, stderr) == Err::<Seq<char>, ExtractionFailureView>(
            ExtractionFailureView::ShapeMismatch { line: None },
        ),
{
    assert forall|s: int, e: int| !is_last_success_line(stderr, s, e) by {
        if is_line(stderr, s, e) {
            assert(!ends_with(line_content(stderr, s, e), success_marker()));
        }
    }
}

/// A version that extraction yields holds no separator: the platform
/// triple is never part of it.
pub proof fn lemma_version_holds_no_separator(line: Seq<char>)
    requires
        version_in(line) is Some,
    ensures
        !version_in(line)->0.contains(separator()),
{
    let rest = line.skip(leading_marker().len() as int);
    lemma_first_index_of(rest, separator());
    let version = version_in(line)->0;
    assert forall|i: int| 0 <= i < version.len() implies version[i] != separator() by {
        assert(version[i] == rest[i]);
    }
}

/// The bounds of the content of the last line of `text` that reports
/// success.
fn find_last_success_line(text: &Vec<char>) -> (found: Option<(usize, usize)>)
    ensures
        match found {
            Some((start, end)) => start <= end <= text.len() && last_success_line(text@) == Some(
                text@.subrange(start as int, end as int),
            ),
            None => last_success_line(text@) is None,
        },
{
    let marker = chars_of("succeeded");
    let len = text.len();
    let mut best: Option<(usize, usize)> = None;
    let ghost mut best_stop: int = 0;
    let mut start: usize = 0;
    while start < len
        invariant
            len == text.len(),
            marker@ == success_marker(),
            start <= len,
            start == 0 || start == len || text@[start - 1] == '\n',
            match best {
                Some((s, ce)) => {
                    &&& s < start
                    &&& is_success_line(text@, s as int, best_stop)
                    &&& ce == content_end(text@, s as int, best_stop)
                    &&& forall|s2: int, e2: int|
                        s < s2 < start && is_success_line(text@, s2, e2) ==> false
                },
                None => forall|s2: int, e2: int|
                    s2 < start && is_success_line(text@, s2, e2) ==> false,
            },
        decreases len - start,
    {
        let stop = find_in_range(text, start, len, '\n');
        proof {
            let rest = text@.subrange(start as int, len as int);
            lemma_first_index_of(rest, '\n');
            assert forall|k: int| start <= k < stop implies text@[k] != '\n' by {
                assert(rest[k - start] != '\n');
            }
            if stop < len {
                assert(rest[stop - start] == '\n');
            }
            assert(is_line(text@, start as int, stop as int));
        }
        let end = if stop < len && start < stop && text[stop - 1] == '\r' {
            stop - 1
        } else {
            stop
        };
        let next = if stop < len {
            stop + 1
        } else {
            len
        };
        let hit = range_ends_with(text, start, end, &marker);
        proof {
            assert forall|s2: int, e2: int|
                start < s2 < next && is_success_line(text@, s2, e2) implies false by {
                assert(text@[s2 - 1] == '\n');
            }
            if !hit {
                assert forall|e2: int| is_success_line(text@, start as int, e2) implies false by {
                    lemma_line_stop_unique(text@, start as int, stop as int, e2);
                }
            }
        }
        if hit {
            best = Some((start, end));
            proof {
                best_stop = stop as int;
            }
        }
        start = next;
    }
    proof {
        match best {
            Some((s, ce)) => {
                assert(is_last_success_line(text@, s as int, best_stop)) by {
                    assert forall|s2: int, e2: int|
                        s < s2 && is_success_line(text@, s2, e2) implies false by {
                        assert(s2 < len);
                    }
                }
                let (cs, ce2) = choose|s: int, e: int| is_last_success_line(text@, s, e);
                lemma_last_success_line_unique(text@, s as int, best_stop, cs, ce2);
            },
            None => {
                assert forall|s2: int, e2: int| !is_last_success_line(text@, s2, e2) by {
                    if is_success_line(text@, s2, e2) {
                        assert(s2 < len);
                    }
                }
            },
        }
    }
    best
}

/// Extraction from the two streams as text.
///
/// A helper that did not succeed yields `ToolFailed`, whatever it printed.
/// Otherwise the last line of `stderr` that ends with the success marker is
/// taken; the version is what it holds between the leading marker and the
/// first separator.
pub fn extract_from_text(status: ExitStatus, stdout: &str, stderr: &str) -> (r: Result<
    ExtractedVersion,
    ExtractionFailure,
>)
    ensures
        outcome_view(r) == extraction(status, stdout@, stderr@),
{
    if !status.success() {
        return Err(
            ExtractionFailure::ToolFailed {
                status,
                stdout: stdout.to_owned(),
                stderr: stderr.to_owned(),
            },
        );
    }
    let text = chars_of(stderr);
    match find_last_success_line(&text) {
        None => Err(ExtractionFailure::ShapeMismatch { line: None }),
        Some((start, end)) => {
            let lead = chars_of("Check for toolchain '");
            let ghost line = text@.subrange(start as int, end as int);
            if !range_starts_with(&text, start, end, &lead) {
                return Err(
                    ExtractionFailure::ShapeMismatch { line: Some(slice_of(stderr, start, end)) },
                );
            }
            let from = start + lead.len();
            let cut = find_in_range(&text, from, end, '-');
            proof {
                assert(line.skip(lead.len() as int) =~= text@.subrange(from as int, end as int));
                assert(text@.subrange(from as int, end as int).take(cut - from) =~= text@.subrange(
                    from as int,
                    cut as int,
                ));
            }
            if cut < end {
                Ok(ExtractedVersion { token: slice_of(stderr, from, cut) })
            } else {
                Err(ExtractionFailure::ShapeMismatch { line: Some(slice_of(stderr, start, end)) })
            }
        },
    }
}

/// The toolchain version that a captured helper run reports.
///
/// Both streams are decoded permissively, so no byte sequence is fatal;
/// the decoded texts are then read as [`extract_from_text`] reads them. A
/// stream of well-formed UTF-8 decodes to exactly the text it encodes.
pub fn extract_toolchain_version(output: &CapturedOutput) -> (r: Result<
    ExtractedVersion,
    ExtractionFailure,
>)
    ensures
        outcome_view(r) == extraction(
            output.exit_status,
            lossy_text(output.stdout@),
            lossy_text(output.stderr@),
        ),
        valid_utf8(output.stdout@) ==> lossy_text(output.stdout@) == decode_utf8(output.stdout@),
        valid_utf8(output.stderr@) ==> lossy_text(output.stderr@) == decode_utf8(output.stderr@),
{
    let stdout = decode_lossy(output.stdout.as_slice());
    let stderr = decode_lossy(output.stderr.as_slice());
    extract_from_text(output.exit_status, stdout.as_str(), stderr.as_str())
}

} // verus!
