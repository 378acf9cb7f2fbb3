//! Read-only snapshots of a session.
//!
//! A snapshot is taken anew each time and never cached; what cannot be taken is
//! reported with its reason.

use crate::screen::caps::{
    first_solid_line, solid_line,
};
use crate::screen::cmd::{
    Run, RunView, lossy, lossy_text, quoted, run_text, shell_quote,
};
use crate::screen::{
    Error, ErrorView,
};
use crate::text::{
    chars_of, is_blank, lines, lines_of, string_of, trim_end, trim_end_of, trim_of, views,
};
use crate::util::width::{
    clip_with_ellipsis, ellipsis_of,
};
use vstd::prelude::*;

verus! {

/// The widest line of a snapshot in columns.
pub const PREVIEW_COLS: usize = 96;

/// The command line that is recorded for a snapshot.
pub open spec fn preview_command_of(
    program: Seq<char>,
    full: Seq<char>,
    path: Seq<char>,
) -> Seq<char> {
    program + " -S "@ + full + " -X hardcopy "@ + quoted(path)
}

/// The command line that is recorded for a snapshot.
pub fn preview_command(program: &str, full: &str, path: &str) -> (r: String)
    ensures
        r@ == preview_command_of(program@, full@, path@),
{
    let mut out: String = program.to_owned();
    out.append(" -S ");
    out.append(full);
    out.append(" -X hardcopy ");
    out.append(shell_quote(path).as_str());
    out
}

pub open spec fn reason_of(text: Seq<char>) -> Seq<char> {
    match first_solid_line(lines_of(text)) {
        Some(line) => line,
        None => "screen exited nonzero with no diagnostic"@,
    }
}

/// Why a snapshot failed: the first line that says something.
pub fn reason(text: &str) -> (r: String)
    ensures
        r@ == reason_of(text@),
{
    match solid_line(text) {
        Some(line) => line,
        None => "screen exited nonzero with no diagnostic".to_owned(),
    }
}

/// Each line without white space at its end, cut to `max` columns.
pub open spec fn cut_lines(lines: Seq<Seq<char>>, max: nat) -> Seq<Seq<char>> {
    lines.map_values(|line: Seq<char>| ellipsis_of(trim_end_of(line), max))
}

/// The lines without the blank ones at the end.
pub open spec fn drop_blank_tail(lines: Seq<Seq<char>>) -> Seq<Seq<char>>
    decreases lines.len(),
{
    if lines.len() > 0 && trim_of(lines.last()).len() == 0 {
        drop_blank_tail(lines.drop_last())
    } else {
        lines
    }
}

pub open spec fn preview_lines(text: Seq<char>, max: nat) -> Seq<Seq<char>> {
    drop_blank_tail(cut_lines(lines_of(text), max))
}

/// Tidies a snapshot: white space at line ends and blank lines at the end go,
/// lines that are too wide are cut; nothing else changes.
pub fn format_preview(text: &str, max_cols: usize) -> (r: Vec<String>)
    ensures
        views(r@) == preview_lines(text@, max_cols as nat),
{
    let raw: Vec<String> = lines(text);
    let mut out: Vec<String> = Vec::new();
    let ghost cut = cut_lines(lines_of(text@), max_cols as nat);
    let mut i: usize = 0;
    while i < raw.len()
        invariant
            i <= raw@.len(),
            views(raw@) == lines_of(text@),
            cut == cut_lines(lines_of(text@), max_cols as nat),
            out@.len() == i,
            forall|k: int| 0 <= k < i ==> (#[trigger] out@[k])@ == cut[k],
        decreases raw.len() - i,
    {
        assert(lines_of(text@)[i as int] == raw@[i as int]@);
        let chars: Vec<char> = chars_of(raw[i].as_str());
        let line: String = string_of(trim_end(chars.as_slice()));
        out.push(clip_with_ellipsis(line.as_str(), max_cols));
        i += 1;
    }
    assert(views(raw@).len() == raw@.len());
    assert(views(out@) =~= cut);
    while out.len() > 0 && is_blank(out[out.len() - 1].as_str())
        invariant
            drop_blank_tail(views(out@)) == drop_blank_tail(cut),
        decreases out.len(),
    {
        assert(views(out@).last() == out@.last()@);
        assert(views(out@).drop_last() =~= views(out@.drop_last()));
        out.pop();
    }
    assert(out@.len() > 0 ==> views(out@).last() == out@.last()@);
    out
}

/// What a finished snapshot command yields. A file that was left empty may be
/// an empty window or a command that wrote nothing: it is reported, not shown.
pub open spec fn snapshot_of(run: RunView, bytes: u64, content: Seq<u8>) -> Result<
    Seq<Seq<char>>,
    ErrorView,
> {
    if run.code != 0 {
        Err(ErrorView::PreviewUnavailable(reason_of(run_text(run))))
    } else if bytes == 0 {
        Err(
            ErrorView::PreviewUnavailable(
                "screen wrote no snapshot (empty or unsupported)"@,
            ),
        )
    } else {
        Ok(preview_lines(lossy_text(content), PREVIEW_COLS as nat))
    }
}

/// Reads a snapshot: `bytes` is the size of the file that the command was to
/// write, `content` what it holds.
pub fn preview_with(run: &Run, bytes: u64, content: &[u8]) -> (r: Result<Vec<String>, Error>)
    ensures
        match snapshot_of(run@, bytes, content@) {
            Ok(lines) => r matches Ok(v) && views(v@) == lines,
            Err(err) => r matches Err(e) && e@ == err,
        },
{
    if !run.success() {
        let text: String = run.text();
        return Err(Error::PreviewUnavailable(reason(text.as_str())));
    }
    if bytes == 0 {
        return Err(
            Error::PreviewUnavailable(
                "screen wrote no snapshot (empty or unsupported)".to_owned(),
            ),
        );
    }
    let text: String = lossy(content);
    Ok(format_preview(text.as_str(), PREVIEW_COLS))
}

} // verus!
