//! Snapshots of a session's screen.

use stui::screen::cmd::Run;
use stui::screen::preview::{format_preview, preview_command, preview_with};
use stui::screen::Error;
use stui::util::width::display_width;

fn run(code: i32, stderr: &str) -> Run {
    Run {
        command: "screen -S 1.a -X hardcopy /tmp/x".into(),
        code,
        stdout: String::new(),
        stderr: stderr.into(),
    }
}

#[test]
fn preview_reads_snapshot() {
    let out = preview_with(&run(0, ""), 18, b"line one\nline two\n").expect("preview ok");
    assert_eq!(out, vec!["line one", "line two"]);
}

#[test]
fn preview_failing_screen_maps_to_preview_unavailable() {
    match preview_with(&run(1, "no such session\n"), 0, b"").unwrap_err() {
        Error::PreviewUnavailable(reason) => {
            assert!(reason.contains("no such session"), "{reason}");
        }
        other => panic!("expected PreviewUnavailable, got {other:?}"),
    }
}

#[test]
fn preview_zero_exit_without_file_is_unavailable() {
    let err = preview_with(&run(0, ""), 0, b"").unwrap_err();
    assert!(matches!(err, Error::PreviewUnavailable(_)), "{err:?}");
}

#[test]
fn preview_tolerates_non_utf8_snapshot() {
    let out = preview_with(&run(0, ""), 10, b"caf\xe9 menu\n").expect("lossy preview must succeed");
    assert_eq!(out, vec![format!("caf\u{FFFD} menu")]);
}

#[test]
fn format_preview_clamps_and_trims_tail() {
    let text = "short\r\n  \ntrailing spaces   \n";
    let lines = format_preview(text, 40);
    // Empty lines at the end go; white space at the end of a line goes; an empty
    // line in the middle is part of the picture.
    assert_eq!(lines, vec!["short", "", "trailing spaces"]);

    let wide = "你".repeat(80);
    let lines = format_preview(&wide, 20);
    assert_eq!(lines.len(), 1);
    assert!(display_width(&lines[0]) <= 20);
}

#[test]
fn format_preview_keeps_content_lines() {
    let lines = format_preview("> found 3 failing tests\n> patching auth\n", 96);
    assert_eq!(lines.len(), 2);
    assert_eq!(lines[0], "> found 3 failing tests");
}

#[test]
fn the_command_is_shown_as_it_is_run() {
    assert_eq!(
        preview_command("screen", "1.a", "/tmp/x"),
        "screen -S 1.a -X hardcopy /tmp/x"
    );
}
