//! Columns, clocks and temporary files.

use stui::util::time::{local_datetime, local_label, LocalTime};
use stui::util::tmpfile::{
    after_attempt, temp_dir_from, temp_name, CreateStep, OpenOutcome, MAX_ATTEMPTS,
};
use stui::util::width::{clip, clip_with_ellipsis, display_width, pad_right, sanitize};

const NOON: LocalTime = LocalTime {
    year: 2026,
    month: 9,
    day: 23,
    hour: 12,
    minute: 5,
    second: 7,
};

#[test]
fn label_shape_is_mmdd_hhmm() {
    let label = local_label(Some(NOON));
    assert_eq!(label.len(), 9, "MMDD-HHMM is 9 chars: {label:?}");
    let chars: Vec<char> = label.chars().collect();
    for (idx, expected) in [
        (0, true),
        (1, true),
        (2, true),
        (3, true),
        (5, true),
        (6, true),
        (7, true),
        (8, true),
    ] {
        assert_eq!(
            chars[idx].is_ascii_digit(),
            expected,
            "char {idx} of {label:?}"
        );
    }
    assert_eq!(chars[4], '-');
    assert_eq!(label, "0923-1205");
}

#[test]
fn datetime_shape_is_iso_like() {
    let stamp = local_datetime(Some(NOON));
    assert_eq!(stamp.len(), 19, "YYYY-MM-DD HH:MM:SS: {stamp:?}");
    let bytes = stamp.as_bytes();
    assert_eq!(bytes[4], b'-');
    assert_eq!(bytes[7], b'-');
    assert_eq!(bytes[10], b' ');
    assert_eq!(bytes[13], b':');
    assert_eq!(bytes[16], b':');
    assert_eq!(stamp, "2026-09-23 12:05:07");
}

#[test]
fn pre_epoch_clock_yields_empty_label() {
    assert_eq!(local_label(None), "");
    assert_eq!(local_datetime(None), "");
}

#[test]
fn names_are_unique_within_a_run() {
    let a = temp_name("stui-test", 4711, 0);
    let b = temp_name("stui-test", 4711, 1);
    assert_ne!(a, b);
}

#[test]
fn a_taken_name_is_retried_and_no_more_than_the_limit() {
    assert_eq!(after_attempt(1, OpenOutcome::Created), CreateStep::Keep);
    assert_eq!(
        after_attempt(1, OpenOutcome::Unprotected),
        CreateStep::RemoveAndFail
    );
    assert_eq!(after_attempt(1, OpenOutcome::Taken), CreateStep::Retry);
    assert_eq!(
        after_attempt(MAX_ATTEMPTS, OpenOutcome::Taken),
        CreateStep::Fail
    );
    assert_eq!(after_attempt(1, OpenOutcome::Failed), CreateStep::Fail);
}

#[test]
fn empty_tmpdir_env_falls_back_to_tmp() {
    assert_eq!(temp_dir_from(None), "/tmp");
    assert_eq!(
        temp_dir_from(Some(String::new())),
        "/tmp",
        "an exported-but-empty TMPDIR must be treated as unset"
    );
    assert_eq!(temp_dir_from(Some("/var/tmp".to_string())), "/var/tmp");
}

#[test]
fn cjk_is_double_width() {
    assert_eq!(display_width("abc"), 3);
    assert_eq!(display_width("会话"), 4);
    assert_eq!(display_width("a会b"), 4);
}

#[test]
fn clip_never_splits_a_character() {
    assert_eq!(clip("会话列表", 5), "会话");
    assert_eq!(clip("会话列表", 4), "会话");
    assert_eq!(clip("会话列表", 3), "会");
    assert_eq!(clip("abcdef", 3), "abc");
    assert_eq!(clip("abc", 10), "abc");
    assert_eq!(clip("会话", 0), "");
}

#[test]
fn ellipsis_respects_budget() {
    assert_eq!(clip_with_ellipsis("abcdef", 4), "abc…");
    assert_eq!(clip_with_ellipsis("abc", 4), "abc");
    // Three columns: one for the ellipsis, two for one wide character.
    assert_eq!(clip_with_ellipsis("会话列表", 3), "会…");
    assert_eq!(clip_with_ellipsis("会话列表", 2), "…");
    assert_eq!(clip_with_ellipsis("会话列表", 1), "…");
    assert_eq!(clip_with_ellipsis("会话列表", 6), "会话…");
}

#[test]
fn pad_right_counts_columns() {
    assert_eq!(pad_right("会话", 6), "会话  ");
    assert_eq!(pad_right("abc", 3), "abc");
    assert_eq!(pad_right("abcd", 3), "abcd");
}

#[test]
fn sanitize_kills_control_and_escape_sequences() {
    assert_eq!(sanitize("a\tb\nc"), "a?b?c");
    assert_eq!(sanitize("x\x1b[31mred"), "x?[31mred");
}

#[test]
fn padding_again_changes_nothing() {
    for text in ["", "ab", "会话", "e\u{301}", "🚀x", "👩\u{200d}👩", "☺\u{fe0f}", "\u{1f1e6}\u{1f1e7}", "1\u{fe0f}\u{20e3}", "לא"] {
        for cols in 0..12usize {
            let once = pad_right(text, cols);
            assert!(once.starts_with(text));
            assert_eq!(display_width(&once), display_width(text).max(cols), "{text:?} {cols}");
            assert_eq!(pad_right(&once, cols), once, "{text:?} {cols}");
        }
    }
}
