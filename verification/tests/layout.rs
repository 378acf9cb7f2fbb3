//! Layout tiers.

use stui::screen::parse::{SessionRecord, Status};
use stui::ui::layout::{detail_lines, RowCols, Tier};

#[test]
fn tier_boundaries_match_the_spec() {
    assert_eq!(Tier::from_size(120, 40), Tier::Wide);
    assert_eq!(Tier::from_size(100, 24), Tier::Wide);
    assert_eq!(Tier::from_size(99, 24), Tier::Mid);
    assert_eq!(Tier::from_size(72, 24), Tier::Mid);
    assert_eq!(Tier::from_size(71, 24), Tier::Narrow);
    assert_eq!(Tier::from_size(50, 24), Tier::Narrow);
    assert_eq!(Tier::from_size(49, 24), Tier::Tiny);
    assert_eq!(Tier::from_size(40, 20), Tier::Tiny);
    // Too low a terminal is tiny, whatever its width.
    assert_eq!(Tier::from_size(40, 14), Tier::Tiny);
    assert_eq!(Tier::from_size(120, 14), Tier::Tiny);
}

#[test]
fn thresholds_of_the_user_are_clamped() {
    assert_eq!(Tier::from_size_with(60, 24, 72, 55), Tier::Wide);
    assert_eq!(Tier::from_size_with(54, 24, 72, 55), Tier::Mid);
    assert_eq!(Tier::from_size_with(53, 24, 72, 55), Tier::Narrow);
    assert_eq!(Tier::from_size_with(60, 24, 0, 10), Tier::Wide);
    assert_eq!(Tier::from_size_with(60, 24, 0, 120), Tier::Mid);
    assert_eq!(Tier::from_size_with(49, 24, 0, 0), Tier::Tiny);
}

#[test]
fn row_columns_follow_the_info_tiering_table() {
    assert!(RowCols::for_tier(Tier::Wide).status_text);
    assert!(RowCols::for_tier(Tier::Wide).pid);
    assert!(RowCols::for_tier(Tier::Wide).created);

    assert!(!RowCols::for_tier(Tier::Mid).status_text);
    assert!(RowCols::for_tier(Tier::Mid).pid);
    assert!(!RowCols::for_tier(Tier::Mid).created);

    assert!(!RowCols::for_tier(Tier::Narrow).pid);
    assert!(!RowCols::for_tier(Tier::Tiny).pid);
}

#[test]
fn detail_lines_skip_missing_fields() {
    let full = SessionRecord {
        full: "12345.work".into(),
        pid: Some(12345),
        name: "work".into(),
        created: Some("08/09/2026 10:23:45 AM".into()),
        status: Status::Detached,
    };
    let lines = detail_lines(&full);
    assert!(lines.iter().any(|l| l.contains("created")));
    assert_eq!(lines[2], "pid       12345");

    let bare = SessionRecord {
        full: "67890.llm".into(),
        pid: None,
        name: "llm".into(),
        created: None,
        status: Status::Attached,
    };
    let lines = detail_lines(&bare);
    assert!(!lines.iter().any(|l| l.starts_with("pid")));
    assert!(!lines.iter().any(|l| l.starts_with("created")));
}

#[test]
fn wide_footer_has_two_rows() {
    assert_eq!(Tier::Wide.footer_rows(), 2);
    assert_eq!(Tier::Narrow.footer_rows(), 1);
}
