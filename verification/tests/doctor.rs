//! The check of the environment.

use stui::config::DirSource;
use stui::doctor::{
    check_enumeration, check_terminal_size, check_utf8, run, trial_session, Check, Facts, Level,
    Report, Terminfo, CHECK_COUNT,
};
use stui::i18n::Lang;
use stui::screen::caps::{Caps, HardcopyProbe, Support};
use stui::screen::parse::{parse_list_output, Enumeration, Outlook};
use stui::screen::Error;

fn enumeration(text: &str, outlook: Outlook) -> Enumeration {
    Enumeration {
        outlook,
        list: parse_list_output(text).unwrap(),
        list_error: None,
    }
}

const TWO: &str = "There are screens on:\n\t1.a\t(Dead ???)\n\t2.b\t(Detached)\n2 Sockets in /tmp/.screen.\n";

fn healthy() -> Facts {
    let mut caps = Caps::default();
    caps.query = Support::Yes;
    caps.version_line = "Screen version 4.09.01 (GNU) 20-Aug-23".into();
    Facts {
        program: Ok("/usr/bin/screen".into()),
        enumeration: Ok(enumeration(TWO, Outlook::Available(2))),
        caps: Ok(caps),
        screendir_empty: false,
        terminfo: Terminfo::Present,
        lc_all: None,
        lc_ctype: None,
        lang: Some("en_US.UTF-8".into()),
        sty: None,
        size: Ok((120, 40)),
        config_dir: Some(("/home/u/.config/screen-tui".into(), DirSource::Home)),
        writable: Ok(()),
        hardcopy: Ok(HardcopyProbe {
            hardcopy: Support::Yes,
            history: Support::No,
            detail: String::new(),
        }),
    }
}

#[test]
fn exit_code_is_driven_by_failures_only() {
    let mut report = Report::default();
    report.checks.push(Check::pass("a", "fine"));
    report.checks.push(Check::warn("b", "degraded"));
    assert_eq!(
        report.exit_code(),
        0,
        "warnings alone must not fail the build"
    );

    report.checks.push(Check::fail("c", "broken", "fix it"));
    assert_eq!(report.exit_code(), 2);
    assert_eq!(report.counts(), (1, 1, 1));
}

#[test]
fn render_lists_every_check_with_fix_lines() {
    let mut report = Report::default();
    report
        .checks
        .push(Check::pass("screen executable", "/usr/bin/screen"));
    report
        .checks
        .push(Check::fail("config directory", "not writable", "chmod it"));
    report.notes.push("a note".to_string());

    let text = report.render(Lang::En);
    assert!(text.contains("[PASS] screen executable"));
    assert!(text.contains("[FAIL] config directory"));
    assert!(text.contains("fix: chmod it"));
    assert!(text.contains("1 pass · 0 warn · 1 fail"));
    assert!(text.contains("- a note"));
}

#[test]
fn the_lines_of_a_report_are_aligned() {
    let mut report = Report::default();
    report.checks.push(Check::pass("a", "fine"));
    report
        .checks
        .push(Check::warn("long", "odd").with_fix("do it"));
    let text = report.render(Lang::En);
    let lines: Vec<&str> = text.lines().collect();
    assert_eq!(lines[1], " 1. [PASS] a     fine");
    assert_eq!(lines[2], " 2. [WARN] long  odd");
    assert_eq!(lines[3], "           fix: do it");
}

#[test]
fn run_produces_all_eleven_checks_in_this_environment() {
    let report = run(&healthy(), Lang::En);
    assert_eq!(
        report.checks.len(),
        CHECK_COUNT,
        "names: {:?}",
        report.checks.iter().map(|c| c.name).collect::<Vec<_>>()
    );
    let levels: Vec<Level> = report.checks.iter().map(|c| c.level).collect();
    assert_eq!(report.exit_code(), 0);
    // The version could not be read, and one session is dead.
    assert_eq!(levels[1], Level::Warn);
    assert_eq!(levels[6], Level::Warn);
    assert!(report.checks[6].detail.contains("a"));
    assert_eq!(levels[10], Level::Pass);
    assert!(report.checks[10].detail.contains("2.b"));
}

#[test]
fn a_missing_screen_fails() {
    let mut facts = healthy();
    facts.program = Err(Error::NotFound);
    facts.enumeration = Err(Error::NotFound);
    facts.caps = Err(Error::NotFound);
    let report = run(&facts, Lang::En);
    assert_eq!(report.exit_code(), 2);
    assert!(report.has_failure());
    assert_eq!(report.checks.len(), CHECK_COUNT);
    assert_eq!(trial_session(&facts.enumeration), None);
}

#[test]
fn what_cannot_be_found_out_is_a_warning() {
    let mut facts = healthy();
    facts.size = Err("not a terminal".into());
    facts.terminfo = Terminfo::NoTool;
    facts.hardcopy = Err(Error::PreviewUnavailable("boom".into()));
    facts.sty = Some("77.x".into());
    facts.screendir_empty = true;
    facts.writable = Err("denied".into());
    let report = run(&facts, Lang::En);
    let level = |i: usize| report.checks[i].level;
    assert_eq!(level(8), Level::Warn);
    assert_eq!(level(4), Level::Warn);
    assert_eq!(level(10), Level::Warn);
    assert_eq!(level(7), Level::Warn);
    assert_eq!(level(2), Level::Warn);
    assert_eq!(level(9), Level::Fail);
}

#[test]
fn the_two_listings_are_compared() {
    let level = |outlook| {
        check_enumeration(&Ok(enumeration(TWO, outlook)), Lang::En).level
    };
    assert_eq!(level(Outlook::Available(2)), Level::Pass);
    assert_eq!(level(Outlook::Available(3)), Level::Warn);
    assert_eq!(level(Outlook::NoSessions), Level::Warn);
    assert_eq!(level(Outlook::Unconnectable), Level::Warn);
    assert_eq!(level(Outlook::Inconclusive(8)), Level::Warn);
}

#[test]
fn a_small_terminal_is_remarked_upon() {
    assert_eq!(check_terminal_size(&Ok((40, 10)), Lang::En).level, Level::Pass);
    assert_eq!(check_terminal_size(&Ok((39, 10)), Lang::En).level, Level::Warn);
    assert_eq!(check_terminal_size(&Ok((120, 40)), Lang::En).detail, "120x40");
}

#[test]
fn any_locale_variable_may_name_the_encoding() {
    let text = |s: &str| Some(s.to_string());
    let check = check_utf8(&text("C"), &text("en_US.utf8"), &None, Lang::En);
    assert_eq!(check.level, Level::Pass);
    assert_eq!(check.detail, "LC_ALL=C LC_CTYPE=en_US.utf8");
    assert_eq!(check_utf8(&text("C"), &None, &None, Lang::En).level, Level::Warn);
    assert_eq!(check_utf8(&None, &None, &None, Lang::En).level, Level::Warn);
}

#[test]
fn reports_carry_no_escape_sequences() {
    let mut facts = healthy();
    facts.sty = Some("77.\x1b[31m".into());
    let text = run(&facts, Lang::En).render(Lang::En);
    assert!(text.contains("77.?[31m"));
    facts.sty = Some("77.\u{9b}31m".into());
    let text = run(&facts, Lang::En).render(Lang::En);
    assert!(text.contains("77.?31m"));
    assert!(text.chars().all(|c| !c.is_control() || c == '\n'));
}

#[test]
fn tabs_of_skipped_lines_are_printed_as_they_are() {
    let mut report = run(&healthy(), Lang::En);
    report.notes.push("skipped unrecognized line: +5.foo\t(Detached)".to_string());
    let text = report.render(Lang::En);
    assert!(text.contains("skipped unrecognized line: +5.foo\t(Detached)"));
}
