//! What `screen -ls` prints, and what is read from it.

use stui::screen::cmd::Run;
use stui::screen::parse::{
    enumerate, parse_list_output, Enumeration, Outlook, SessionList, SessionRecord, Status,
};
use stui::screen::Error;

const MACOS_SINGLE: &str = "There is a screen on:\n\t11121.ttys002.MacBook-Pro-3\t(Detached)\n1 Socket in /var/folders/vp/hvhc4_b90s92slrx__l_42kw0000gn/T/.screen.\n";

const WITH_DATE: &str = "There are screens on:\n\t12399.zebra\t(08/09/2026 11:00:00 AM)\t(Multi, attached)\n\t12345.work\t(08/09/2026 10:23:45 AM)\t(Detached)\n\t12346.llm\t(08/09/2026 10:30:12 AM)\t(Attached)\n3 Sockets in /run/screen/S-huxm.\n";

const EMPTY: &str =
    "No Sockets found in /var/folders/vp/hvhc4_b90s92slrx__l_42kw0000gn/T/.screen.\n\n";

const DEAD_UNREACHABLE: &str = "There are screens on:\n\t200.legacy\t(Dead ???)\n\t201.remote\t(Unreachable)\n\t202.phone\t(Multi, attached)\n\t203.idle\t(Detached)\nRemove dead screens with 'screen -wipe'.\n4 Sockets in /run/screen/S-huxm.\n";

const USAGE_DUMP: &str = "Error: Unknown option -Q\nUse: screen [-opts] [cmd [args]]\n or: screen -r [host.tty]\n\nOptions:\n-a            Force all capabilities into each window's termcap.\n-d (-r)       Detach the elsewhere running screen (and reattach here).\n-D (-r)       Detach and logout remote (and reattach here).\n-t title      Set title. (window's name).\n";

fn malformed() -> String {
    format!(
        "There are screens on:\n\n\tabc.notanumber\t(Detached)\n\t300.\t(Detached)\n\t301.malformed\t(Weird State)\n\t302.{}\t(Detached)\n\t303.dup\t(Detached)\n\t304.dup\t(Attached)\n\t305.dateonly\t(08/09/2026 10:23:45 AM)\n\tno brackets here\n7 Sockets in /run/screen/S-huxm.\n",
        "a".repeat(64)
    )
}

fn parsed(text: &str) -> SessionList {
    parse_list_output(text).unwrap()
}

fn names(list: &SessionList) -> Vec<&str> {
    list.sessions.iter().map(|s| s.name.as_str()).collect()
}

fn run(command: &str, code: i32, stdout: &str, stderr: &str) -> Run {
    Run {
        command: command.to_string(),
        code,
        stdout: stdout.to_string(),
        stderr: stderr.to_string(),
    }
}

#[test]
fn parses_macos_400c03_without_date_column() {
    let list = parse_list_output(MACOS_SINGLE).unwrap();
    assert_eq!(list.len(), 1);
    let s = &list.sessions[0];
    assert_eq!(s.full, "11121.ttys002.MacBook-Pro-3");
    assert_eq!(s.pid, Some(11121));
    assert_eq!(s.name, "ttys002.MacBook-Pro-3");
    assert_eq!(s.status, Status::Detached);
    assert_eq!(s.created, None, "4.00.03 has no date column");
    assert_eq!(
        list.socket_dir.as_deref(),
        Some("/var/folders/vp/hvhc4_b90s92slrx__l_42kw0000gn/T/.screen"),
        "socket dir must come from the tail line, with the sentence period stripped"
    );
    assert!(list.warnings.is_empty(), "warnings: {:?}", list.warnings);
}

#[test]
fn parses_46_with_date_column_and_sorts() {
    let list = parse_list_output(WITH_DATE).unwrap();
    assert_eq!(names(&list), vec!["llm", "work", "zebra"], "must be name-sorted");

    let work = list.by_name("work").unwrap();
    assert_eq!(work.created.as_deref(), Some("08/09/2026 10:23:45 AM"));
    assert_eq!(work.status, Status::Detached);

    assert_eq!(list.by_name("llm").unwrap().status, Status::Attached);
    assert_eq!(list.by_name("zebra").unwrap().status, Status::Multi);
    assert_eq!(list.socket_dir.as_deref(), Some("/run/screen/S-huxm"));
}

#[test]
fn parses_empty_list() {
    let list = parse_list_output(EMPTY).unwrap();
    assert!(list.is_empty());
    assert_eq!(
        list.socket_dir.as_deref(),
        Some("/var/folders/vp/hvhc4_b90s92slrx__l_42kw0000gn/T/.screen")
    );
    assert!(list.warnings.is_empty());
}

#[test]
fn parses_dead_and_unreachable_without_guessing() {
    let list = parse_list_output(DEAD_UNREACHABLE).unwrap();
    assert_eq!(list.len(), 4);
    assert_eq!(list.by_name("legacy").unwrap().status, Status::Dead);
    assert_eq!(list.by_name("remote").unwrap().status, Status::Unreachable);
    assert_eq!(list.by_name("phone").unwrap().status, Status::Multi);
    assert_eq!(list.by_name("idle").unwrap().status, Status::Detached);

    assert!(!list.by_name("legacy").unwrap().status.is_connectable());
    assert!(!list.by_name("remote").unwrap().status.is_connectable());
    assert!(list.by_name("phone").unwrap().status.is_connectable());

    // A probe goes to a session that can be connected to.
    assert_eq!(list.probe_target().unwrap().name, "idle");
}

#[test]
fn tolerates_crlf_line_endings() {
    let crlf = MACOS_SINGLE.replace('\n', "\r\n");
    let list = parse_list_output(&crlf).unwrap();
    assert_eq!(list.len(), 1);
    assert_eq!(list.sessions[0].status, Status::Detached);
    assert_eq!(list.sessions[0].created, None);
}

#[test]
fn malformed_input_yields_partial_result_and_warnings() {
    let list = parse_list_output(&malformed()).unwrap();
    let long_name = "a".repeat(64);
    assert_eq!(
        names(&list),
        vec![long_name.as_str(), "dup", "dup", "malformed"],
        "long names must survive; duplicates stay, ordered by full name"
    );
    assert_eq!(list.duplicates, vec!["dup"]);
    assert!(
        list.warnings.iter().any(|w| w.contains("duplicate")),
        "warnings: {:?}",
        list.warnings
    );
    assert!(
        list.warnings.iter().any(|w| w.contains("Weird State")),
        "unknown state must be surfaced, warnings: {:?}",
        list.warnings
    );
    assert!(
        list.warnings.iter().any(|w| w.contains("skipped")),
        "rejected lines must be surfaced, warnings: {:?}",
        list.warnings
    );
}

#[test]
fn unknown_state_is_preserved_verbatim() {
    let list = parse_list_output(&malformed()).unwrap();
    let weird = list.by_name("malformed").unwrap();
    assert_eq!(weird.status, Status::Unknown("Weird State".into()));
    assert_eq!(weird.status.label(), "Weird State");
    assert!(!weird.status.is_connectable());
}

#[test]
fn usage_dump_is_rejected_not_misparsed() {
    let err = parse_list_output(USAGE_DUMP).unwrap_err();
    assert!(matches!(err, Error::UnrecognizedOutput(_)), "{}", err.message());
}

#[test]
fn empty_input_is_not_an_error() {
    assert!(parse_list_output("").unwrap().is_empty());
    assert!(parse_list_output("   \n\r\n").unwrap().is_empty());
}

#[test]
fn outlook_codes_follow_manual_but_expose_the_measured_outlier() {
    assert_eq!(Outlook::from_code(9), Outlook::NoSessions);
    assert_eq!(Outlook::from_code(10), Outlook::Unconnectable);
    assert_eq!(Outlook::from_code(13), Outlook::Available(3));
    // 4.00.03 gives 8 for an empty list: that says nothing, and is shown as such.
    assert_eq!(Outlook::from_code(8), Outlook::Inconclusive(8));
    assert!(!Outlook::from_code(8).is_conclusive());
    assert_eq!(Outlook::from_code(0), Outlook::Inconclusive(0));
}

#[test]
fn state_words_are_normalized_conservatively() {
    assert_eq!(Status::from_word("Detached"), Status::Detached);
    assert_eq!(
        Status::from_word("(detached)"),
        Status::Unknown("(detached)".into())
    );
    assert_eq!(Status::from_word("Dead ???"), Status::Dead);
    assert_eq!(Status::from_word("Multi, attached"), Status::Multi);
    assert_eq!(Status::from_word(""), Status::Unknown(String::new()));
}

/// The listing comes back in the order of names and keeps every session.
#[test]
fn listings_are_sorted_and_complete() {
    let list = parsed("\t9.b\t(Detached)\n\t8.a\t(Detached)\n\t7.b\t(Attached)\n");
    let fulls: Vec<&str> = list.sessions.iter().map(|s| s.full.as_str()).collect();
    assert_eq!(fulls, vec!["8.a", "7.b", "9.b"]);
    assert_eq!(list.duplicates, vec!["b"]);
}

#[test]
fn the_exact_warnings_of_a_malformed_listing() {
    let list = parsed("\t300.x\t(Weird)\nnonsense\n1 Socket in /tmp.\n");
    assert_eq!(list.len(), 1);
    assert_eq!(list.socket_dir.as_deref(), Some("/tmp"));
    assert_eq!(list.warnings.len(), 2);
}

#[test]
fn enumeration_falls_back_to_the_listing_and_says_so() {
    let quiet = run("screen -q -ls", 11, "", "");
    let listing = run("screen -ls", 1, MACOS_SINGLE, "");
    let e: Enumeration = enumerate(&quiet, &listing);
    assert_eq!(e.count(), 1);
    assert!(e.has_sessions());
    assert_eq!(e.outlook, Outlook::Available(1));
    assert_eq!(e.list_error, None);
}

#[test]
fn enumeration_of_nonsense_is_empty_with_notes() {
    let quiet = run("screen -q -ls", 1, "", "");
    let listing = run("screen -ls", 1, USAGE_DUMP, "");
    let e = enumerate(&quiet, &listing);
    assert_eq!(e.count(), 0);
    assert!(!e.has_sessions());
    assert!(e.list_error.is_some());
    assert!(!e.notes().is_empty());
}

#[test]
fn summary_lines_give_the_socket_directory() {
    assert_eq!(
        parsed("2 Sockets in /run/screen/S-me.\n").socket_dir.as_deref(),
        Some("/run/screen/S-me")
    );
    assert_eq!(
        parsed("No Sockets found in /tmp/uscreens/S-me.\r\n")
            .socket_dir
            .as_deref(),
        Some("/tmp/uscreens/S-me")
    );
}

#[test]
fn an_entry_needs_a_numeric_process_and_a_name() {
    assert!(parsed("\tabc.x\t(Detached)\n1 Socket in /t.\n").is_empty());
    assert!(parsed("\t12.\t(Detached)\n1 Socket in /t.\n").is_empty());
    let list = parsed("\t12.x.y\t(Detached)\n");
    let s: &SessionRecord = &list.sessions[0];
    assert_eq!((s.pid, s.name.as_str()), (Some(12), "x.y"));
}

#[test]
fn only_detached_sessions_can_be_resumed_directly() {
    assert!(Status::Detached.is_attachable());
    for word in ["Attached", "Multi, attached", "Dead ???", "Unreachable", "Odd"] {
        assert!(!Status::from_word(word).is_attachable(), "{word}");
    }
}

#[test]
fn a_pid_is_written_in_digits_alone() {
    let list = parse_list_output(
        "There is a screen on:\n\t+5.foo\t(Detached)\n1 Socket in /tmp/.screen.\n",
    )
    .unwrap();
    assert!(list.sessions.is_empty());
    assert_eq!(list.warnings, vec!["skipped unrecognized line: +5.foo\t(Detached)"]);
    assert_eq!(list.socket_dir.as_deref(), Some("/tmp/.screen"));
    for line in ["\t-5.foo\t(Detached)\n", "\t2147483648.foo\t(Detached)\n", "\t.foo\t(Detached)\n"] {
        let text = format!("There is a screen on:\n{line}1 Socket in /tmp/.screen.\n");
        assert!(parse_list_output(&text).unwrap().sessions.is_empty(), "{line}");
    }
    let list = parse_list_output("\t2147483647.foo\t(Detached)\n").unwrap();
    assert_eq!(list.sessions[0].pid, Some(i32::MAX));
}
