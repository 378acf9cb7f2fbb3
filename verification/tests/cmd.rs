//! The commands that are run, and what is kept of a run.

use stui::screen::cmd::{
    action_args, attach_args, create_args, display_command, display_command_with_env,
    exec_attach_args, program, record_run, rename_args, shell_quote, term_for_session, AttachKind,
    Candidate, SessionAction, ATTACH_SCRIPT,
};
use stui::screen::Error;

#[test]
fn quotes_only_when_needed() {
    assert_eq!(shell_quote("-ls"), "-ls");
    assert_eq!(shell_quote("/tmp/a b"), "'/tmp/a b'");
    assert_eq!(shell_quote(""), "''");
}

#[test]
fn a_quote_inside_is_escaped() {
    assert_eq!(shell_quote("it's"), "'it'\\''s'");
}

#[test]
fn create_args_are_exactly_four_items() {
    let args = create_args("work", "vim notes.md");
    assert_eq!(args, vec!["-U", "-dmS", "work", "vim notes.md"]);
    // The command is one argument: no shell splits it.
    assert_eq!(args.len(), 4);
}

#[test]
fn attach_args_cover_the_three_kinds() {
    assert_eq!(attach_args(AttachKind::Resume, "work"), vec!["-U", "-r", "work"]);
    assert_eq!(attach_args(AttachKind::Share, "work"), vec!["-U", "-x", "work"]);
    // Taking over is `-d -r`, two arguments; `-D` never appears.
    assert_eq!(
        attach_args(AttachKind::Takeover, "work"),
        vec!["-U", "-d", "-r", "work"]
    );
    for kind in [AttachKind::Resume, AttachKind::Share, AttachKind::Takeover] {
        assert!(
            !attach_args(kind, "work").iter().any(|a| a.contains("-D")),
            "no -D allowed"
        );
    }
}

#[test]
fn action_args_match_the_documented_commands() {
    assert_eq!(
        action_args(SessionAction::Detach, "12345.work"),
        vec!["-S", "12345.work", "-X", "detach"]
    );
    assert_eq!(
        action_args(SessionAction::Kill, "12345.work"),
        vec!["-S", "12345.work", "-X", "quit"]
    );
    // Wiping has no target.
    assert_eq!(action_args(SessionAction::Wipe, ""), vec!["-wipe"]);
}

#[test]
fn rename_args_carry_sessionname_subcommand() {
    assert_eq!(
        rename_args("12345.work", "new-name"),
        vec!["-S", "12345.work", "-X", "sessionname", "new-name"]
    );
}

#[test]
fn attaching_runs_through_the_script() {
    let args = exec_attach_args("/bin/stui", "/usr/bin/screen", AttachKind::Resume, "1.a");
    assert!(args.contains(&ATTACH_SCRIPT.to_string()));
    assert!(args.contains(&"/usr/bin/screen".to_string()));
    assert!(args.contains(&"1.a".to_string()));
}

#[test]
fn recorded_commands_name_the_terminal() {
    let args = create_args("demo", "top");
    assert_eq!(
        display_command("screen", &args),
        "screen -U -dmS demo top"
    );
    let shown = display_command_with_env("screen", &args, Some("screen-256color"));
    assert!(shown.contains("TERM=screen-256color"), "{shown}");
    assert!(!display_command_with_env("screen", &args, None).contains("TERM="));
    assert_eq!(term_for_session(true), Some("screen-256color"));
    assert_eq!(term_for_session(false), None);
}

#[test]
fn runs_keep_their_output_whatever_the_bytes() {
    let run = record_run("x".into(), Some(1), b"caf\xe9 menu", b"boom\n");
    assert!(!run.success());
    assert_eq!(run.code, 1);
    assert_eq!(run.stdout, "caf\u{FFFD} menu");
    assert_eq!(run.stderr, "boom\n");
    assert!(record_run("x".into(), Some(0), b"", b"").success());
    assert_eq!(record_run("x".into(), None, b"", b"").code, -1);
}

#[test]
fn the_program_comes_from_the_override_or_the_first_candidate() {
    let here = |path: &str, usable: bool| Candidate {
        path: path.to_string(),
        executable: usable,
    };
    let list = vec![here("/a/screen", false), here("/b/screen", true)];
    assert_eq!(program(None, &list).unwrap(), "/b/screen");
    assert_eq!(
        program(Some(here("/c/screen", true)), &list).unwrap(),
        "/c/screen"
    );
    assert!(matches!(
        program(None, &vec![here("/a/screen", false)]),
        Err(Error::NotFound)
    ));
    assert!(matches!(
        program(Some(here("/c/screen", false)), &list),
        Err(Error::NotExecutable { path }) if path == "/c/screen"
    ));
}
