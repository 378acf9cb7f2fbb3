//! The command line and what `ls` prints.

use stui::cli::{
    language_setting, ls, machine_rows, pretty_rows, sessions_of, Cli, Command, LsArgs, EXIT_ENV,
    EXIT_FAILURE, EXIT_OK,
};
use stui::i18n::Lang;
use stui::screen::parse::{parse_list_output, Enumeration, Outlook};
use stui::screen::Error;
use stui::util::width::sanitize;

fn args(list: &[&str]) -> Vec<String> {
    list.iter().map(|s| s.to_string()).collect()
}

fn enumeration(text: &str) -> Enumeration {
    Enumeration {
        outlook: Outlook::Available(2),
        list: parse_list_output(text).unwrap(),
        list_error: None,
    }
}

const TWO: &str = "There are screens on:\n\t12345.work\t(09/23/2026 10:00:00 AM)\t(Detached)\n\t12346.llm\t(Attached)\n2 Sockets in /tmp/.screen.\n";

#[test]
fn cli_parses_expected_shapes() {
    let parse = |list: &[&str]| Cli::try_parse_from("0.1.0", &args(list));
    let cli = parse(&["stui", "ls", "--no-header", "--full"]).unwrap();
    match cli.command {
        Some(Command::Ls(args)) => {
            assert!(args.no_header);
            assert!(args.full);
        }
        other => panic!("expected ls, got {other:?}"),
    }

    let cli = parse(&["stui", "doctor"]).unwrap();
    assert!(matches!(cli.command, Some(Command::Doctor)));

    let cli = parse(&["stui", "version"]).unwrap();
    assert!(matches!(cli.command, Some(Command::Version)));

    let cli = parse(&["stui"]).unwrap();
    assert!(cli.command.is_none());
}

#[test]
fn switches_are_off_unless_given() {
    let cli = Cli::try_parse_from("0.1.0", &args(&["stui", "ls", "--full"])).unwrap();
    assert_eq!(
        cli.command,
        Some(Command::Ls(LsArgs {
            no_header: false,
            full: true
        }))
    );
}

#[test]
fn mistakes_and_requests_for_help_are_refusals() {
    let refusal = Cli::try_parse_from("0.1.0", &args(&["stui", "frobnicate"])).unwrap_err();
    assert_eq!(refusal.code, 2);
    assert!(refusal.to_stderr);
    let refusal = Cli::try_parse_from("0.1.0", &args(&["stui", "--version"])).unwrap_err();
    assert_eq!(refusal.code, 0);
    assert!(!refusal.to_stderr);
    assert!(refusal.text.contains("stui 0.1.0"));
    let refusal = Cli::try_parse_from("0.1.0", &args(&["stui", "--help"])).unwrap_err();
    assert!(refusal.text.contains("never emit ANSI escape sequences"));
}

#[test]
fn exit_codes_match_the_documented_contract() {
    assert_eq!((EXIT_OK, EXIT_FAILURE, EXIT_ENV), (0, 1, 2));
}

#[test]
fn sanitize_removes_escape_sequences_from_names() {
    assert_eq!(sanitize("a\tb"), "a?b");
    assert!(!sanitize("\x1b[31mred").contains('\x1b'));
}

#[test]
fn rows_for_programs_have_tabs_between_the_fields() {
    let e = enumeration(TWO);
    assert_eq!(
        machine_rows(&e, false),
        vec![
            "1\tllm\tattached\t12346\t",
            "2\twork\tdetached\t12345\t09/23/2026 10:00:00 AM"
        ]
    );
    assert_eq!(
        machine_rows(&e, true)[0],
        "1\tllm\tattached\t12346\t\t12346.llm"
    );
    assert_eq!(sessions_of(&e).len(), 2);
}

#[test]
fn rows_for_programs_carry_no_escape_sequences() {
    let mut e = enumeration(TWO);
    e.list.sessions[0].name = "x\x1b[31m".into();
    e.list.sessions[0].created = Some("a\x07b".into());
    let row = &machine_rows(&e, true)[0];
    assert!(row.chars().all(|c| !c.is_control() || c == '\t'), "{row:?}");
}

#[test]
fn rows_for_people_are_aligned() {
    let rows = pretty_rows(&enumeration(TWO), true, Lang::En);
    assert_eq!(rows.len(), 4);
    assert!(rows[0].contains("/tmp/.screen"), "{}", rows[0]);
    assert_eq!(rows[2], "1   llm      attached    12346   -  12346.llm");
    assert_eq!(
        rows[3],
        "2   work     detached    12345   09/23/2026 10:00:00 AM  12345.work"
    );
}

#[test]
fn an_empty_list_says_so() {
    let mut e = enumeration("No Sockets found in /tmp/.screen.\n");
    let rows = pretty_rows(&e, false, Lang::Zh);
    assert_eq!(rows, vec!["# 未发现 screen 会话（socket 目录 /tmp/.screen）"]);
    e.list.socket_dir = None;
    assert!(pretty_rows(&e, false, Lang::En)[0].contains("unknown"));
}

#[test]
fn ls_says_by_its_code_how_it_went() {
    let plain = LsArgs {
        no_header: false,
        full: false,
    };
    let out = ls(&Ok(enumeration(TWO)), plain, true, Lang::En);
    assert_eq!(out.code, EXIT_OK);
    assert_eq!(out.stdout.len(), 4);
    let out = ls(&Ok(enumeration(TWO)), plain, false, Lang::En);
    assert_eq!(out.stdout.len(), 2);
    let bare = LsArgs {
        no_header: true,
        full: false,
    };
    let out = ls(&Ok(enumeration(TWO)), bare, true, Lang::En);
    assert_eq!(out.stdout.len(), 2);
    let out = ls(&Ok(enumeration("")), plain, false, Lang::En);
    assert_eq!(out.code, EXIT_FAILURE);
    assert!(out.stdout.is_empty());
    let out = ls(&Err(Error::NotFound), plain, true, Lang::En);
    assert_eq!(out.code, EXIT_ENV);
    assert!(out.stdout.is_empty());
    assert!(out.stderr[0].starts_with("stui: "));
}

#[test]
fn the_environment_decides_the_language_first() {
    assert_eq!(language_setting(Some("zh".into()), "en".into()), "zh");
    assert_eq!(language_setting(Some(String::new()), "en".into()), "en");
    assert_eq!(language_setting(None, "auto".into()), "auto");
}

#[test]
fn plain_command_lines_are_always_read() {
    let parse = |list: &[&str]| Cli::try_parse_from("9.9.9", &args(list)).map(|cli| cli.command);
    let ls = |no_header: bool, full: bool| Some(Command::Ls(LsArgs { no_header, full }));
    assert_eq!(parse(&[]).unwrap(), None);
    assert_eq!(parse(&["anything at all"]).unwrap(), None);
    assert_eq!(parse(&["--help"]).unwrap(), None);
    assert_eq!(parse(&["stui", "ls"]).unwrap(), ls(false, false));
    assert_eq!(parse(&["stui", "ls", "--no-header"]).unwrap(), ls(true, false));
    assert_eq!(parse(&["stui", "ls", "--full", "--no-header"]).unwrap(), ls(true, true));
    assert_eq!(parse(&["", "doctor"]).unwrap(), Some(Command::Doctor));
    assert_eq!(parse(&["/usr/bin/stui", "version"]).unwrap(), Some(Command::Version));
}

#[test]
fn a_switch_is_given_once_and_to_its_own_command() {
    for list in [
        vec!["stui", "ls", "--full", "--full"],
        vec!["stui", "doctor", "--full"],
        vec!["stui", "--full"],
        vec!["stui", "ls", "doctor"],
    ] {
        let first = Cli::try_parse_from("0.1.0", &args(&list)).unwrap_err();
        let again = Cli::try_parse_from("0.1.0", &args(&list)).unwrap_err();
        assert_eq!(first.code, 2, "{list:?}");
        assert_eq!(first.text, again.text);
        assert!(!first.text.contains('\u{1b}'));
    }
}

#[test]
fn the_long_help_of_ls_says_when_the_header_is_left_out() {
    let help = |list: &[&str]| Cli::try_parse_from("0.1.0", &args(list)).unwrap_err();
    let long = help(&["stui", "ls", "--help"]);
    assert_eq!(long.code, 0);
    assert!(long.text.contains("Implied automatically when stdout is not a TTY."));
    assert!(long.text.contains("Append the `<pid>.<name>` address as the last column"));
    let short = help(&["stui", "ls", "-h"]);
    assert!(!short.text.contains("Implied automatically"));
    assert!(short.text.contains("tab-separated fields"));
}
