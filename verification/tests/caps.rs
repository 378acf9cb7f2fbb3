//! What the installed screen can do.

use stui::screen::caps::{
    classify_query, find_version_token, first_meaningful_line, hardcopy_once, looks_like_usage_dump,
    parse_version, parse_version_token, probe_hardcopy, query_args, Caps, HardcopyOutcome, Support,
    Version,
};
use stui::screen::cmd::Run;

const V_400C03: &str = "Screen version 4.00.03 (FAU) 23-Oct-06\r\n";
const V_40602: &str = "Screen version 4.06.02 (GNU) 23-Oct-17\n";
const V_502: &str = "Screen version 5.0.2 (build on 2026-02-26)\n";
const V_NONSTANDARD: &str = "screen: something entirely different\n";

fn run(code: i32, stdout: &str, stderr: &str) -> Run {
    Run {
        command: "screen -Q windows".into(),
        code,
        stdout: stdout.into(),
        stderr: stderr.into(),
    }
}

#[test]
fn version_parsing_covers_four_samples() {
    let cases: [(&str, Option<Version>, Option<&str>); 4] = [
        (
            V_400C03,
            Some(Version {
                major: 4,
                minor: 0,
                patch: 3,
            }),
            Some("4.00.03"),
        ),
        (
            V_40602,
            Some(Version {
                major: 4,
                minor: 6,
                patch: 2,
            }),
            Some("4.06.02"),
        ),
        (
            V_502,
            Some(Version {
                major: 5,
                minor: 0,
                patch: 2,
            }),
            Some("5.0.2"),
        ),
        (V_NONSTANDARD, None, None),
    ];

    for (input, want_version, want_text) in cases {
        assert_eq!(parse_version(input), want_version, "input: {input:?}");
        assert_eq!(
            find_version_token(input).as_deref(),
            want_text,
            "input: {input:?}"
        );
    }
}

#[test]
fn version_token_rejects_non_versions() {
    assert!(parse_version_token("23-Oct-06").is_none());
    assert!(parse_version_token("11121.ttys002.MacBook-Pro-3").is_none());
    assert!(parse_version_token("4.0.3.1").is_none());
    assert!(parse_version_token("screen").is_none());
    assert_eq!(
        parse_version_token("4.9").unwrap(),
        Version {
            major: 4,
            minor: 9,
            patch: 0
        }
    );
}

#[test]
fn unknown_version_does_not_panic() {
    assert!(parse_version("").is_none());
    assert!(parse_version("Screen version unknown").is_none());
    assert!(find_version_token("Screen version unknown").is_none());
}

#[test]
fn query_classification_matches_measured_400c03_output() {
    let usage = run(
        1,
        "Use: screen [-opts] [cmd [args]]\n or: screen -r [host.tty]\n",
        "",
    );
    assert_eq!(classify_query(&usage), Support::No);

    let unsupported = run(1, "", "Error: Unknown option -Q");
    assert_eq!(classify_query(&unsupported), Support::No);

    let no_session = run(1, "No screen session found.", "");
    assert_eq!(classify_query(&no_session), Support::Unknown);

    let ok = run(0, "0$ bash\n", "");
    assert_eq!(classify_query(&ok), Support::Yes);
}

#[test]
fn nothing_is_usable_before_it_is_proven() {
    let caps = Caps::default();
    assert!(!caps.query.usable());
    assert!(!caps.hardcopy.usable());
    assert!(Support::Yes.usable());
    assert!(!Support::No.usable());
    assert!(!Support::Unknown.usable());
}

#[test]
fn detection_reads_version_and_query() {
    let version = run(1, V_400C03, "");
    let query = run(0, "0$ bash\n", "");
    let caps = Caps::detect("/usr/bin/screen".into(), &version, Some(("1.a", &query)));
    assert_eq!(caps.version_display(), "4.00.03");
    assert_eq!(caps.query, Support::Yes);
    let bare = Caps::detect("/usr/bin/screen".into(), &version, None);
    assert_eq!(bare.query, Support::Unknown);
    assert_eq!(query_args("1.a"), vec!["-S", "1.a", "-Q", "windows"]);
}

#[test]
fn hardcopy_needs_a_written_file() {
    assert!(matches!(
        hardcopy_once(&run(0, "", ""), 12),
        HardcopyOutcome::Wrote(12)
    ));
    let probe = probe_hardcopy(
        &hardcopy_once(&run(0, "", ""), 12),
        &hardcopy_once(&run(1, "", "boom"), 0),
    );
    let mut caps = Caps::default();
    caps.apply_hardcopy_probe(&probe);
    assert_eq!(caps.hardcopy, Support::Yes);
}

#[test]
fn usage_texts_are_recognised() {
    assert!(looks_like_usage_dump("Use: screen [-opts]\n"));
    assert!(!looks_like_usage_dump("0$ bash\n"));
    assert_eq!(first_meaningful_line("\n  \n boom \nmore"), "boom");
    assert_eq!(Version { major: 4, minor: 6, patch: 2 }.text(), "4.6.2");
}
