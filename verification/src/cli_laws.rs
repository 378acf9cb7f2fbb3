//! What the rows of `stui ls` hold, and how languages and settings are chosen.

use crate::cli::{
    Cli, Command, LsArgs, any_created, command_of, created_text, heading, machine_fields,
    machine_lines, machine_row, name_column, note_lines, pid_text, plain_command, pretty_lines,
    pretty_row, widest,
};
use crate::config::{
    APP_DIR, CONFIG_VERSION, Config, DirModel, DirSource, ReadOutcome, config_dir_of, loaded_of,
    other_dirs, touched,
};
use crate::i18n::{
    Lang, Locale, detected_lang, dict_of, digit_run, fmt_of, locale_lang,
};
use crate::screen::parse::{
    EnumerationView, SessionView, notes_of, outlook_label, status_label,
};
use crate::text::{
    all_digits, decimal_of, is_ctrl, is_digit, join_of, lemma_decimal_digits, lower, opt_view,
    starts_with_text, trim_end_of, trim_of,
};
use crate::text_laws::{
    all_space, bare, separators_stand_between, trimming_takes_off_white_space,
};
use crate::util::width::{
    ellipsis_of, pad_of, sanitize_of, sanitized_text_is_inert, spaces, text_columns,
};
use crate::arguments::{
    grammar_of, only_switches, typed, was_given,
};
use vstd::prelude::*;

verus! {

/// No control character.
pub open spec fn no_ctrl(s: Seq<char>) -> bool {
    forall|i: int| 0 <= i < s.len() ==> !is_ctrl(#[trigger] s[i])
}

proof fn lemma_sane(s: Seq<char>)
    ensures
        no_ctrl(s) ==> sanitize_of(s) == s,
        no_ctrl(sanitize_of(s)),
{
    if no_ctrl(s) {
        assert(sanitize_of(s) =~= s);
    }
    sanitized_text_is_inert(s);
}

proof fn lemma_join_two(a: Seq<char>, b: Seq<char>, sep: Seq<char>)
    ensures
        join_of(seq![a, b], sep) == a + sep + b,
{
    assert(seq![a].push(b) =~= seq![a, b]);
    separators_stand_between(seq![a], sep, b);
    separators_stand_between(seq![a], sep, a);
}

/// A row for a program holds, with tabs between them, the number of the row from one on,
/// the name, the state, the process number, the date, and, if asked for, the full address;
/// what is not known stays empty.
pub proof fn rows_hold_their_fields(i: nat, s: SessionView, pid: i32, date: Seq<char>)
    requires
        s.pid == Some(pid),
        pid >= 0,
        s.created == Some(date),
        no_ctrl(date),
        no_ctrl(s.name),
        no_ctrl(status_label(s.status)),
        no_ctrl(s.full),
    ensures
        ({
            let tab: Seq<char> = seq!['\t'];
            let row = decimal_of(i + 1) + tab + s.name + tab + status_label(s.status) + tab
                + decimal_of(pid as nat) + tab + date;
            let undated = SessionView { created: None, ..s };
            &&& machine_row(i, s, false) == row
            &&& machine_row(i, s, true) == row + tab + s.full
            &&& machine_row(i, undated, false) == decimal_of(i + 1) + tab + s.name + tab
                + status_label(s.status) + tab + decimal_of(pid as nat) + tab
        }),
{
    reveal_strlit("\t");
    let tab: Seq<char> = seq!['\t'];
    assert("\t"@ =~= tab);
    lemma_sane(date);
    lemma_sane(s.name);
    lemma_sane(status_label(s.status));
    lemma_sane(s.full);
    let a = decimal_of(i + 1);
    let b = s.name;
    let c = status_label(s.status);
    let d = decimal_of(pid as nat);
    let none = Seq::<char>::empty();
    lemma_join_two(a, b, tab);
    separators_stand_between(seq![a, b], tab, c);
    separators_stand_between(seq![a, b, c], tab, d);
    separators_stand_between(seq![a, b, c, d], tab, date);
    separators_stand_between(seq![a, b, c, d], tab, none);
    separators_stand_between(seq![a, b, c, d, date], tab, s.full);
    assert(seq![a, b].push(c) =~= seq![a, b, c]);
    assert(seq![a, b, c].push(d) =~= seq![a, b, c, d]);
    assert(seq![a, b, c, d].push(date) =~= seq![a, b, c, d, date]);
    assert(seq![a, b, c, d].push(none) =~= seq![a, b, c, d, none]);
    assert(machine_fields(i, s, false) =~= seq![a, b, c, d, date]);
    assert(machine_fields(i, s, true) =~= seq![a, b, c, d, date].push(s.full));
    let undated = SessionView { created: None, ..s };
    assert(machine_fields(i, undated, false) =~= seq![a, b, c, d, none]);
    let row = a + tab + b + tab + c + tab + d + tab;
    assert(row + none =~= row);
}

/// There is a row for every session, in the order of the listing.
pub proof fn every_session_has_a_row(sessions: Seq<SessionView>, full: bool)
    ensures
        machine_lines(sessions, full).len() == sessions.len(),
        forall|i: int|
            0 <= i < sessions.len() ==> #[trigger] machine_lines(sessions, full)[i] == machine_row(
                i as nat,
                sessions[i],
                full,
            ),
{
}

/// For a reader there are a summary and a heading above a row for every session; where
/// there is no session, one line says so.
pub proof fn tables_have_a_heading(e: EnumerationView, full: bool, lang: Lang)
    ensures
        ({
            let lines = pretty_lines(e, full, lang);
            let n = e.list.sessions.len();
            let dir = match e.list.socket_dir {
                Some(dir) => sanitize_of(dir),
                None => "unknown"@,
            };
            &&& n == 0 ==> lines == seq![fmt_of(dict_of(lang).ls_no_sessions@, seq![dir])]
            &&& n > 0 ==> lines.len() == n + 2
            &&& n > 0 ==> lines[0] == fmt_of(
                dict_of(lang).ls_summary@,
                seq![decimal_of(n), dir, outlook_label(e.outlook)],
            )
        }),
{
}

proof fn lemma_widest(sessions: Seq<SessionView>, i: int)
    requires
        0 <= i < sessions.len(),
    ensures
        text_columns(sessions[i].name) <= widest(sessions),
    decreases sessions.len(),
{
    if i < sessions.len() - 1 {
        lemma_widest(sessions.drop_last(), i);
    }
}

/// In a table a name is shown in full unless it is wider than a limit that all names
/// share, and no name takes less than its column; the other columns follow with a
/// space between them.
pub proof fn table_rows_hold_their_columns(sessions: Seq<SessionView>, i: int, full: bool)
    requires
        0 <= i < sessions.len(),
        no_ctrl(sessions[i].name),
        text_columns(sessions[i].name) <= 32,
    ensures
        ({
            let s = sessions[i];
            let width = name_column(sessions);
            let dated = exists|k: int|
                0 <= k < sessions.len() && (#[trigger] sessions[k]).created is Some;
            let sp: Seq<char> = seq![' '];
            let number = decimal_of(i as nat + 1);
            let base = number + spaces(3 - number.len()) + sp + s.name + spaces(
                width - text_columns(s.name),
            ) + sp + pad_of(sanitize_of(status_label(s.status)), 11) + sp + pad_of(
                pid_text(s.pid, "-"@),
                7,
            );
            let row = base + if dated {
                sp + created_text(s.created, "-"@)
            } else {
                Seq::empty()
            } + if full {
                sp + sp + sanitize_of(s.full)
            } else {
                Seq::empty()
            };
            &&& 8 <= width <= 32
            &&& text_columns(s.name) <= width
            &&& pretty_row(i as nat, s, width, any_created(sessions), full) == trim_end_of(row)
        }),
{
    reveal_strlit(" ");
    reveal_strlit("  ");
    let s = sessions[i];
    let sp: Seq<char> = seq![' '];
    assert(" "@ =~= sp);
    assert("  "@ =~= sp + sp);
    lemma_sane(s.name);
    lemma_widest(sessions, i);
    let width = name_column(sessions);
    assert(ellipsis_of(s.name, width) == s.name);
    let number = decimal_of(i as nat + 1);
    let base = number + spaces(3 - number.len()) + sp + s.name + spaces(
        width - text_columns(s.name),
    ) + sp + pad_of(sanitize_of(status_label(s.status)), 11) + sp + pad_of(
        pid_text(s.pid, "-"@),
        7,
    );
    let columns = number + spaces(3 - number.len()) + " "@ + pad_of(s.name, width) + " "@ + pad_of(
        sanitize_of(status_label(s.status)),
        11,
    ) + " "@ + pad_of(pid_text(s.pid, "-"@), 7);
    assert(columns =~= base);
    let none = Seq::<char>::empty();
    let when = created_text(s.created, "-"@);
    assert(base + none + none =~= base);
    assert(base + (sp + when) + none =~= base + sp + when);
    assert(base + none + (sp + sp + sanitize_of(s.full)) =~= base + (sp + sp) + sanitize_of(s.full));
    assert(base + (sp + when) + (sp + sp + sanitize_of(s.full)) =~= base + sp + when + (sp + sp)
        + sanitize_of(s.full));
}

/// Each remark on the listing becomes one line, in order.
pub proof fn every_remark_is_passed_on(e: EnumerationView, lang: Lang)
    ensures
        note_lines(e, lang).len() == notes_of(e).len(),
        forall|i: int|
            0 <= i < notes_of(e).len() ==> #[trigger] note_lines(e, lang)[i] == "stui: "@ + dict_of(
                lang,
            ).note_label@ + ": "@ + notes_of(e)[i],
{
}

// ---------------------------------------------------------------------------
// Languages
// ---------------------------------------------------------------------------
/// A language that is set by its name counts, in capitals or not and with white space
/// around it or not, whatever the locale is.
pub proof fn the_set_language_counts(
    before: Seq<char>,
    key: Seq<char>,
    after: Seq<char>,
    l: Locale,
)
    requires
        all_space(before),
        all_space(after),
        bare(key),
    ensures
        lower(key) == "zh"@ || lower(key) == "chinese"@ ==> detected_lang(
            before + key + after,
            l,
        ) == Lang::Zh,
        lower(key) == "en"@ || lower(key) == "english"@ ==> detected_lang(
            before + key + after,
            l,
        ) == Lang::En,
{
    reveal_strlit("zh");
    reveal_strlit("chinese");
    reveal_strlit("en");
    reveal_strlit("english");
    trimming_takes_off_white_space(before, key, after);
    assert("zh"@[0] == 'z' && "en"@[0] == 'e' && "chinese"@[0] == 'c' && "english"@[0] == 'e');
    assert("zh"@ != "en"@ && "zh"@ != "english"@ && "chinese"@ != "en"@ && "chinese"@ != "english"@);
}

/// Otherwise the first of the three locale variables that names a language counts, and
/// English where none does.
pub proof fn the_locale_decides_otherwise(setting: Seq<char>, l: Locale)
    requires
        ({
            let key = lower(trim_of(setting));
            key != "zh"@ && key != "chinese"@ && key != "en"@ && key != "english"@
        }),
    ensures
        ({
            let a = locale_lang(opt_view(l.lc_all));
            let b = locale_lang(opt_view(l.lc_messages));
            let c = locale_lang(opt_view(l.lang));
            let r = detected_lang(setting, l);
            &&& a matches Some(x) ==> r == x
            &&& a is None ==> (b matches Some(x) ==> r == x)
            &&& a is None && b is None ==> (c matches Some(x) ==> r == x)
            &&& a is None && b is None && c is None ==> r == Lang::En
        }),
{
}

/// A locale names a language by how it begins, in capitals or not.
pub proof fn locales_begin_with_their_language(key: Seq<char>, rest: Seq<char>)
    ensures
        lower(key) == "zh"@ ==> locale_lang(Some(key + rest)) == Some(Lang::Zh),
        lower(key) == "en"@ ==> locale_lang(Some(key + rest)) == Some(Lang::En),
        locale_lang(None) is None,
{
    reveal_strlit("zh");
    reveal_strlit("en");
    let s = lower(key + rest);
    assert(s =~= lower(key) + lower(rest));
    assert(s.subrange(0, lower(key).len() as int) =~= lower(key));
    assert("zh"@[0] == 'z' && "en"@[0] == 'e');
    if lower(key) == "en"@ {
        if starts_with_text(s, "zh"@) {
            assert(s.subrange(0, 2)[0] == s[0]);
        }
    }
}

// ---------------------------------------------------------------------------
// Places and defaults
// ---------------------------------------------------------------------------
/// The configuration is in `$SCREEN_TUI_HOME` if that is set, else in a directory of its
/// own under `$XDG_CONFIG_HOME`, else under `.config` at home.
pub proof fn the_configuration_has_its_place(
    own: Seq<char>,
    xdg: Seq<char>,
    home: Seq<char>,
)
    requires
        own.len() > 0,
        xdg.len() > 0,
        xdg.last() != '/',
        home.len() > 0,
        home.last() != '/',
    ensures
        ({
            let none = Some(Seq::<char>::empty());
            let in_xdg = xdg + seq!['/'] + APP_DIR@;
            let in_home = home + seq!['/'] + ".config"@ + seq!['/'] + APP_DIR@;
            &&& forall|x: Option<Seq<char>>, h: Option<Seq<char>>| #[trigger]
                config_dir_of(Some(own), x, h) == Some((own, DirSource::Env))
            &&& forall|h: Option<Seq<char>>| #[trigger]
                config_dir_of(None, Some(xdg), h) == Some((in_xdg, DirSource::Xdg))
            &&& forall|h: Option<Seq<char>>| #[trigger]
                config_dir_of(none, Some(xdg), h) == Some((in_xdg, DirSource::Xdg))
            &&& config_dir_of(None, None, Some(home)) == Some((in_home, DirSource::Home))
            &&& config_dir_of(none, none, Some(home)) == Some((in_home, DirSource::Home))
            &&& config_dir_of(None, None, None) is None
            &&& config_dir_of(none, none, none) is None
        }),
{
    reveal_strlit("/");
    reveal_strlit(".config");
    assert("/"@ =~= seq!['/']);
    let c = home + seq!['/'] + ".config"@;
    assert(c.last() == 'g');
}

proof fn lemma_other_dirs_filter(dirs: Seq<DirModel>, path: Seq<char>)
    ensures
        other_dirs(dirs, path) == dirs.filter(|d: DirModel| d.path != path),
    decreases dirs.len(),
{
    reveal(Seq::filter);
    if dirs.len() > 0 {
        lemma_other_dirs_filter(dirs.drop_last(), path);
    }
}

/// A directory that is used goes to the front with the time, the others keep their order
/// behind it, and what is more than allowed falls off at the end.
pub proof fn used_directories_go_to_the_front(
    dirs: Seq<DirModel>,
    path: Seq<char>,
    stamp: Seq<char>,
    max: nat,
)
    ensures
        ({
            let others = dirs.filter(|d: DirModel| d.path != path);
            let r = touched(dirs, path, stamp, max);
            &&& r.len() == if others.len() + 1 <= max {
                others.len() + 1
            } else {
                max
            }
            &&& max > 0 ==> r[0] == (DirModel { path, last_used: stamp })
            &&& forall|i: int| 0 < i < r.len() ==> #[trigger] r[i] == others[i - 1]
        }),
{
    lemma_other_dirs_filter(dirs, path);
}

/// Without a file, or with one that cannot be used, everything has its default, and the
/// user is told of the latter; a file that was read counts as it is, and one of a newer version is
/// never written.
pub proof fn defaults_stand_in_for_the_file(
    path: String,
    error: String,
    backup: Result<String, String>,
    config: Config,
)
    ensures
        ({
            let missing = loaded_of(ReadOutcome::Missing);
            let nowhere = loaded_of(ReadOutcome::NoPath);
            let unreadable = loaded_of(ReadOutcome::Unreadable { path, error });
            let corrupt = loaded_of(ReadOutcome::Corrupt { error, backup });
            let read = loaded_of(ReadOutcome::Parsed(config));
            let c = missing.config;
            &&& missing.warnings.len() == 0 && !missing.read_only && nowhere == missing
            &&& c.language == "auto"@ && c.max_recent_dirs == 10 && c.dirs.len() == 0
                && c.sessions.len() == 0 && c.version == CONFIG_VERSION
            &&& c.ui.refresh_ms == 3000 && c.ui.icons && c.ui.layout == "auto"@
            &&& c.defaults.use_utf8 && c.defaults.prefer_256color && c.defaults.attach_after_create
                && c.defaults.escape_prefix is None
            &&& unreadable.config == c && unreadable.warnings.len() == 1 && !unreadable.read_only
            &&& corrupt.config == c && corrupt.warnings.len() == 1 && !corrupt.read_only
            &&& read.config == config@
            &&& read.read_only <==> config.version > CONFIG_VERSION
            &&& read.warnings.len() == if config.version > CONFIG_VERSION {
                1nat
            } else {
                0
            }
        }),
{
}

// ---------------------------------------------------------------------------
// Arguments
// ---------------------------------------------------------------------------
/// Without a command the interface is opened; each command is chosen by its name, and the
/// switches of `ls` by theirs.
pub proof fn arguments_choose_the_command(header: bool, full: bool)
    ensures
        ({
            let flags = seq![("no-header"@, header), ("full"@, full)];
            &&& command_of(None) == Some(Cli { command: None })
            &&& command_of(Some(("ls"@, flags))) == Some(
                Cli { command: Some(Command::Ls(LsArgs { no_header: header, full })) },
            )
            &&& command_of(Some(("doctor"@, Seq::empty()))) == Some(
                Cli { command: Some(Command::Doctor) },
            )
            &&& command_of(Some(("version"@, Seq::empty()))) == Some(
                Cli { command: Some(Command::Version) },
            )
        }),
{
    reveal_strlit("ls");
    reveal_strlit("doctor");
    reveal_strlit("version");
    reveal_strlit("no-header");
    reveal_strlit("full");
    let flags = seq![("no-header"@, header), ("full"@, full)];
    assert("doctor"@.len() == 6 && "version"@.len() == 7 && "ls"@.len() == 2);
    assert("no-header"@.len() == 9 && "full"@.len() == 4);
    assert(flags[0] == ("no-header"@, header) && flags[1] == ("full"@, full));
    assert(was_given(flags, "no-header"@) == header) by {
        if was_given(flags, "no-header"@) {
            let i = choose|i: int| 0 <= i < flags.len() && #[trigger] flags[i] == ("no-header"@, true);
            assert(i == 0 || i == 1);
        }
    }
    assert(was_given(flags, "full"@) == full) by {
        if was_given(flags, "full"@) {
            let i = choose|i: int| 0 <= i < flags.len() && #[trigger] flags[i] == ("full"@, true);
            assert(i == 0 || i == 1);
        }
    }
}

/// A place for an argument that there is not stays as it stands.
pub proof fn places_without_an_argument_stay(n: nat, rest: Seq<char>, args: Seq<Seq<char>>)
    requires
        n >= args.len(),
    ensures
        fmt_of(seq!['{'] + rest, args) == seq!['{'] + fmt_of(rest, args) || rest.len() == 0
            || is_digit(rest[0]),
        fmt_of(seq!['{'] + decimal_of(n) + seq!['}'] + rest, args) == seq!['{'] + fmt_of(
            decimal_of(n) + seq!['}'] + rest,
            args,
        ),
{
    let open = seq!['{'] + rest;
    assert(open.drop_first() =~= rest);
    let t = seq!['{'] + decimal_of(n) + seq!['}'] + rest;
    let tail = t.drop_first();
    assert(tail =~= decimal_of(n) + seq!['}'] + rest);
    lemma_decimal_digits(n);
    lemma_run_of_digits(decimal_of(n), seq!['}'] + rest);
    assert(tail =~= decimal_of(n) + (seq!['}'] + rest));
    let d = decimal_of(n).len() as int;
    assert(digit_run(tail) == d);
    assert(t.subrange(1, 1 + d) =~= decimal_of(n));
}

proof fn lemma_run_of_digits(digits: Seq<char>, rest: Seq<char>)
    requires
        all_digits(digits),
        rest.len() > 0 ==> !is_digit(rest[0]),
    ensures
        digit_run(digits + rest) == digits.len(),
    decreases digits.len(),
{
    let s = digits + rest;
    if digits.len() > 0 {
        assert(s[0] == digits[0] && is_digit(digits[0]));
        assert(s.drop_first() =~= digits.drop_first() + rest);
        assert forall|i: int| 0 <= i < digits.drop_first().len() implies is_digit(
            #[trigger] digits.drop_first()[i],
        ) by {
            assert(digits.drop_first()[i] == digits[i + 1]);
        }
        lemma_run_of_digits(digits.drop_first(), rest);
    } else {
        assert(s =~= rest);
    }
}

/// The heading of a table has the labels over their columns.
pub proof fn headings_stand_over_their_columns(width: nat, dated: bool, lang: Lang)
    ensures
        ({
            let t = dict_of(lang);
            let sp: Seq<char> = seq![' '];
            let column = |label: Seq<char>, w: nat| label + spaces(w - text_columns(label));
            let base = column(t.ls_col_idx@, 3) + sp + column(t.ls_col_name@, width) + sp + column(
                t.ls_col_status@,
                11,
            ) + sp + column(t.ls_col_pid@, 7);
            heading(width, dated, lang) == trim_end_of(
                if dated {
                    base + sp + t.ls_col_created@
                } else {
                    base
                },
            )
        }),
{
    reveal_strlit(" ");
    assert(" "@ =~= seq![' ']);
}

/// A plain command line is one of the three commands by its name, `ls` with the switches
/// that stand behind it, or nothing at all.
pub proof fn plain_lines_mean_their_command(program: Seq<char>)
    ensures
        ({
            let rows = |no_header: bool, full: bool|
                Some(Cli { command: Some(Command::Ls(LsArgs { no_header, full })) });
            &&& plain_command(seq![program]) == Some(Cli { command: None })
            &&& plain_command(seq![program, "doctor"@]) == Some(
                Cli { command: Some(Command::Doctor) },
            )
            &&& plain_command(seq![program, "version"@]) == Some(
                Cli { command: Some(Command::Version) },
            )
            &&& plain_command(seq![program, "ls"@]) == rows(false, false)
            &&& plain_command(seq![program, "ls"@, "--no-header"@]) == rows(true, false)
            &&& plain_command(seq![program, "ls"@, "--full"@]) == rows(false, true)
            &&& plain_command(seq![program, "ls"@, "--no-header"@, "--full"@]) == rows(true, true)
        }),
{
    reveal_strlit("ls");
    reveal_strlit("doctor");
    reveal_strlit("version");
    reveal_strlit("--");
    reveal_strlit("no-header");
    reveal_strlit("full");
    reveal_strlit("--no-header");
    reveal_strlit("--full");
    assert("doctor"@.len() == 6 && "version"@.len() == 7 && "ls"@.len() == 2);
    let h = "--no-header"@;
    let f = "--full"@;
    assert(h.len() == 11 && f.len() == 6);
    let ls = grammar_of(Seq::empty()).commands[0];
    assert(ls.flags.len() == 2);
    assert(typed(ls.flags[0]) =~= h);
    assert(typed(ls.flags[1]) =~= f);
    let none = Seq::<Seq<char>>::empty();
    let a = seq![program, "ls"@];
    let b = seq![program, "ls"@, h];
    let c = seq![program, "ls"@, f];
    let d = seq![program, "ls"@, h, f];
    assert(a.skip(2) =~= none);
    assert(b.skip(2) =~= seq![h]);
    assert(c.skip(2) =~= seq![f]);
    assert(d.skip(2) =~= seq![h, f]);
    let x = seq![h];
    let y = seq![f];
    let z = seq![h, f];
    assert(x[0] == h && y[0] == f && z[0] == h && z[1] == f);
    assert(x.contains(h) && y.contains(f) && z.contains(h) && z.contains(f));
    assert(!x.contains(f) && !y.contains(h));
    assert(only_switches(ls, none));
    assert forall|k: int| 0 <= k < x.len() implies exists|j: int|
        0 <= j < ls.flags.len() && #[trigger] x[k] == typed(#[trigger] ls.flags[j]) by {
        assert(x[k] == typed(ls.flags[0]));
    }
    assert forall|k: int| 0 <= k < y.len() implies exists|j: int|
        0 <= j < ls.flags.len() && #[trigger] y[k] == typed(#[trigger] ls.flags[j]) by {
        assert(y[k] == typed(ls.flags[1]));
    }
    assert forall|k: int| 0 <= k < z.len() implies exists|j: int|
        0 <= j < ls.flags.len() && #[trigger] z[k] == typed(#[trigger] ls.flags[j]) by {
        if k == 0 {
            assert(z[k] == typed(ls.flags[0]));
        } else {
            assert(z[k] == typed(ls.flags[1]));
        }
    }
    assert(only_switches(ls, x) && only_switches(ls, y) && only_switches(ls, z));
}

} // verus!
