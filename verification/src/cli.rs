//! The command line: what may be given, and what `ls` prints.

use crate::app::state::{
    fmt1, fmt3,
};
use crate::i18n::{
    Lang, dict, dict_of, fmt_of,
};
use crate::screen::parse::{
    Enumeration, EnumerationView, SessionRecord, SessionView, notes_of, outlook_label,
    push_string, session_views, status_label,
};
use crate::screen::{
    Error, error_text,
};
use crate::text::{
    chars_of, decimal, decimal_of, is_ctrl, is_digit, join, join_of, lemma_decimal_digits,
    opt_view, same_str, signed_decimal, signed_decimal_of, string_of, trim_end, trim_end_of,
    views,
};
use crate::util::width::{
    clip_with_ellipsis, display_width, ellipsis_of, pad_measured, pad_of, pad_right, sanitize,
    sanitize_of, sanitized_text_is_inert, spaces, text_columns,
};
use crate::arguments::{
    CommandRead, arguments_read, clap_matches, flags_view, grammar, grammar_of, only_switches,
    read_view, typed, was_given,
};
use vstd::prelude::*;

verus! {

/// There are sessions.
pub const EXIT_OK: u8 = 0;

/// There is nothing to list.
pub const EXIT_FAILURE: u8 = 1;

/// The environment is broken: no screen, or no listing to be had.
pub const EXIT_ENV: u8 = 2;

// ---------------------------------------------------------------------------
// Arguments
// ---------------------------------------------------------------------------
/// How `ls` was asked to print.
#[derive(Debug, Clone, Copy, PartialEq, Eq, Structural)]
pub struct LsArgs {
    /// Rows only, with tabs between the fields. Implied where the output is not
    /// a terminal.
    pub no_header: bool,
    /// The full address as a last column.
    pub full: bool,
}

#[derive(Debug, Clone, Copy, PartialEq, Eq, Structural)]
pub enum Command {
    Ls(LsArgs),
    Doctor,
    Version,
}

#[derive(Debug, Clone, Copy, PartialEq, Eq, Structural)]
pub struct Cli {
    /// Without a command the interface opens.
    pub command: Option<Command>,
}

/// The meaning of what was read; none for a command that does not exist.
pub open spec fn command_of(read: Option<(Seq<char>, Seq<(Seq<char>, bool)>)>) -> Option<Cli> {
    match read {
        None => Some(Cli { command: None }),
        Some((name, flags)) => if name == "ls"@ {
            Some(
                Cli {
                    command: Some(
                        Command::Ls(
                            LsArgs {
                                no_header: was_given(flags, "no-header"@),
                                full: was_given(flags, "full"@),
                            },
                        ),
                    ),
                },
            )
        } else if name == "doctor"@ {
            Some(Cli { command: Some(Command::Doctor) })
        } else if name == "version"@ {
            Some(Cli { command: Some(Command::Version) })
        } else {
            None
        },
    }
}

fn given(flags: &Vec<(String, bool)>, name: &str) -> (r: bool)
    ensures
        r == was_given(flags_view(flags@), name@),
{
    let ghost all = flags_view(flags@);
    let mut i: usize = 0;
    while i < flags.len()
        invariant
            all == flags_view(flags@),
            i <= flags@.len(),
            forall|k: int| 0 <= k < i ==> #[trigger] all[k] != (name@, true),
        decreases flags.len() - i,
    {
        assert(all[i as int] == (flags@[i as int].0@, flags@[i as int].1));
        if flags[i].1 && same_str(flags[i].0.as_str(), name) {
            return true;
        }
        i += 1;
    }
    false
}

/// What a plain command line asks for: no command, or one with nothing but its own
/// switches behind it, each at most once.
pub open spec fn plain_command(args: Seq<Seq<char>>) -> Option<Cli> {
    let rest = args.skip(2);
    let ls = grammar_of(Seq::empty()).commands[0];
    if args.len() <= 1 {
        Some(Cli { command: None })
    } else if args[1] == "ls"@ && only_switches(ls, rest) {
        Some(
            Cli {
                command: Some(
                    Command::Ls(
                        LsArgs {
                            no_header: rest.contains("--no-header"@),
                            full: rest.contains("--full"@),
                        },
                    ),
                ),
            },
        )
    } else if args[1] == "doctor"@ && args.len() == 2 {
        Some(Cli { command: Some(Command::Doctor) })
    } else if args[1] == "version"@ && args.len() == 2 {
        Some(Cli { command: Some(Command::Version) })
    } else {
        None
    }
}

proof fn lemma_plain_command(version: Seq<char>, args: Seq<Seq<char>>)
    ensures
        ({
            let c = grammar_of(version).commands;
            &&& c.len() == 3
            &&& c[0] == grammar_of(Seq::empty()).commands[0]
            &&& c[0].name == "ls"@ && c[1].name == "doctor"@ && c[2].name == "version"@
            &&& c[0].name != c[1].name && c[0].name != c[2].name && c[1].name != c[2].name
            &&& c[0].flags.len() == 2
            &&& c[0].flags[0].name == "no-header"@ && c[0].flags[1].name == "full"@
            &&& typed(c[0].flags[0]) == "--no-header"@ && typed(c[0].flags[1]) == "--full"@
            &&& args.len() == 2 ==> only_switches(c[1], args.skip(2)) && only_switches(
                c[2],
                args.skip(2),
            )
        }),
{
    reveal_strlit("ls");
    reveal_strlit("doctor");
    reveal_strlit("version");
    reveal_strlit("no-header");
    reveal_strlit("full");
    reveal_strlit("--");
    reveal_strlit("--no-header");
    reveal_strlit("--full");
    let c = grammar_of(version).commands;
    assert("ls"@.len() != "doctor"@.len() && "ls"@.len() != "version"@.len());
    assert("doctor"@.len() != "version"@.len());
    assert(typed(c[0].flags[0]) =~= "--no-header"@);
    assert(typed(c[0].flags[1]) =~= "--full"@);
}

/// Why there is nothing to run: a mistake, or a text that was asked for.
#[derive(Debug)]
pub struct Refusal {
    pub code: i32,
    /// Where the text goes: a mistake is told on the error stream.
    pub to_stderr: bool,
    pub text: String,
}

impl Cli {
    /// The meaning of what was read.
    pub fn interpret(read: &Option<CommandRead>) -> (r: Option<Cli>)
        ensures
            r == command_of(read_view(*read)),
    {
        match read {
            None => Some(Cli { command: None }),
            Some((name, flags)) => {
                if same_str(name.as_str(), "ls") {
                    let args = LsArgs {
                        no_header: given(flags, "no-header"),
                        full: given(flags, "full"),
                    };
                    Some(Cli { command: Some(Command::Ls(args)) })
                } else if same_str(name.as_str(), "doctor") {
                    Some(Cli { command: Some(Command::Doctor) })
                } else if same_str(name.as_str(), "version") {
                    Some(Cli { command: Some(Command::Version) })
                } else {
                    None
                }
            },
        }
    }

    /// Reads the arguments, the program's own name first.
    pub fn try_parse_from(version: &'static str, args: &Vec<String>) -> (r: Result<Cli, Refusal>)
        ensures
            match arguments_read(grammar_of(version@), views(args@)) {
                Ok(read) => r matches Ok(cli) && Some(cli) == command_of(read),
                Err((code, text)) => r matches Err(refusal) && refusal.code == code && refusal.text@
                    == text && refusal.to_stderr == (code != 0),
            },
            plain_command(views(args@)) matches Some(cli) ==> (r matches Ok(c) && c == cli),
            r matches Err(refusal) ==> refusal.code == 0 || refusal.code == 2,
    {
        let g = grammar(version);
        proof {
            lemma_plain_command(version@, views(args@));
        }
        match clap_matches(&g, args) {
            Err((code, text)) => Err(Refusal { code, to_stderr: code != 0, text }),
            Ok(read) => match Cli::interpret(&read) {
                Some(cli) => Ok(cli),
                None => {
                    proof {
                        let name = match read {
                            Some(command) => command.0@,
                            None => Seq::empty(),
                        };
                        let i = choose|i: int|
                            0 <= i < g@.commands.len() && (#[trigger] g@.commands[i]).name == name;
                        assert(i == 0 || i == 1 || i == 2);
                        assert(false);
                    }
                    Err(Refusal { code: 2, to_stderr: true, text: String::new() })
                },
            },
        }
    }
}

/// The language setting: the environment goes before the configuration.
pub fn language_setting(environment: Option<String>, configured: String) -> (r: String)
    ensures
        r@ == match environment {
            Some(s) if s@.len() > 0 => s@,
            _ => configured@,
        },
{
    match environment {
        Some(s) => {
            if s.as_str().is_empty() {
                configured
            } else {
                s
            }
        },
        None => configured,
    }
}

// ---------------------------------------------------------------------------
// Rows
// ---------------------------------------------------------------------------
/// The sessions in their order.
pub fn sessions_of(enumeration: &Enumeration) -> (r: &[SessionRecord])
    ensures
        r@ == enumeration.list.sessions@,
{
    enumeration.list.sessions.as_slice()
}

pub open spec fn pid_text(pid: Option<i32>, missing: Seq<char>) -> Seq<char> {
    match pid {
        Some(p) => signed_decimal_of(p as int),
        None => missing,
    }
}

pub open spec fn created_text(created: Option<Seq<char>>, missing: Seq<char>) -> Seq<char> {
    match created {
        Some(c) => sanitize_of(c),
        None => missing,
    }
}

/// The fields of a row for programs.
pub open spec fn machine_fields(i: nat, s: SessionView, full: bool) -> Seq<Seq<char>> {
    let fields = seq![
        decimal_of(i + 1),
        sanitize_of(s.name),
        sanitize_of(status_label(s.status)),
        pid_text(s.pid, Seq::empty()),
        created_text(s.created, Seq::empty()),
    ];
    if full {
        fields.push(sanitize_of(s.full))
    } else {
        fields
    }
}

/// A row for programs: the fields in a fixed order with tabs between them.
pub open spec fn machine_row(i: nat, s: SessionView, full: bool) -> Seq<char> {
    join_of(machine_fields(i, s, full), "\t"@)
}

/// The rows for programs.
pub open spec fn machine_lines(sessions: Seq<SessionView>, full: bool) -> Seq<Seq<char>> {
    Seq::new(sessions.len(), |i: int| machine_row(i as nat, sessions[i], full))
}

fn pid_shown(pid: Option<i32>, missing: &str) -> (r: String)
    ensures
        r@ == pid_text(pid, missing@),
{
    match pid {
        Some(p) => signed_decimal(p as i64),
        None => missing.to_owned(),
    }
}

fn created_shown(created: &Option<String>, missing: &str) -> (r: String)
    ensures
        r@ == created_text(opt_view(*created), missing@),
{
    match created {
        Some(c) => sanitize(c.as_str()),
        None => missing.to_owned(),
    }
}

/// The rows for programs: no heading, tabs between the fields, and no other
/// control character.
pub fn machine_rows(enumeration: &Enumeration, full: bool) -> (r: Vec<String>)
    ensures
        views(r@) == machine_lines(enumeration@.list.sessions, full),
{
    let sessions = &enumeration.list.sessions;
    let ghost all = session_views(sessions@);
    let mut rows: Vec<String> = Vec::new();
    let mut i: usize = 0;
    while i < sessions.len()
        invariant
            all == session_views(sessions@),
            i <= sessions@.len(),
            views(rows@).len() == i,
            forall|k: int| 0 <= k < i ==> views(rows@)[k] == machine_row(k as nat, all[k], full),
        decreases sessions.len() - i,
    {
        let s = &sessions[i];
        let ghost sv = all[i as int];
        assert(sv == s@);
        let mut fields: Vec<String> = Vec::new();
        fields.push(decimal(i as u64 + 1));
        fields.push(sanitize(s.name.as_str()));
        fields.push(sanitize(s.status.label().as_str()));
        proof {
            reveal_strlit("");
            assert(""@ =~= Seq::empty());
        }
        fields.push(pid_shown(s.pid, ""));
        fields.push(created_shown(&s.created, ""));
        if full {
            fields.push(sanitize(s.full.as_str()));
        }
        assert(views(fields@) =~= machine_fields(i as nat, sv, full));
        let ghost before = views(rows@);
        push_string(&mut rows, join(&fields, "\t"));
        assert forall|k: int| 0 <= k < i + 1 implies views(rows@)[k] == machine_row(
            k as nat,
            all[k],
            full,
        ) by {
            if k < i {
                assert(views(rows@)[k] == before[k]);
            }
        }
        i += 1;
    }
    assert(views(rows@) =~= machine_lines(all, full));
    rows
}

proof fn lemma_decimal_inert(n: nat)
    ensures
        forall|i: int| 0 <= i < decimal_of(n).len() ==> !is_ctrl(#[trigger] decimal_of(n)[i]),
{
    lemma_decimal_digits(n);
    assert forall|i: int| 0 <= i < decimal_of(n).len() implies !is_ctrl(
        #[trigger] decimal_of(n)[i],
    ) by {
        assert(is_digit(decimal_of(n)[i]));
    }
}

/// No control character but the tab.
pub open spec fn only_tabs(s: Seq<char>) -> bool {
    forall|i: int| 0 <= i < s.len() ==> !is_ctrl(#[trigger] s[i]) || s[i] == '\t'
}

proof fn lemma_join_tabs(parts: Seq<Seq<char>>)
    requires
        forall|i: int| 0 <= i < parts.len() ==> only_tabs(#[trigger] parts[i]),
    ensures
        only_tabs(join_of(parts, "\t"@)),
    decreases parts.len(),
{
    reveal_strlit("\t");
    if parts.len() > 1 {
        let rest = parts.drop_last();
        assert forall|i: int| 0 <= i < rest.len() implies only_tabs(#[trigger] rest[i]) by {
            assert(rest[i] == parts[i]);
        }
        lemma_join_tabs(rest);
        let a = join_of(rest, "\t"@);
        let b = parts.last();
        assert(only_tabs(parts[parts.len() - 1]));
        let s = join_of(parts, "\t"@);
        assert(s == a + "\t"@ + b);
        assert forall|i: int| 0 <= i < s.len() implies !is_ctrl(#[trigger] s[i]) || s[i]
            == '\t' by {
            if i < a.len() {
                assert(s[i] == a[i]);
            } else if i > a.len() {
                assert(s[i] == b[i - a.len() - 1]);
            }
        }
    } else if parts.len() == 1 {
        assert(only_tabs(parts[0]));
    }
}

/// Whatever a listing holds, a row for programs holds no escape sequence and no
/// control character but the tabs between its fields.
pub proof fn machine_rows_are_safe_to_pipe(i: nat, s: SessionView, full: bool)
    ensures
        only_tabs(machine_row(i, s, full)),
{
    let fields = machine_fields(i, s, full);
    sanitized_text_is_inert(s.name);
    sanitized_text_is_inert(status_label(s.status));
    sanitized_text_is_inert(s.full);
    lemma_decimal_inert(i + 1);
    if let Some(p) = s.pid {
        let shown = signed_decimal_of(p as int);
        if p >= 0 {
            lemma_decimal_inert(p as nat);
        } else {
            lemma_decimal_inert((-p) as nat);
        }
        assert(only_tabs(shown));
    }
    if let Some(c) = s.created {
        sanitized_text_is_inert(c);
    }
    assert(only_tabs(fields[0]));
    assert(only_tabs(fields[1]));
    assert(only_tabs(fields[2]));
    assert(only_tabs(fields[3]));
    assert(only_tabs(fields[4]));
    if full {
        assert(only_tabs(fields[5]));
    }
    assert forall|k: int| 0 <= k < fields.len() implies only_tabs(#[trigger] fields[k]) by {
        assert(k == 0 || k == 1 || k == 2 || k == 3 || k == 4 || k == 5);
    }
    lemma_join_tabs(fields);
}

/// The widest name.
pub open spec fn widest(sessions: Seq<SessionView>) -> nat
    decreases sessions.len(),
{
    if sessions.len() == 0 {
        0
    } else {
        let rest = widest(sessions.drop_last());
        let last = text_columns(sessions.last().name);
        if last > rest {
            last
        } else {
            rest
        }
    }
}

/// The width of the column of names: that of the widest, but no less than 8 and
/// no more than 32.
pub open spec fn name_column(sessions: Seq<SessionView>) -> nat {
    let w = widest(sessions);
    if w < 8 {
        8
    } else if w > 32 {
        32
    } else {
        w
    }
}

/// A session of which the time of creation is known.
pub open spec fn any_created(sessions: Seq<SessionView>) -> bool {
    exists|i: int| 0 <= i < sessions.len() && (#[trigger] sessions[i]).created is Some
}

/// The heading.
pub open spec fn heading(width: nat, with_created: bool, lang: Lang) -> Seq<char> {
    let t = dict_of(lang);
    let columns = pad_of(t.ls_col_idx@, 3) + " "@ + pad_of(t.ls_col_name@, width) + " "@ + pad_of(
        t.ls_col_status@,
        11,
    ) + " "@ + pad_of(t.ls_col_pid@, 7);
    trim_end_of(
        if with_created {
            columns + " "@ + t.ls_col_created@
        } else {
            columns
        },
    )
}

/// A row for people.
pub open spec fn pretty_row(
    i: nat,
    s: SessionView,
    width: nat,
    with_created: bool,
    full: bool,
) -> Seq<char> {
    let number = decimal_of(i + 1);
    let columns = number + spaces(3 - number.len()) + " "@ + pad_of(
        ellipsis_of(sanitize_of(s.name), width),
        width,
    ) + " "@ + pad_of(sanitize_of(status_label(s.status)), 11) + " "@ + pad_of(
        pid_text(s.pid, "-"@),
        7,
    );
    let dated = if with_created {
        columns + " "@ + created_text(s.created, "-"@)
    } else {
        columns
    };
    trim_end_of(
        if full {
            dated + "  "@ + sanitize_of(s.full)
        } else {
            dated
        },
    )
}

pub open spec fn shown_dir(e: EnumerationView) -> Seq<char> {
    match e.list.socket_dir {
        Some(dir) => sanitize_of(dir),
        None => "unknown"@,
    }
}

/// What people see: a summary, a heading and the rows; or that there is nothing.
pub open spec fn pretty_lines(e: EnumerationView, full: bool, lang: Lang) -> Seq<Seq<char>> {
    let t = dict_of(lang);
    let all = e.list.sessions;
    let width = name_column(all);
    let dated = any_created(all);
    if all.len() == 0 {
        seq![fmt_of(t.ls_no_sessions@, seq![shown_dir(e)])]
    } else {
        seq![
            fmt_of(
                t.ls_summary@,
                seq![decimal_of(all.len()), shown_dir(e), outlook_label(e.outlook)],
            ),
            heading(width, dated, lang),
        ] + Seq::new(all.len(), |i: int| pretty_row(i as nat, all[i], width, dated, full))
    }
}

fn without_tail(s: &str) -> (r: String)
    ensures
        r@ == trim_end_of(s@),
{
    let chars = chars_of(s);
    string_of(trim_end(chars.as_slice()))
}

fn name_width(sessions: &Vec<SessionRecord>) -> (r: usize)
    ensures
        r == name_column(session_views(sessions@)),
{
    let ghost all = session_views(sessions@);
    let mut max: usize = 0;
    let mut i: usize = 0;
    while i < sessions.len()
        invariant
            all == session_views(sessions@),
            i <= sessions@.len(),
            max == widest(all.take(i as int)),
        decreases sessions.len() - i,
    {
        assert(all.take(i + 1).drop_last() =~= all.take(i as int));
        let w: usize = display_width(sessions[i].name.as_str());
        if w > max {
            max = w;
        }
        i += 1;
    }
    assert(all.take(i as int) =~= all);
    if max < 8 {
        8
    } else if max > 32 {
        32
    } else {
        max
    }
}

fn has_created(sessions: &Vec<SessionRecord>) -> (r: bool)
    ensures
        r == any_created(session_views(sessions@)),
{
    let ghost all = session_views(sessions@);
    let mut i: usize = 0;
    while i < sessions.len()
        invariant
            all == session_views(sessions@),
            i <= sessions@.len(),
            forall|k: int| 0 <= k < i ==> (#[trigger] all[k]).created is None,
        decreases sessions.len() - i,
    {
        assert(all[i as int] == sessions@[i as int]@);
        if sessions[i].created.is_some() {
            return true;
        }
        i += 1;
    }
    false
}

fn heading_line(width: usize, with_created: bool, lang: Lang) -> (r: String)
    ensures
        r@ == heading(width as nat, with_created, lang),
{
    let t = dict(lang);
    let mut line: String = pad_right(t.ls_col_idx, 3);
    line.append(" ");
    line.append(pad_right(t.ls_col_name, width).as_str());
    line.append(" ");
    line.append(pad_right(t.ls_col_status, 11).as_str());
    line.append(" ");
    line.append(pad_right(t.ls_col_pid, 7).as_str());
    if with_created {
        line.append(" ");
        line.append(t.ls_col_created);
    }
    without_tail(line.as_str())
}

fn pretty_line(i: usize, s: &SessionRecord, width: usize, with_created: bool, full: bool) -> (r:
    String)
    requires
        i < usize::MAX,
    ensures
        r@ == pretty_row(i as nat, s@, width as nat, with_created, full),
{
    let number: String = decimal(i as u64 + 1);
    let digits: usize = number.as_str().unicode_len();
    let mut line: String = pad_measured(number.as_str(), digits, 3);
    line.append(" ");
    let name: String = clip_with_ellipsis(sanitize(s.name.as_str()).as_str(), width);
    line.append(pad_right(name.as_str(), width).as_str());
    line.append(" ");
    line.append(pad_right(sanitize(s.status.label().as_str()).as_str(), 11).as_str());
    line.append(" ");
    line.append(pad_right(pid_shown(s.pid, "-").as_str(), 7).as_str());
    if with_created {
        line.append(" ");
        line.append(created_shown(&s.created, "-").as_str());
    }
    if full {
        line.append("  ");
        line.append(sanitize(s.full.as_str()).as_str());
    }
    without_tail(line.as_str())
}

/// What people see.
pub fn pretty_rows(enumeration: &Enumeration, full: bool, lang: Lang) -> (r: Vec<String>)
    ensures
        views(r@) == pretty_lines(enumeration@, full, lang),
{
    let t = dict(lang);
    let sessions = &enumeration.list.sessions;
    let ghost all = session_views(sessions@);
    let dir: String = match &enumeration.list.socket_dir {
        Some(d) => sanitize(d.as_str()),
        None => "unknown".to_owned(),
    };
    let mut rows: Vec<String> = Vec::new();
    if sessions.len() == 0 {
        rows.push(fmt1(t.ls_no_sessions, dir.as_str()));
        assert(views(rows@) =~= pretty_lines(enumeration@, full, lang));
        return rows;
    }
    let width: usize = name_width(sessions);
    let dated: bool = has_created(sessions);
    rows.push(
        fmt3(
            t.ls_summary,
            decimal(sessions.len() as u64).as_str(),
            dir.as_str(),
            enumeration.outlook.label().as_str(),
        ),
    );
    rows.push(heading_line(width, dated, lang));
    let ghost head = views(rows@);
    let mut i: usize = 0;
    while i < sessions.len()
        invariant
            all == session_views(sessions@),
            head.len() == 2,
            i <= sessions@.len(),
            views(rows@).len() == i + 2,
            forall|k: int| 0 <= k < 2 ==> #[trigger] views(rows@)[k] == head[k],
            forall|k: int|
                0 <= k < i ==> #[trigger] views(rows@)[k + 2] == pretty_row(
                    k as nat,
                    all[k],
                    width as nat,
                    dated,
                    full,
                ),
        decreases sessions.len() - i,
    {
        let ghost before = views(rows@);
        assert(all[i as int] == sessions@[i as int]@);
        push_string(&mut rows, pretty_line(i, &sessions[i], width, dated, full));
        assert forall|k: int| 0 <= k < 2 implies #[trigger] views(rows@)[k] == head[k] by {
            assert(views(rows@)[k] == before[k]);
        }
        assert forall|k: int| 0 <= k < i + 1 implies #[trigger] views(rows@)[k + 2] == pretty_row(
            k as nat,
            all[k],
            width as nat,
            dated,
            full,
        ) by {
            if k < i {
                assert(views(rows@)[k + 2] == before[k + 2]);
            }
        }
        i += 1;
    }
    let ghost want = pretty_lines(enumeration@, full, lang);
    assert forall|k: int| 0 <= k < want.len() implies #[trigger] views(rows@)[k] == want[k] by {
        if k >= 2 {
            assert(views(rows@)[(k - 2) + 2] == want[k]);
        }
    }
    assert(views(rows@) =~= want);
    rows
}

// ---------------------------------------------------------------------------
// The command `ls`
// ---------------------------------------------------------------------------
/// What a command leaves behind.
#[derive(Debug)]
pub struct Output {
    pub stdout: Vec<String>,
    pub stderr: Vec<String>,
    pub code: u8,
}

/// The remarks on a listing, as they go to the error stream.
pub open spec fn note_lines(e: EnumerationView, lang: Lang) -> Seq<Seq<char>> {
    notes_of(e).map_values(
        |note: Seq<char>| "stui: "@ + dict_of(lang).note_label@ + ": "@ + note,
    )
}

/// `ls`: the rows go to the output and remarks to the error stream. The code says
/// whether there were sessions, or that no listing could be had.
pub fn ls(
    outcome: &Result<Enumeration, Error>,
    args: LsArgs,
    is_terminal: bool,
    lang: Lang,
) -> (r: Output)
    ensures
        match *outcome {
            Err(err) => {
                &&& r.code == EXIT_ENV
                &&& r.stdout@.len() == 0
                &&& views(r.stderr@) == seq!["stui: "@ + error_text(err@)]
            },
            Ok(e) => {
                &&& r.code == if e@.list.sessions.len() > 0 {
                    EXIT_OK
                } else {
                    EXIT_FAILURE
                }
                &&& views(r.stderr@) == note_lines(e@, lang)
                &&& views(r.stdout@) == if !is_terminal || args.no_header {
                    machine_lines(e@.list.sessions, args.full)
                } else {
                    pretty_lines(e@, args.full, lang)
                }
            },
        },
{
    match outcome {
        Err(err) => {
            let mut line: String = "stui: ".to_owned();
            line.append(err.message().as_str());
            let mut stderr: Vec<String> = Vec::new();
            stderr.push(line);
            assert(views(stderr@) =~= seq!["stui: "@ + error_text(err@)]);
            Output { stdout: Vec::new(), stderr, code: EXIT_ENV }
        },
        Ok(e) => {
            let t = dict(lang);
            let notes: Vec<String> = e.notes();
            let mut stderr: Vec<String> = Vec::new();
            let mut i: usize = 0;
            while i < notes.len()
                invariant
                    t == dict_of(lang),
                    views(notes@) == notes_of(e@),
                    i <= notes@.len(),
                    views(stderr@).len() == i,
                    forall|k: int| 0 <= k < i ==> views(stderr@)[k] == note_lines(e@, lang)[k],
                decreases notes.len() - i,
            {
                let ghost before = views(stderr@);
                let mut line: String = "stui: ".to_owned();
                line.append(t.note_label);
                line.append(": ");
                line.append(notes[i].as_str());
                assert(notes_of(e@)[i as int] == notes@[i as int]@);
                push_string(&mut stderr, line);
                assert forall|k: int| 0 <= k < i + 1 implies views(stderr@)[k] == note_lines(
                    e@,
                    lang,
                )[k] by {
                    if k < i {
                        assert(views(stderr@)[k] == before[k]);
                    }
                }
                i += 1;
            }
            assert(views(stderr@) =~= note_lines(e@, lang));
            let stdout: Vec<String> = if !is_terminal || args.no_header {
                machine_rows(e, args.full)
            } else {
                pretty_rows(e, args.full, lang)
            };
            let code: u8 = if e.has_sessions() {
                EXIT_OK
            } else {
                EXIT_FAILURE
            };
            Output { stdout, stderr, code }
        },
    }
}

} // verus!
