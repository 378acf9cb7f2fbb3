//! Building `screen` command lines and recording what they did.
//!
//! Measured behaviour that shapes this module: the text of `-v`, `-ls` and `-Q`
//! goes to stdout, lines may end in `\r\n`, and `screen -v` exits with 1 even
//! when it succeeds, so a version is read from the text and never from the
//! exit code.

use super::Error;
use crate::text::{
    chars_of, is_ascii_alnum, is_ascii_alphanumeric, join, join_of, trim_of, trim_str, views,
};
use vstd::prelude::*;

verus! {

/// The environment variable that overrides the path of the screen executable.
pub const PROGRAM_ENV: &'static str = "STUI_SCREEN";

// ---------------------------------------------------------------------------
// The executable
// ---------------------------------------------------------------------------
/// A path together with whether an executable file stands there.
pub struct Candidate {
    pub path: String,
    pub executable: bool,
}

/// The first candidate that is executable.
pub open spec fn first_executable(candidates: Seq<Candidate>) -> Option<Seq<char>>
    decreases candidates.len(),
{
    if candidates.len() == 0 {
        None
    } else if candidates[0].executable {
        Some(candidates[0].path@)
    } else {
        first_executable(candidates.drop_first())
    }
}

/// Chooses the screen executable. An override decides alone, whether it can be
/// run or not; without one, the first executable candidate is taken.
pub fn program(override_path: Option<Candidate>, candidates: &Vec<Candidate>) -> (r: Result<
    String,
    Error,
>)
    ensures
        match override_path {
            Some(c) => if c.executable {
                r matches Ok(p) && p@ == c.path@
            } else {
                r matches Err(e) && e@ == (super::ErrorView::NotExecutable { path: c.path@ })
            },
            None => match first_executable(candidates@) {
                Some(path) => r matches Ok(p) && p@ == path,
                None => r matches Err(e) && e@ == super::ErrorView::NotFound,
            },
        },
{
    match override_path {
        Some(c) => {
            if c.executable {
                Ok(c.path)
            } else {
                Err(Error::NotExecutable { path: c.path })
            }
        },
        None => {
            let mut i: usize = 0;
            assert(candidates@.skip(0) =~= candidates@);
            while i < candidates.len()
                invariant
                    override_path is None,
                    i <= candidates@.len(),
                    first_executable(candidates@) == first_executable(candidates@.skip(i as int)),
                decreases candidates.len() - i,
            {
                if candidates[i].executable {
                    return Ok(candidates[i].path.clone());
                }
                assert(candidates@.skip(i as int).drop_first() =~= candidates@.skip(i + 1));
                i += 1;
            }
            Err(Error::NotFound)
        },
    }
}

// ---------------------------------------------------------------------------
// What a command did
// ---------------------------------------------------------------------------
/// The full record of one command.
///
/// It keeps the exit code and both texts and passes no judgement: with screen
/// the exit code alone does not always tell success from failure.
#[derive(Debug)]
pub struct Run {
    pub command: String,
    pub code: i32,
    pub stdout: String,
    pub stderr: String,
}

/// The model of a [`Run`].
#[verifier::ext_equal]
pub struct RunView {
    pub command: Seq<char>,
    pub code: i32,
    pub stdout: Seq<char>,
    pub stderr: Seq<char>,
}

impl View for Run {
    type V = RunView;

    open spec fn view(&self) -> RunView {
        RunView {
            command: self.command@,
            code: self.code,
            stdout: self.stdout@,
            stderr: self.stderr@,
        }
    }
}

/// Both texts of a run as one: stdout, then stderr on a line of its own unless
/// it is blank.
pub open spec fn run_text(run: RunView) -> Seq<char> {
    if trim_of(run.stderr).len() == 0 {
        run.stdout
    } else if run.stdout.len() > 0 && run.stdout.last() != '\n' {
        run.stdout.push('\n') + run.stderr
    } else {
        run.stdout + run.stderr
    }
}

fn ends_with_newline(s: &str) -> (r: bool)
    ensures
        r == (s@.len() > 0 && s@.last() == '\n'),
{
    let chars: Vec<char> = chars_of(s);
    chars.len() > 0 && chars[chars.len() - 1] == '\n'
}

impl Clone for Run {
    fn clone(&self) -> (r: Self)
        ensures
            r@ == self@,
    {
        Run {
            command: self.command.clone(),
            code: self.code,
            stdout: self.stdout.clone(),
            stderr: self.stderr.clone(),
        }
    }
}

impl Run {
    pub fn success(&self) -> (r: bool)
        ensures
            r == (self.code == 0),
    {
        self.code == 0
    }

    /// Stdout and stderr merged, for parsing.
    pub fn text(&self) -> (r: String)
        ensures
            r@ == run_text(self@),
    {
        let mut out: String = self.stdout.clone();
        let err: String = trim_str(self.stderr.as_str());
        if !err.as_str().is_empty() {
            if !out.as_str().is_empty() && !ends_with_newline(out.as_str()) {
                out.push('\n');
            }
            out.append(self.stderr.as_str());
        }
        out
    }
}

/// What [`String::from_utf8_lossy`] makes of a byte sequence.
pub uninterp spec fn lossy_text(bytes: Seq<u8>) -> Seq<char>;

/// `String::from_utf8_lossy`: the text of the bytes, with U+FFFD in place of
/// what is not UTF-8. Bytes that are UTF-8 come out unchanged; which stretches
/// of other bytes share one replacement character is left unsaid.
#[verifier::external_body]
pub(crate) fn lossy(bytes: &[u8]) -> (r: String)
    ensures
        r@ == lossy_text(bytes@),
        vstd::utf8::valid_utf8(bytes@) ==> vstd::utf8::encode_utf8(r@) == bytes@,
{
    String::from_utf8_lossy(bytes).into_owned()
}

/// Records a finished command. A process ended by a signal has no exit code
/// and is recorded with -1.
pub fn record_run(command: String, code: Option<i32>, stdout: &[u8], stderr: &[u8]) -> (r: Run)
    ensures
        r@ == (RunView {
            command: command@,
            code: match code {
                Some(c) => c,
                None => -1i32,
            },
            stdout: lossy_text(stdout@),
            stderr: lossy_text(stderr@),
        }),
{
    let known: i32 = match code {
        Some(c) => c,
        None => -1,
    };
    Run { command, code: known, stdout: lossy(stdout), stderr: lossy(stderr) }
}

// ---------------------------------------------------------------------------
// Arguments
// ---------------------------------------------------------------------------
pub open spec fn create_args_of(name: Seq<char>, command: Seq<char>) -> Seq<Seq<char>> {
    seq!["-U"@, "-dmS"@, name, command]
}

/// Arguments that create a detached session. Name and command take one
/// argument each and never pass through a shell.
pub fn create_args(name: &str, command: &str) -> (r: Vec<String>)
    ensures
        views(r@) == create_args_of(name@, command@),
{
    let mut args: Vec<String> = Vec::new();
    args.push("-U".to_owned());
    args.push("-dmS".to_owned());
    args.push(name.to_owned());
    args.push(command.to_owned());
    assert(views(args@) =~= create_args_of(name@, command@));
    args
}

/// The `TERM` for programs inside a new session: `screen-256color` where the
/// terminal database knows it, else the inherited one.
pub fn term_for_session(known: bool) -> (r: Option<&'static str>)
    ensures
        r is Some <==> known,
        r matches Some(term) ==> term@ == "screen-256color"@,
{
    if known {
        Some("screen-256color")
    } else {
        None
    }
}

/// How to connect to a session.
#[derive(Debug, Clone, Copy, PartialEq, Eq, Structural)]
pub enum AttachKind {
    /// `-r`: a detached session.
    Resume,
    /// `-x`: share a session that someone else is attached to.
    Share,
    /// `-d -r`: detach the others first.
    Takeover,
}

pub open spec fn attach_kind_label(kind: AttachKind) -> Seq<char> {
    match kind {
        AttachKind::Resume => "resume"@,
        AttachKind::Share => "share (-x)"@,
        AttachKind::Takeover => "takeover (-d -r)"@,
    }
}

impl AttachKind {
    pub fn label(self) -> (r: &'static str)
        ensures
            r@ == attach_kind_label(self),
    {
        match self {
            AttachKind::Resume => "resume",
            AttachKind::Share => "share (-x)",
            AttachKind::Takeover => "takeover (-d -r)",
        }
    }
}

pub open spec fn attach_args_of(kind: AttachKind, target: Seq<char>) -> Seq<Seq<char>> {
    match kind {
        AttachKind::Resume => seq!["-U"@, "-r"@, target],
        AttachKind::Share => seq!["-U"@, "-x"@, target],
        AttachKind::Takeover => seq!["-U"@, "-d"@, "-r"@, target],
    }
}

/// Arguments that connect to a session.
pub fn attach_args(kind: AttachKind, target: &str) -> (r: Vec<String>)
    ensures
        views(r@) == attach_args_of(kind, target@),
{
    let mut args: Vec<String> = Vec::new();
    args.push("-U".to_owned());
    match kind {
        AttachKind::Resume => {
            args.push("-r".to_owned());
        },
        AttachKind::Share => {
            args.push("-x".to_owned());
        },
        AttachKind::Takeover => {
            args.push("-d".to_owned());
            args.push("-r".to_owned());
        },
    }
    args.push(target.to_owned());
    assert(views(args@) =~= attach_args_of(kind, target@));
    args
}

/// The shell script that runs the screen client and, when it fails, starts the
/// program again to report the exit code. It reads all paths from its
/// positional parameters.
pub const ATTACH_SCRIPT: &'static str =
    "screen_bin=$1; shift; \"$screen_bin\" \"$@\"; code=$?; [ \"$code\" -eq 0 ] || exec \"$0\" --attach-failed \"$code\"";

/// Arguments for `/bin/sh` that replace this process by the screen client.
pub fn exec_attach_args(restart: &str, screen: &str, kind: AttachKind, target: &str) -> (r: Vec<
    String,
>)
    ensures
        views(r@) == seq!["-c"@, ATTACH_SCRIPT@, restart@, screen@] + attach_args_of(kind, target@),
{
    let mut args: Vec<String> = Vec::new();
    args.push("-c".to_owned());
    args.push(ATTACH_SCRIPT.to_owned());
    args.push(restart.to_owned());
    args.push(screen.to_owned());
    let tail: Vec<String> = attach_args(kind, target);
    let mut i: usize = 0;
    assert(views(args@) =~= seq!["-c"@, ATTACH_SCRIPT@, restart@, screen@]);
    while i < tail.len()
        invariant
            i <= tail@.len(),
            views(args@) == seq!["-c"@, ATTACH_SCRIPT@, restart@, screen@] + views(tail@).take(
                i as int,
            ),
        decreases tail.len() - i,
    {
        let ghost before = views(args@);
        args.push(tail[i].clone());
        assert(views(args@) =~= before.push(tail@[i as int]@));
        assert(views(tail@).take(i + 1) =~= views(tail@).take(i as int).push(tail@[i as int]@));
        i += 1;
    }
    assert(views(tail@).take(i as int) =~= views(tail@));
    args
}

/// A management action on a session. All go through `-X` or `-wipe`; none types
/// into a session.
#[derive(Debug, Clone, Copy, PartialEq, Eq, Structural)]
pub enum SessionAction {
    /// Detach the displays of a session: `-S <full> -X detach`.
    Detach,
    /// End a session: `-S <full> -X quit`.
    Kill,
    /// Remove all dead sessions: `-wipe`.
    Wipe,
}

pub open spec fn session_action_label(action: SessionAction) -> Seq<char> {
    match action {
        SessionAction::Detach => "detach"@,
        SessionAction::Kill => "kill"@,
        SessionAction::Wipe => "wipe"@,
    }
}

impl SessionAction {
    pub fn label(self) -> (r: &'static str)
        ensures
            r@ == session_action_label(self),
    {
        match self {
            SessionAction::Detach => "detach",
            SessionAction::Kill => "kill",
            SessionAction::Wipe => "wipe",
        }
    }
}

pub open spec fn action_args_of(action: SessionAction, target: Seq<char>) -> Seq<Seq<char>> {
    match action {
        SessionAction::Detach => seq!["-S"@, target, "-X"@, "detach"@],
        SessionAction::Kill => seq!["-S"@, target, "-X"@, "quit"@],
        SessionAction::Wipe => seq!["-wipe"@],
    }
}

/// Arguments of a management action; `target` is the full `<pid>.<name>`.
pub fn action_args(action: SessionAction, target: &str) -> (r: Vec<String>)
    ensures
        views(r@) == action_args_of(action, target@),
{
    let mut args: Vec<String> = Vec::new();
    match action {
        SessionAction::Detach => {
            args.push("-S".to_owned());
            args.push(target.to_owned());
            args.push("-X".to_owned());
            args.push("detach".to_owned());
        },
        SessionAction::Kill => {
            args.push("-S".to_owned());
            args.push(target.to_owned());
            args.push("-X".to_owned());
            args.push("quit".to_owned());
        },
        SessionAction::Wipe => {
            args.push("-wipe".to_owned());
        },
    }
    assert(views(args@) =~= action_args_of(action, target@));
    args
}

pub open spec fn rename_args_of(target: Seq<char>, new_name: Seq<char>) -> Seq<Seq<char>> {
    seq!["-S"@, target, "-X"@, "sessionname"@, new_name]
}

/// Arguments that rename a running session.
pub fn rename_args(target: &str, new_name: &str) -> (r: Vec<String>)
    ensures
        views(r@) == rename_args_of(target@, new_name@),
{
    let mut args: Vec<String> = Vec::new();
    args.push("-S".to_owned());
    args.push(target.to_owned());
    args.push("-X".to_owned());
    args.push("sessionname".to_owned());
    args.push(new_name.to_owned());
    assert(views(args@) =~= rename_args_of(target@, new_name@));
    args
}

/// No command that this program builds carries the option `-D`, which powers
/// off the displays of others, or the screen command `stuff`, which types into
/// a session; only a name, a command or a target given by the user could.
pub proof fn no_power_detach_and_no_stuffing(
    kind: AttachKind,
    action: SessionAction,
    name: Seq<char>,
    command: Seq<char>,
    target: Seq<char>,
)
    requires
        name != "-D"@ && name != "stuff"@,
        command != "-D"@ && command != "stuff"@,
        target != "-D"@ && target != "stuff"@,
    ensures
        !create_args_of(name, command).contains("-D"@),
        !create_args_of(name, command).contains("stuff"@),
        !attach_args_of(kind, target).contains("-D"@),
        !attach_args_of(kind, target).contains("stuff"@),
        !action_args_of(action, target).contains("-D"@),
        !action_args_of(action, target).contains("stuff"@),
        !rename_args_of(target, name).contains("-D"@),
        !rename_args_of(target, name).contains("stuff"@),
{
    reveal_strlit("-D");
    reveal_strlit("stuff");
    reveal_strlit("-U");
    reveal_strlit("-dmS");
    reveal_strlit("-r");
    reveal_strlit("-x");
    reveal_strlit("-d");
    reveal_strlit("-S");
    reveal_strlit("-X");
    reveal_strlit("detach");
    reveal_strlit("quit");
    reveal_strlit("-wipe");
    reveal_strlit("sessionname");
    assert("-D"@[1] == 'D');
    assert("stuff"@.len() == 5 && "stuff"@[0] == 's');
    assert("-U"@[1] == 'U' && "-r"@[1] == 'r' && "-x"@[1] == 'x' && "-d"@[1] == 'd' && "-S"@[1]
        == 'S' && "-X"@[1] == 'X');
    assert("-wipe"@[0] == '-');
}

// ---------------------------------------------------------------------------
// Showing a command
// ---------------------------------------------------------------------------
/// A character that needs no quoting in a shell word.
pub open spec fn is_plain(c: char) -> bool {
    is_ascii_alnum(c) || c == '-' || c == '_' || c == '.' || c == '/' || c == ':' || c == '=' || c
        == '@' || c == '+'
}

/// Single quotes closed, escaped and opened again.
pub open spec fn escape_quotes(s: Seq<char>) -> Seq<char>
    decreases s.len(),
{
    if s.len() == 0 {
        Seq::empty()
    } else if s.last() == '\'' {
        escape_quotes(s.drop_last()) + seq!['\'', '\\', '\'', '\'']
    } else {
        escape_quotes(s.drop_last()).push(s.last())
    }
}

/// A shell word that stands for `raw`.
pub open spec fn quoted(raw: Seq<char>) -> Seq<char> {
    if raw.len() > 0 && forall|i: int| 0 <= i < raw.len() ==> is_plain(#[trigger] raw[i]) {
        raw
    } else {
        seq!['\''] + escape_quotes(raw) + seq!['\'']
    }
}

fn plain(c: char) -> (r: bool)
    ensures
        r == is_plain(c),
{
    is_ascii_alphanumeric(c) || c == '-' || c == '_' || c == '.' || c == '/' || c == ':' || c == '='
        || c == '@' || c == '+'
}

pub fn shell_quote(raw: &str) -> (r: String)
    ensures
        r@ == quoted(raw@),
{
    let chars: Vec<char> = chars_of(raw);
    let mut all_plain: bool = chars.len() > 0;
    let mut escaped: String = String::new();
    let mut i: usize = 0;
    while i < chars.len()
        invariant
            i <= chars@.len(),
            chars@ == raw@,
            escaped@ == escape_quotes(raw@.take(i as int)),
            all_plain == (raw@.len() > 0 && forall|k: int|
                0 <= k < i ==> is_plain(#[trigger] raw@[k])),
        decreases chars.len() - i,
    {
        let c: char = chars[i];
        assert(raw@.take(i + 1).drop_last() =~= raw@.take(i as int));
        if !plain(c) {
            all_plain = false;
        }
        if c == '\'' {
            let ghost before = escaped@;
            escaped.push('\'');
            escaped.push('\\');
            escaped.push('\'');
            escaped.push('\'');
            assert(escaped@ =~= before + seq!['\'', '\\', '\'', '\'']);
        } else {
            escaped.push(c);
        }
        i += 1;
    }
    assert(raw@.take(i as int) =~= raw@);
    if all_plain {
        raw.to_owned()
    } else {
        let mut out: String = String::new();
        out.push('\'');
        out.append(escaped.as_str());
        out.push('\'');
        assert(out@ =~= quoted(raw@));
        out
    }
}

/// The words of a command line as shown to the user.
pub open spec fn command_words(program: Seq<char>, args: Seq<Seq<char>>) -> Seq<Seq<char>> {
    seq![program] + args.map_values(|a: Seq<char>| quoted(a))
}

pub open spec fn command_line(program: Seq<char>, args: Seq<Seq<char>>) -> Seq<char> {
    join_of(command_words(program, args), " "@)
}

/// A readable command line, for error messages.
pub fn display_command(program: &str, args: &Vec<String>) -> (r: String)
    ensures
        r@ == command_line(program@, views(args@)),
{
    let mut parts: Vec<String> = Vec::new();
    parts.push(program.to_owned());
    let ghost words = command_words(program@, views(args@));
    let mut i: usize = 0;
    while i < args.len()
        invariant
            i <= args@.len(),
            words == command_words(program@, views(args@)),
            parts@.len() == i + 1,
            forall|k: int| 0 <= k <= i ==> (#[trigger] parts@[k])@ == words[k],
        decreases args.len() - i,
    {
        parts.push(shell_quote(args[i].as_str()));
        i += 1;
    }
    assert(views(parts@) =~= words);
    join(&parts, " ")
}

pub open spec fn command_line_with_term(
    program: Seq<char>,
    args: Seq<Seq<char>>,
    term: Option<Seq<char>>,
) -> Seq<char> {
    match term {
        Some(t) => command_line(program, args) + " [TERM="@ + t + "]"@,
        None => command_line(program, args),
    }
}

/// [`display_command`] with the `TERM` that was set, so that a creation can be
/// retraced.
pub fn display_command_with_env(program: &str, args: &Vec<String>, term: Option<&str>) -> (r:
    String)
    ensures
        r@ == command_line_with_term(
            program@,
            views(args@),
            match term {
                Some(t) => Some(t@),
                None => None,
            },
        ),
{
    let mut line: String = display_command(program, args);
    if let Some(t) = term {
        line.append(" [TERM=");
        line.append(t);
        line.append("]");
    }
    line
}

} // verus!
