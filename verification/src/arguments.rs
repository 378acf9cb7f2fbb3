//! What may be given on the command line, and how it is read.

use clap::{Arg, ArgAction::SetTrue, Command};
use crate::text::views;
use vstd::prelude::*;

verus! {

/// What the program is, in one line.
pub const ABOUT: &'static str = "A TUI for managing GNU Screen sessions, optimized for phone-sized SSH terminals";

/// What the program is, at more length.
pub const LONG_ABOUT: &'static str = "stui is a front-end for GNU Screen. It lists your sessions, tells you what each one is doing, and gets you in and out of them without memorising `screen -r` incantations.\n\n`stui ls` and `stui doctor` are non-interactive and safe to pipe; they never emit ANSI escape sequences.";

/// What the header switch of `ls` does, at more length.
pub const NO_HEADER_HELP: &'static str = "Print data rows only: no header line, tab-separated fields\n\nImplied automatically when stdout is not a TTY.";

/// A switch of a command.
#[derive(Debug)]
pub struct FlagSpec {
    pub name: &'static str,
    pub help: &'static str,
    /// What a request for the long help shows.
    pub long_help: &'static str,
}

#[derive(Debug)]
pub struct CommandSpec {
    pub name: &'static str,
    pub about: &'static str,
    pub flags: Vec<FlagSpec>,
}

/// Everything that may be given on the command line.
#[derive(Debug)]
pub struct Grammar {
    pub name: &'static str,
    pub version: &'static str,
    pub about: &'static str,
    pub long_about: &'static str,
    pub commands: Vec<CommandSpec>,
}

/// The model of a [`FlagSpec`].
#[verifier::ext_equal]
pub struct FlagModel {
    pub name: Seq<char>,
    pub help: Seq<char>,
    pub long_help: Seq<char>,
}

/// The model of a [`CommandSpec`].
#[verifier::ext_equal]
pub struct CommandModel {
    pub name: Seq<char>,
    pub about: Seq<char>,
    pub flags: Seq<FlagModel>,
}

/// The model of a [`Grammar`].
#[verifier::ext_equal]
pub struct GrammarView {
    pub name: Seq<char>,
    pub version: Seq<char>,
    pub about: Seq<char>,
    pub long_about: Seq<char>,
    pub commands: Seq<CommandModel>,
}

pub open spec fn flag_models(flags: Seq<FlagSpec>) -> Seq<FlagModel> {
    flags.map_values(
        |f: FlagSpec| FlagModel { name: f.name@, help: f.help@, long_help: f.long_help@ },
    )
}

impl View for CommandSpec {
    type V = CommandModel;

    open spec fn view(&self) -> CommandModel {
        CommandModel {
            name: self.name@,
            about: self.about@,
            flags: flag_models(self.flags@),
        }
    }
}

impl View for Grammar {
    type V = GrammarView;

    open spec fn view(&self) -> GrammarView {
        GrammarView {
            name: self.name@,
            version: self.version@,
            about: self.about@,
            long_about: self.long_about@,
            commands: self.commands@.map_values(|c: CommandSpec| c@),
        }
    }
}

pub open spec fn ls_flags() -> Seq<FlagModel> {
    seq![
        FlagModel {
            name: "no-header"@,
            help: "Print data rows only: no header line, tab-separated fields"@,
            long_help: NO_HEADER_HELP@,
        },
        FlagModel {
            name: "full"@,
            help: "Append the `<pid>.<name>` address as the last column"@,
            long_help: "Append the `<pid>.<name>` address as the last column"@,
        },
    ]
}

/// `ls` with two switches, `doctor` and `version`.
pub open spec fn grammar_of(version: Seq<char>) -> GrammarView {
    GrammarView {
        name: "stui"@,
        version,
        about: ABOUT@,
        long_about: LONG_ABOUT@,
        commands: seq![
            CommandModel {
                name: "ls"@,
                about: "Print the session list as plain text (no ANSI, safe to pipe)"@,
                flags: ls_flags(),
            },
            CommandModel {
                name: "doctor"@,
                about: "Check the environment and print a report"@,
                flags: Seq::empty(),
            },
            CommandModel {
                name: "version"@,
                about: "Print version information"@,
                flags: Seq::empty(),
            },
        ],
    }
}

/// What may be given on the command line.
pub fn grammar(version: &'static str) -> (r: Grammar)
    ensures
        r@ == grammar_of(version@),
{
    let mut flags: Vec<FlagSpec> = Vec::new();
    flags.push(
        FlagSpec {
            name: "no-header",
            help: "Print data rows only: no header line, tab-separated fields",
            long_help: NO_HEADER_HELP,
        },
    );
    flags.push(
        FlagSpec {
            name: "full",
            help: "Append the `<pid>.<name>` address as the last column",
            long_help: "Append the `<pid>.<name>` address as the last column",
        },
    );
    assert(flag_models(flags@) =~= ls_flags());
    let no_flags: Vec<FlagSpec> = Vec::new();
    let none: Vec<FlagSpec> = Vec::new();
    assert(flag_models(no_flags@) =~= Seq::empty());
    assert(flag_models(none@) =~= Seq::empty());
    let mut commands: Vec<CommandSpec> = Vec::new();
    commands.push(
        CommandSpec {
            name: "ls",
            about: "Print the session list as plain text (no ANSI, safe to pipe)",
            flags,
        },
    );
    commands.push(
        CommandSpec {
            name: "doctor",
            about: "Check the environment and print a report",
            flags: no_flags,
        },
    );
    commands.push(
        CommandSpec { name: "version", about: "Print version information", flags: none },
    );
    let r = Grammar {
        name: "stui",
        version,
        about: ABOUT,
        long_about: LONG_ABOUT,
        commands,
    };
    assert(r@.commands =~= grammar_of(version@).commands);
    r
}

/// A command that was read, and for each switch whether it was given.
pub type CommandRead = (String, Vec<(String, bool)>);

/// The model of the switches that were read.
pub open spec fn flags_view(flags: Seq<(String, bool)>) -> Seq<(Seq<char>, bool)> {
    flags.map_values(|f: (String, bool)| (f.0@, f.1))
}

/// A switch of that name was given.
pub open spec fn was_given(flags: Seq<(Seq<char>, bool)>, name: Seq<char>) -> bool {
    exists|i: int| 0 <= i < flags.len() && #[trigger] flags[i] == (name, true)
}

/// The model of what was read: the command, if there was one, and its switches.
pub open spec fn read_view(read: Option<CommandRead>) -> Option<
    (Seq<char>, Seq<(Seq<char>, bool)>),
> {
    match read {
        Some((name, flags)) => Some((name@, flags_view(flags@))),
        None => None,
    }
}

/// A switch as it is typed.
pub open spec fn typed(flag: FlagModel) -> Seq<char> {
    "--"@ + flag.name
}

/// Nothing but switches of the command, each at most once.
pub open spec fn only_switches(command: CommandModel, args: Seq<Seq<char>>) -> bool {
    &&& forall|k: int|
        0 <= k < args.len() ==> exists|j: int|
            0 <= j < command.flags.len() && #[trigger] args[k] == typed(
                #[trigger] command.flags[j],
            )
    &&& args.no_duplicates()
}

/// What `clap` makes of arguments by a grammar: what it reads, or the exit code and the
/// text where it refuses them or was asked for a text.
pub uninterp spec fn arguments_read(g: GrammarView, args: Seq<Seq<char>>) -> Result<
    Option<(Seq<char>, Seq<(Seq<char>, bool)>)>,
    (i32, Seq<char>),
>;

/// `clap::Command::try_get_matches_from` on the commands and switches of a
/// grammar. Its outcome is named. Beyond that: a command that it reads is one of the
/// grammar's; the program's name alone is read as no command; a command with nothing
/// but its own switches behind it is read as that, with the switches that are there;
/// and the exit code is 2 for a mistake and 0 for a text that was asked for. It is
/// asked only with the grammar of this program, which holds nothing contradictory.
#[verifier::external_body]
pub(crate) fn clap_matches(g: &Grammar, args: &Vec<String>) -> (r: Result<
    Option<CommandRead>,
    (i32, String),
>)
    requires
        g@ == grammar_of(g.version@),
    ensures
        match r {
            Ok(read) => arguments_read(g@, views(args@)) == Ok::<_, (i32, Seq<char>)>(
                read_view(read),
            ),
            Err((code, text)) => arguments_read(g@, views(args@)) == Err::<
                Option<(Seq<char>, Seq<(Seq<char>, bool)>)>,
                _,
            >((code, text@)),
        },
        r matches Ok(Some(read)) ==> exists|i: int|
            0 <= i < g@.commands.len() && (#[trigger] g@.commands[i]).name == read.0@,
        args@.len() <= 1 ==> r matches Ok(None),
        forall|i: int|
            0 <= i < g@.commands.len() && args@.len() >= 2 && args@[1]@ == (
            #[trigger] g@.commands[i]).name && only_switches(
                g@.commands[i],
                views(args@).skip(2),
            ) ==> (r matches Ok(Some(read)) && read.0@ == args@[1]@ && forall|j: int|
                0 <= j < g@.commands[i].flags.len() ==> was_given(
                    flags_view(read.1@),
                    (#[trigger] g@.commands[i].flags[j]).name,
                ) == views(args@).skip(2).contains(typed(g@.commands[i].flags[j]))),
        r matches Err((code, _)) ==> code == 0 || code == 2,
{
    Command::new(g.name).version(g.version).about(g.about).long_about(g.long_about)
        .subcommands(g.commands.iter().map(|c| Command::new(c.name).about(c.about)
            .args(c.flags.iter().map(|FlagSpec { name, help, long_help }| Arg::new(name)
                .long(name).help(help).long_help(long_help).action(SetTrue)))))
        .try_get_matches_from(args)
        .map(|mut m| m.remove_subcommand().map(|(name, f)| (name, f.ids()
            .map(|i| (i.to_string(), f.get_flag(i.as_str()))).collect())))
        .map_err(|e| (e.exit_code(), e.to_string()))
}

} // verus!
