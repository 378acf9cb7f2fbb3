//! What becomes of what is typed into the form for a new session.

use crate::app::connect::meta_or_none;
use crate::app::key_laws::{
    press, the_rows_are_what_passes,
};
use crate::app::keys::{
    key_work, keyed,
};
use crate::app::names::{
    SUFFIX_MAX, accepted_names, base_name_of, candidate, chosen_names_are_valid_and_free,
    count_named, default_names_are_valid, expanded, index_named, name_error, valid_name,
};
use crate::app::state::{
    AppModel, all_of, visible, with_list,
};
use crate::app::types::{
    DraftModel, KeyCode, Mode, NewField, WorkModel,
};
use crate::app::wizard::{
    CommitStep, EnvModel, commit_step, committed, create_error, create_noted, created_selected,
    duplicate_note_of, form_opened, refitted, taken_of,
};
use crate::config::{
    ConfigModel, MetaModel, lemma_position, position_of, table_get, table_names,
    table_reads_what_was_stored,
};
use crate::i18n::{
    Lang, dict_of, fmt_of,
};
use crate::screen::cmd::{
    RunView, create_args_of, run_text,
};
use crate::screen::parse::{
    EnumerationView, SessionView,
};
use crate::screen::{
    ErrorView, error_text,
};
use crate::text::{
    is_ctrl, is_digit, is_space, signed_decimal_of, starts_with_text, trim_of,
};
use crate::text_laws::{
    all_space, some_solid, taking_back_undoes_typing, texts_fall_apart_when_trimmed,
};
use vstd::prelude::*;

verus! {

// ---------------------------------------------------------------------------
// Opening and typing
// ---------------------------------------------------------------------------
/// The form opens on the name, in the given directory, with the shell as its command
/// and a name that is free, made from the directory; nothing counts as typed.
pub proof fn forms_open_ready_to_send(m: AppModel, dir: Seq<char>, shell: Option<Seq<char>>)
    ensures
        ({
            let n = form_opened(m, dir, shell);
            let base = base_name_of(dir);
            &&& n.mode == Mode::NewSession
            &&& n.draft matches Some(d) && {
                &&& d.focus == NewField::Name && !d.name_edited && d.error is None && d.note is None
                &&& d.dir == dir
                &&& d.name_base == base
                &&& valid_name(d.name)
                &&& (forall|i: int| 0 <= i < all_of(m).len() ==> (#[trigger] all_of(m)[i]).name != base)
                    && table_get(m.config.sessions, base) is None ==> d.name == base
                &&& shell matches Some(s) ==> (!all_space(s) ==> d.command == s)
                &&& shell is None ==> d.command == "/bin/sh"@
                &&& d.recent.len() == if m.config.dirs.len() <= 9 {
                    m.config.dirs.len() as int
                } else {
                    9
                }
                &&& forall|i: int|
                    0 <= i < d.recent.len() ==> #[trigger] d.recent[i] == m.config.dirs[i].path
            }
        }),
{
    let base = base_name_of(dir);
    default_names_are_valid(dir);
    let taken = taken_of(m.config, all_of(m));
    chosen_names_are_valid_and_free(base, taken);
    if let Some(s) = shell {
        texts_fall_apart_when_trimmed(s);
    }
    if (forall|i: int| 0 <= i < all_of(m).len() ==> (#[trigger] all_of(m)[i]).name != base)
        && table_get(m.config.sessions, base) is None {
        assert(!taken.contains(base)) by {
            if taken.contains(base) {
                let k = choose|k: int| 0 <= k < taken.len() && taken[k] == base;
                let names = table_names(m.config.sessions);
                lemma_position(m.config.sessions, base);
                if k < names.len() {
                    assert(names[k] == base);
                    assert(m.config.sessions[k].name == base);
                } else {
                    assert(all_of(m)[k - names.len()].name == base);
                }
            }
        }
    }
}

/// A character goes to the end of the field that has the focus and can be taken back
/// from there; the other fields stay, and an error goes away. Typing a name makes it the
/// user's own.
pub proof fn fields_are_typed(m: AppModel, d: DraftModel, c: char)
    requires
        m.mode == Mode::NewSession,
        m.draft == Some(d),
        !is_ctrl(c),
        d.focus == NewField::Dir ==> !is_digit(c),
    ensures
        ({
            let typed = keyed(m, press(KeyCode::Char(c)));
            let back = keyed(typed, press(KeyCode::Backspace));
            let e = DraftModel {
                error: None,
                name_edited: d.name_edited || d.focus == NewField::Name,
                ..d
            };
            &&& typed.draft == Some(
                match d.focus {
                    NewField::Name => DraftModel { name: d.name + seq![c], ..e },
                    NewField::Dir => DraftModel { dir: d.dir + seq![c], ..e },
                    NewField::Command => DraftModel { command: d.command + seq![c], ..e },
                },
            )
            &&& back.draft == Some(e)
            &&& typed.mode == Mode::NewSession
            &&& key_work(m, press(KeyCode::Char(c))) == WorkModel::Done
        }),
{
    taking_back_undoes_typing(d.name, c);
    taking_back_undoes_typing(d.dir, c);
    taking_back_undoes_typing(d.command, c);
    assert(d.name.push(c) =~= d.name + seq![c]);
    assert(d.dir.push(c) =~= d.dir + seq![c]);
    assert(d.command.push(c) =~= d.command + seq![c]);
}

/// On the directory, the digit `n` picks the recent directory `n`, if there are so many;
/// otherwise it is typed like any other character.
pub proof fn digits_pick_recent_directories(m: AppModel, d: DraftModel, n: int)
    requires
        m.mode == Mode::NewSession,
        m.draft == Some(d),
        d.focus == NewField::Dir,
        1 <= n <= 9,
    ensures
        ({
            let after = keyed(m, press(KeyCode::Char((0x30 + n) as char)));
            &&& n <= d.recent.len() ==> after.draft == Some(
                DraftModel { dir: d.recent[n - 1], error: None, ..d },
            )
            &&& n > d.recent.len() ==> after.draft == Some(
                DraftModel { dir: d.dir + seq![(0x30 + n) as char], error: None, ..d },
            )
        }),
{
    let c = (0x30 + n) as char;
    assert(d.dir.push(c) =~= d.dir + seq![c]);
}

/// Tab and the arrow down go from the name to the directory to the command and round
/// again, the other two keys the other way; Escape closes the form, Enter submits it.
pub proof fn the_form_is_walked_through(m: AppModel, d: DraftModel)
    requires
        m.mode == Mode::NewSession,
        m.draft == Some(d),
    ensures
        ({
            let next = keyed(m, press(KeyCode::Tab));
            let before = keyed(m, press(KeyCode::BackTab));
            &&& keyed(m, press(KeyCode::Down)) == next
            &&& keyed(m, press(KeyCode::Up)) == before
            &&& next.draft matches Some(e) && e.focus == match d.focus {
                NewField::Name => NewField::Dir,
                NewField::Dir => NewField::Command,
                NewField::Command => NewField::Name,
            } && e.name == d.name && e.dir == d.dir && e.command == d.command && e.name_edited
                == d.name_edited
            &&& before.draft matches Some(e) && e.focus == match d.focus {
                NewField::Name => NewField::Command,
                NewField::Dir => NewField::Name,
                NewField::Command => NewField::Dir,
            } && e.name == d.name && e.dir == d.dir && e.command == d.command && e.name_edited
                == d.name_edited
            &&& keyed(m, press(KeyCode::Esc)) == AppModel { draft: None, mode: Mode::List, ..m }
            &&& keyed(m, press(KeyCode::Enter)) == m
            &&& key_work(m, press(KeyCode::Enter)) == WorkModel::SubmitForm
            &&& key_work(m, press(KeyCode::Tab)) == WorkModel::Done
            &&& key_work(m, press(KeyCode::Esc)) == WorkModel::Done
        }),
{
}

proof fn lemma_count_zero(sessions: Seq<SessionView>, name: Seq<char>)
    ensures
        count_named(sessions, name) > 0 <==> exists|i: int|
            0 <= i < sessions.len() && (#[trigger] sessions[i]).name == name,
    decreases sessions.len(),
{
    if sessions.len() > 0 {
        let front = sessions.drop_last();
        lemma_count_zero(front, name);
        if count_named(front, name) > 0 {
            let i = choose|i: int| 0 <= i < front.len() && (#[trigger] front[i]).name == name;
            assert(sessions[i].name == name);
        }
        if sessions.last().name == name {
            assert(sessions[sessions.len() - 1].name == name);
        }
        if exists|i: int| 0 <= i < sessions.len() && (#[trigger] sessions[i]).name == name {
            let i = choose|i: int| 0 <= i < sessions.len() && (#[trigger] sessions[i]).name == name;
            if i < front.len() {
                assert(front[i] == sessions[i]);
            }
        }
    }
}

/// A name that a listed session has, whatever the filter, is remarked on; any other is not.
pub proof fn taken_names_are_remarked_on(m: AppModel, name: Seq<char>)
    ensures
        ({
            let taken = exists|i: int|
                0 <= i < all_of(m).len() && (#[trigger] all_of(m)[i]).name == name;
            &&& taken ==> duplicate_note_of(m, name) == Some(
                fmt_of(dict_of(m.lang).duplicate_note@, seq![name]),
            )
            &&& !taken ==> duplicate_note_of(m, name) is None
        }),
{
    lemma_count_zero(all_of(m), name);
}

/// Leaving the name in the form shows the remark on it, if there is one; so does sending
/// off a name that was typed.
pub proof fn the_form_remarks_on_taken_names(
    m: AppModel,
    d: DraftModel,
    env: EnvModel,
    forward: bool,
)
    requires
        m.mode == Mode::NewSession,
        m.draft == Some(d),
    ensures
        ({
            let left = keyed(
                m,
                press(
                    if forward {
                        KeyCode::Tab
                    } else {
                        KeyCode::BackTab
                    },
                ),
            );
            let remark = duplicate_note_of(m, d.name);
            &&& left.draft matches Some(e) && e.note == if d.focus == NewField::Name && remark
                is Some {
                remark
            } else {
                d.note
            }
            &&& commit_step(m, env) == CommitStep::Create ==> (committed(m, env).draft matches Some(
                e,
            ) && e.note == duplicate_note_of(m, trim_of(d.name)))
        }),
{
}

// ---------------------------------------------------------------------------
// Submitting
// ---------------------------------------------------------------------------
/// A directory stands for itself unless it begins with a tilde; a tilde alone stands
/// for the home directory, and so does one in front of a slash.
pub proof fn a_tilde_stands_for_the_home_directory(path: Seq<char>, home: Seq<char>)
    requires
        home.len() > 0,
    ensures
        path.len() == 0 || path[0] != '~' ==> expanded(path, Some(home)) == path && expanded(
            path,
            None,
        ) == path,
        expanded(seq!['~'], Some(home)) == home,
        expanded(seq!['~', '/'] + path, Some(home)) == home + seq!['/'] + path,
        expanded(seq!['~', '/'] + path, None) == seq!['~', '/'] + path,
        expanded(seq!['~', '/'] + path, Some(Seq::empty())) == seq!['~', '/'] + path,
        expanded(seq!['~'], None) == seq!['~'],
        path.len() > 1 && path[1] != '/' ==> expanded(path, Some(home)) == path,
{
    reveal_strlit("~");
    reveal_strlit("~/");
    reveal_strlit("/");
    assert("~"@ =~= seq!['~']);
    assert("~/"@ =~= seq!['~', '/']);
    assert("/"@ =~= seq!['/']);
    if path.len() == 0 || path[0] != '~' {
        if starts_with_text(path, "~/"@) {
            assert(path.subrange(0, 2)[0] == path[0]);
        }
    }
    if path.len() > 1 && path[1] != '/' {
        if starts_with_text(path, "~/"@) {
            assert(path.subrange(0, 2)[1] == path[1]);
        }
    }
    let long = seq!['~', '/'] + path;
    assert(long.subrange(0, 2) =~= "~/"@);
    assert(long != "~"@);
    assert(long.skip(2) =~= path);
}

/// A form that is accepted is used as it was typed: the name and the command without
/// the white space around them, the directory as well and with its tilde expanded. Only
/// where no command was typed is it the shell, and `/bin/sh` where there is none.
pub proof fn accepted_forms_are_used_as_typed(m: AppModel, env: EnvModel, d: DraftModel)
    requires
        m.draft == Some(d),
        commit_step(m, env) != CommitStep::Rejected,
    ensures
        committed(m, env).draft matches Some(n) && {
            &&& n.name == trim_of(d.name)
            &&& n.dir == expanded(trim_of(d.dir), env.home)
            &&& some_solid(d.command) ==> n.command == trim_of(d.command)
            &&& all_space(d.command) ==> n.command == match env.shell {
                Some(shell) => if all_space(shell) {
                    "/bin/sh"@
                } else {
                    shell
                },
                None => "/bin/sh"@,
            }
            &&& n.error == d.error && n.focus == d.focus && n.name_edited == d.name_edited
                && n.name_base == d.name_base && n.recent == d.recent
        },
{
    texts_fall_apart_when_trimmed(d.command);
    if let Some(shell) = env.shell {
        texts_fall_apart_when_trimmed(shell);
    }
    if some_solid(d.command) {
        let i = choose|i: int| 0 <= i < d.command.len() && !is_space(#[trigger] d.command[i]);
        assert(!all_space(d.command));
    }
}

/// A form is accepted exactly if its name is valid and its directory is given and
/// exists; then the session is created at once if the name was typed, and after another
/// look at the list if it was suggested. Otherwise the first field that is wrong gets
/// the focus.
pub proof fn forms_are_accepted_when_they_are_right(m: AppModel, env: EnvModel, d: DraftModel)
    requires
        m.draft == Some(d),
    ensures
        ({
            let good_name = valid_name(trim_of(d.name));
            let good_dir = expanded(trim_of(d.dir), env.home).len() > 0 && env.dir_exists;
            let step = commit_step(m, env);
            &&& good_name && good_dir && d.name_edited ==> step == CommitStep::Create
            &&& good_name && good_dir && !d.name_edited ==> step == CommitStep::Relist
            &&& !good_name || !good_dir ==> step == CommitStep::Rejected
            &&& !good_name ==> (committed(m, env).draft matches Some(n) && n.focus
                == NewField::Name && n.error is Some && n.error == name_error(
                trim_of(d.name),
                m.lang,
            ))
            &&& good_name && !good_dir ==> (committed(m, env).draft matches Some(n) && n.focus
                == NewField::Dir && n.error == Some(
                if expanded(trim_of(d.dir), env.home).len() == 0 {
                    dict_of(m.lang).dir_empty@
                } else {
                    fmt_of(
                        dict_of(m.lang).not_a_directory@,
                        seq![expanded(trim_of(d.dir), env.home)],
                    )
                },
            ))
        }),
{
    accepted_names(trim_of(d.name), m.lang);
}

/// A suggested name that was taken meanwhile is changed to a free one, and the user is
/// told; one that is still free stays, and so does everything else in the form.
pub proof fn suggested_names_stay_free(
    m: AppModel,
    d: DraftModel,
    outcome: Result<EnumerationView, ErrorView>,
)
    requires
        m.draft == Some(d),
        valid_name(d.name_base),
    ensures
        ({
            let n = refitted(m, outcome);
            &&& outcome is Err ==> n == m
            &&& outcome matches Ok(fresh) ==> {
                let taken = taken_of(m.config, fresh.list.sessions);
                &&& !taken.contains(d.name) ==> n == m
                &&& n.draft matches Some(e) && {
                    &&& e.dir == d.dir && e.command == d.command && e.focus == d.focus
                    &&& e.name != d.name ==> valid_name(e.name) && e.note == Some(
                        fmt_of(dict_of(m.lang).name_was_taken@, seq![d.name, e.name]),
                    )
                    &&& e.name != d.name && taken.contains(e.name) ==> e.name == d.name_base
                        && forall|k: nat|
                        2 <= k <= SUFFIX_MAX ==> taken.contains(
                            #[trigger] candidate(d.name_base, k),
                        )
                }
            }
        }),
{
    if let Ok(fresh) = outcome {
        chosen_names_are_valid_and_free(d.name_base, taken_of(m.config, fresh.list.sessions));
    }
}

/// What is taken are the names on record and the names that are listed.
pub proof fn taken_names_are_recorded_or_listed(
    c: ConfigModel,
    sessions: Seq<SessionView>,
    name: Seq<char>,
)
    ensures
        taken_of(c, sessions).contains(name) <==> table_get(c.sessions, name) is Some || exists|
            i: int,
        |
            0 <= i < sessions.len() && (#[trigger] sessions[i]).name == name,
{
    let taken = taken_of(c, sessions);
    let names = table_names(c.sessions);
    lemma_position(c.sessions, name);
    if taken.contains(name) {
        let k = choose|k: int| 0 <= k < taken.len() && taken[k] == name;
        if k < names.len() {
            assert(c.sessions[k].name == name);
        } else {
            assert(sessions[k - names.len()].name == name);
        }
    }
    if table_get(c.sessions, name) is Some {
        let p = position_of(c.sessions, name) as int;
        assert(taken[p] == name);
    }
    if exists|i: int| 0 <= i < sessions.len() && (#[trigger] sessions[i]).name == name {
        let i = choose|i: int| 0 <= i < sessions.len() && (#[trigger] sessions[i]).name == name;
        assert(taken[names.len() + i] == name);
    }
}

/// The session is created detached under its name, with its command as it was given.
pub proof fn creating_passes_name_and_command(name: Seq<char>, command: Seq<char>)
    ensures
        create_args_of(name, command) == seq!["-U"@, "-dmS"@, name, command],
{
}

/// A session that was created is recorded: as created here, with its command, its
/// directory and the time, and the directory as the one that was used last. No other
/// record changes, and the form stays for what follows.
pub proof fn creations_are_recorded(
    m: AppModel,
    d: DraftModel,
    run: RunView,
    stamp: Seq<char>,
    other: Seq<char>,
)
    requires
        m.draft == Some(d),
        run.code == 0,
        other != d.name,
    ensures
        ({
            let n = create_noted(m, Ok(run), stamp);
            &&& create_error(d, Ok(run), m.lang) is None
            &&& table_get(n.config.sessions, d.name) matches Some(r) && r.managed && r.command
                == Some(d.command) && r.cwd == Some(d.dir) && r.last_seen == Some(stamp)
            &&& table_get(n.config.sessions, other) == table_get(m.config.sessions, other)
            &&& m.config.max_recent_dirs > 0 ==> n.config.dirs.len() > 0 && n.config.dirs[0].path
                == d.dir && n.config.dirs[0].last_used == stamp
            &&& n.draft == m.draft
        }),
{
    table_reads_what_was_stored(
        m.config.sessions,
        d.name,
        MetaModel {
            managed: true,
            command: Some(d.command),
            cwd: Some(d.dir),
            last_seen: Some(stamp),
            ..meta_or_none(m.config.sessions, d.name)
        },
        other,
    );
}

/// A session counts as created exactly if screen ran and exited with zero.
pub proof fn creation_is_judged_by_the_exit_code(
    d: DraftModel,
    result: Result<RunView, ErrorView>,
    lang: Lang,
)
    ensures
        create_error(d, result, lang) is None <==> (result matches Ok(run) && run.code == 0),
{
}

/// After a creation the new session is selected where it is listed, and the first row
/// where it is not; the fresh listing is taken over.
pub proof fn the_new_session_gets_the_cursor(
    m: AppModel,
    d: DraftModel,
    fresh: EnumerationView,
    now: u64,
    i: int,
)
    requires
        m.draft == Some(d),
        m.filter.len() == 0,
        fresh.list.sessions.len() <= usize::MAX,
        0 <= i <= fresh.list.sessions.len(),
        i < fresh.list.sessions.len() ==> fresh.list.sessions[i].name == d.name,
        forall|k: int| 0 <= k < i ==> (#[trigger] fresh.list.sessions[k]).name != d.name,
    ensures
        ({
            let n = created_selected(m, Ok(fresh), now);
            &&& n.enumeration == Some(fresh) && n.last_refresh == Some(now) && n.draft == m.draft
            &&& i < fresh.list.sessions.len() ==> n.selected == i
            &&& i == fresh.list.sessions.len() ==> n.selected == 0
        }),
{
    let n = with_list(m, fresh);
    the_rows_are_what_passes(n);
    assert(visible(n) == fresh.list.sessions);
    lemma_row_named(fresh.list.sessions, d.name, i);
}

proof fn lemma_row_named(sessions: Seq<SessionView>, name: Seq<char>, i: int)
    requires
        0 <= i <= sessions.len(),
        i < sessions.len() ==> sessions[i].name == name,
        forall|k: int| 0 <= k < i ==> (#[trigger] sessions[k]).name != name,
    ensures
        index_named(sessions, name) == i,
    decreases sessions.len(),
{
    if i > 0 {
        assert(sessions[0].name != name);
        let rest = sessions.drop_first();
        assert forall|k: int| 0 <= k < i - 1 implies (#[trigger] rest[k]).name != name by {
            assert(rest[k] == sessions[k + 1]);
        }
        lemma_row_named(rest, name, i - 1);
    }
}

/// A refused creation is told with the name, the exit code, the command that was run, the
/// directory, and what screen said, or that it said nothing.
pub proof fn refused_creations_are_told(d: DraftModel, run: RunView, err: ErrorView, lang: Lang)
    requires
        run.code != 0,
    ensures
        ({
            let t = dict_of(lang);
            let said = trim_of(run_text(run));
            &&& create_error(d, Ok(run), lang) == Some(
                fmt_of(
                    t.screen_refused@,
                    seq![
                        d.name,
                        signed_decimal_of(run.code as int),
                        run.command,
                        d.dir,
                        if all_space(run_text(run)) {
                            t.screen_no_diagnostic@
                        } else {
                            said
                        },
                    ],
                ),
            )
            &&& create_error(d, Err(err), lang) == Some(
                fmt_of(t.create_failed@, seq![error_text(err)]),
            )
        }),
{
    texts_fall_apart_when_trimmed(run_text(run));
}

/// Where the sessions could not be listed after a creation, the old list stays, with the
/// cursor on its first row.
pub proof fn without_a_listing_the_first_row_is_selected(m: AppModel, err: ErrorView, now: u64)
    requires
        m.draft is Some,
    ensures
        created_selected(m, Err(err), now) == (AppModel { selected: 0, ..m }),
{
}

} // verus!
