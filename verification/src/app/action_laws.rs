//! What the dangerous actions, renaming, restarting and notes do, step by step.

use crate::app::actions::{
    action_message, cleaned_up, meta_set, refusal, rename_message, restart_noted, save_message,
    stale_names, status_at, unlisted,
};
use crate::app::connect::meta_or_none;
use crate::app::key_laws::press;
use crate::app::keys::{
    key_work, keyed,
};
use crate::app::names::{
    accepted_names, index_named, valid_name,
};
use crate::app::state::{
    AppModel, all_of, visible,
};
use crate::app::types::{
    ActionKind, ConfirmModel, KeyCode, MetaEditModel, MetaField, Mode, RenameModel,
    RenameRequestModel, RestartModel, SaveReasonModel, WorkModel, action_command,
    action_consequence, action_label,
};
use crate::config::{
    MetaModel, no_meta, table_get, table_names, table_reads_what_was_stored,
};
use crate::i18n::{
    Lang, dict_of, fmt_of,
};
use crate::screen::cmd::{
    RunView, action_args_of, rename_args_of, run_text,
};
use crate::screen::parse::{
    EnumerationView, SessionView, status_label,
};
use crate::text::{
    decimal_of, is_ctrl, join_of, signed_decimal_of, trim_of,
};
use crate::text_laws::{
    all_space, taking_back_undoes_typing, texts_fall_apart_when_trimmed,
};
use vstd::prelude::*;

verus! {

// ---------------------------------------------------------------------------
// Asking and answering
// ---------------------------------------------------------------------------
/// `K` asks about the selected session, by its full address and with its name on
/// display; `D` does so if someone is attached to it; `W` asks where a row is dead.
/// The focus rests on cancelling. What cannot be done is told instead.
pub proof fn actions_are_asked_for_the_selected_session(m: AppModel)
    requires
        m.mode == Mode::List,
        m.selected < visible(m).len(),
    ensures
        ({
            let s = visible(m)[m.selected as int];
            let kill = keyed(m, press(KeyCode::Char('K')));
            let detach = keyed(m, press(KeyCode::Char('D')));
            let wipe = keyed(m, press(KeyCode::Char('W')));
            let running = match m.meta {
                Some(meta) => meta.command,
                None => None,
            };
            let dead = exists|i: int|
                0 <= i < visible(m).len() && (#[trigger] visible(m)[i]).status is Dead;
            &&& kill.mode == Mode::Confirm && kill.confirm == Some(
                ConfirmModel {
                    kind: ActionKind::Kill,
                    target: s.full,
                    display: s.name,
                    command: running,
                    focus_yes: false,
                },
            )
            &&& if s.status is Attached || s.status is Multi {
                detach.mode == Mode::Confirm && detach.confirm == Some(
                    ConfirmModel {
                        kind: ActionKind::Detach,
                        target: s.full,
                        display: s.name,
                        command: running,
                        focus_yes: false,
                    },
                )
            } else {
                detach.mode == Mode::List && detach.confirm == m.confirm && detach.status == Some(
                    fmt_of(dict_of(m.lang).not_attached@, seq![s.name]),
                )
            }
            &&& if dead {
                wipe.mode == Mode::Confirm && (wipe.confirm matches Some(c) && c.kind
                    == ActionKind::Wipe && !c.focus_yes)
            } else {
                wipe.mode == Mode::List && wipe.confirm == m.confirm && wipe.status == Some(
                    dict_of(m.lang).no_dead_to_wipe@,
                )
            }
        }),
{
}

/// Without a selected session these keys do nothing.
pub proof fn nothing_is_asked_without_a_session(m: AppModel)
    requires
        m.mode == Mode::List,
        visible(m).len() == 0,
    ensures
        keyed(m, press(KeyCode::Char('K'))) == m,
        keyed(m, press(KeyCode::Char('D'))) == m,
        keyed(m, press(KeyCode::Char('r'))) == m,
        keyed(m, press(KeyCode::Char('p'))) == m,
        keyed(m, press(KeyCode::Char('s'))) == m,
        keyed(m, press(KeyCode::Char('i'))) == m,
{
}

/// A question is answered with yes by `y`, `Y`, or Enter on confirming, and then the
/// action that was asked about is handed on; with no by `n`, `N`, `q`, Escape, or Enter on
/// cancelling, and then nothing is. The arrows and Tab move between the two. No other
/// key answers.
pub proof fn questions_are_answered(m: AppModel, c: ConfirmModel, code: KeyCode)
    requires
        m.mode == Mode::Confirm,
        m.confirm == Some(c),
        c.kind != ActionKind::Cleanup,
    ensures
        ({
            let n = keyed(m, press(code));
            let yes = code == KeyCode::Char('y') || code == KeyCode::Char('Y') || (code
                == KeyCode::Enter && c.focus_yes);
            let no = code == KeyCode::Char('n') || code == KeyCode::Char('N') || code
                == KeyCode::Char('q') || code == KeyCode::Esc || (code == KeyCode::Enter
                && !c.focus_yes);
            let over = code == KeyCode::Left || code == KeyCode::Right || code == KeyCode::Tab;
            &&& yes ==> n == AppModel {
                confirm: None,
                mode: Mode::List,
                action_request: Some(ConfirmModel { focus_yes: true, ..c }),
                ..m
            }
            &&& no ==> n == AppModel { confirm: None, mode: Mode::List, ..m }
            &&& over ==> n == AppModel {
                confirm: Some(ConfirmModel { focus_yes: !c.focus_yes, ..c }),
                ..m
            } && keyed(n, press(code)) == m
            &&& !yes && !no && !over ==> n == m
            &&& key_work(m, press(code)) == WorkModel::Done
        }),
{
}

// ---------------------------------------------------------------------------
// Checking
// ---------------------------------------------------------------------------
proof fn lemma_status_at(sessions: Seq<SessionView>, full: Seq<char>, i: int)
    requires
        0 <= i < sessions.len(),
        sessions[i].full == full,
        forall|k: int| 0 <= k < i ==> (#[trigger] sessions[k]).full != full,
    ensures
        status_at(sessions, full) == Some(sessions[i].status),
    decreases sessions.len(),
{
    if i > 0 {
        assert(sessions[0].full != full);
        let rest = sessions.drop_first();
        assert forall|k: int| 0 <= k < i - 1 implies (#[trigger] rest[k]).full != full by {
            assert(rest[k] == sessions[k + 1]);
        }
        lemma_status_at(rest, full, i - 1);
    }
}

proof fn lemma_status_none(sessions: Seq<SessionView>, full: Seq<char>)
    requires
        forall|k: int| 0 <= k < sessions.len() ==> (#[trigger] sessions[k]).full != full,
    ensures
        status_at(sessions, full) is None,
    decreases sessions.len(),
{
    if sessions.len() > 0 {
        assert(sessions[0].full != full);
        let rest = sessions.drop_first();
        assert forall|k: int| 0 <= k < rest.len() implies (#[trigger] rest[k]).full != full by {
            assert(rest[k] == sessions[k + 1]);
        }
        lemma_status_none(rest, full);
    }
}

/// An action that fits what a fresh listing says of its target is not refused: a detach
/// of a session that is attached, once or several times, and a kill of any other one that
/// the program does not run in. One that does not fit is.
pub proof fn fitting_actions_are_not_refused(
    lang: Lang,
    own: Option<Seq<char>>,
    fresh: EnumerationView,
    action: ConfirmModel,
    i: int,
)
    requires
        0 <= i < fresh.list.sessions.len(),
        fresh.list.sessions[i].full == action.target,
        forall|k: int|
            0 <= k < i ==> (#[trigger] fresh.list.sessions[k]).full != action.target,
    ensures
        ({
            let status = fresh.list.sessions[i].status;
            let in_use = status is Attached || status is Multi;
            let r = refusal(lang, own, fresh, action);
            &&& action.kind == ActionKind::Detach ==> (r is None <==> in_use)
            &&& action.kind == ActionKind::Kill ==> (r is None <==> !in_use && own != Some(
                action.target,
            ))
            &&& action.kind == ActionKind::Detach && !in_use ==> r == Some(
                fmt_of(
                    dict_of(lang).no_longer_attached@,
                    seq![action.display, status_label(status)],
                ),
            )
            &&& action.kind == ActionKind::Kill && r is Some ==> r == Some(
                fmt_of(dict_of(lang).kill_attached@, seq![action.display]),
            )
        }),
{
    lemma_status_at(fresh.list.sessions, action.target, i);
}

/// Where the target is no longer listed, neither a detach nor a kill is carried out.
pub proof fn actions_on_what_is_gone_are_refused(
    lang: Lang,
    own: Option<Seq<char>>,
    fresh: EnumerationView,
    action: ConfirmModel,
)
    requires
        forall|k: int|
            0 <= k < fresh.list.sessions.len() ==> (#[trigger] fresh.list.sessions[k]).full
                != action.target,
    ensures
        action.kind == ActionKind::Detach ==> refusal(lang, own, fresh, action) == Some(
            fmt_of(dict_of(lang).gone_detach@, seq![action.display]),
        ),
        action.kind == ActionKind::Kill ==> refusal(lang, own, fresh, action) == Some(
            fmt_of(dict_of(lang).gone_kill@, seq![action.display]),
        ),
{
    lemma_status_none(fresh.list.sessions, action.target);
}

/// A wipe is carried out exactly if a dead session is listed.
pub proof fn wipes_need_a_dead_session(
    lang: Lang,
    own: Option<Seq<char>>,
    fresh: EnumerationView,
    action: ConfirmModel,
)
    requires
        action.kind == ActionKind::Wipe,
    ensures
        refusal(lang, own, fresh, action) is None <==> exists|i: int|
            0 <= i < fresh.list.sessions.len() && (
            #[trigger] fresh.list.sessions[i]).status is Dead,
{
}

/// Each action runs the screen command of its name; a cleanup runs none.
pub proof fn actions_run_their_own_command(kind: ActionKind, target: Seq<char>)
    ensures
        action_command(kind) is None <==> kind == ActionKind::Cleanup,
        kind == ActionKind::Detach ==> action_args_of(action_command(kind)->0, target) == seq![
            "-S"@,
            target,
            "-X"@,
            "detach"@,
        ],
        kind == ActionKind::Kill ==> action_args_of(action_command(kind)->0, target) == seq![
            "-S"@,
            target,
            "-X"@,
            "quit"@,
        ],
        kind == ActionKind::Wipe ==> action_args_of(action_command(kind)->0, target) == seq![
            "-wipe"@,
        ],
{
}

// ---------------------------------------------------------------------------
// Renaming
// ---------------------------------------------------------------------------
/// `r` offers the name of the selected session for change, and what is changed is that
/// session, by its full address.
pub proof fn renaming_starts_from_the_old_name(m: AppModel)
    requires
        m.mode == Mode::List,
        m.selected < visible(m).len(),
    ensures
        ({
            let s = visible(m)[m.selected as int];
            keyed(m, press(KeyCode::Char('r'))) == AppModel {
                rename: Some(RenameModel { target: s.full, name: s.name, error: None }),
                mode: Mode::Rename,
                ..m
            }
        }),
{
}

/// A new name is typed at its end and taken back from there. Enter asks for what was
/// typed, without the white space around it, if that is a valid name, and otherwise
/// says why it is not; Escape gives up.
pub proof fn names_are_typed_and_sent(m: AppModel, d: RenameModel, c: char)
    requires
        m.mode == Mode::Rename,
        m.rename == Some(d),
        !is_ctrl(c),
    ensures
        ({
            let typed = keyed(m, press(KeyCode::Char(c)));
            let back = keyed(typed, press(KeyCode::Backspace));
            let sent = keyed(m, press(KeyCode::Enter));
            let left = keyed(m, press(KeyCode::Esc));
            &&& typed.rename == Some(
                RenameModel { target: d.target, name: d.name + seq![c], error: None },
            ) && typed.mode == Mode::Rename
            &&& back.rename == Some(RenameModel { target: d.target, name: d.name, error: None })
            &&& if valid_name(trim_of(d.name)) {
                sent == AppModel {
                    rename: None,
                    mode: Mode::List,
                    rename_request: Some(
                        RenameRequestModel { target: d.target, new_name: trim_of(d.name) },
                    ),
                    ..m
                }
            } else {
                &&& sent.rename_request == m.rename_request && sent.mode == Mode::Rename
                &&& sent.rename matches Some(e) && e.target == d.target && e.name == d.name
                    && e.error is Some
            }
            &&& left == AppModel { rename: None, mode: Mode::List, ..m }
        }),
{
    accepted_names(trim_of(d.name), m.lang);
    taking_back_undoes_typing(d.name, c);
    assert(d.name.push(c) =~= d.name + seq![c]);
}

/// A rename runs `sessionname` on the session with the new name behind it.
pub proof fn renaming_sets_the_session_name(target: Seq<char>, new_name: Seq<char>)
    ensures
        rename_args_of(target, new_name) == seq![
            "-S"@,
            target,
            "-X"@,
            "sessionname"@,
            new_name,
        ],
{
}

// ---------------------------------------------------------------------------
// Restarting
// ---------------------------------------------------------------------------
/// `s` starts a dead session again with the command and the directory on record, if it
/// was created here and both are; otherwise it says why not and asks for nothing.
pub proof fn dead_sessions_are_started_again(m: AppModel)
    requires
        m.mode == Mode::List,
        m.selected < visible(m).len(),
    ensures
        ({
            let s = visible(m)[m.selected as int];
            let n = keyed(m, press(KeyCode::Char('s')));
            let record = table_get(m.config.sessions, s.name);
            if s.status is Dead && (record matches Some(r) && r.managed && r.command is Some
                && r.cwd is Some) {
                &&& n.restart_request == Some(
                    RestartModel {
                        name: s.name,
                        dir: record->0.cwd->0,
                        command: record->0.command->0,
                    },
                )
                &&& n.status == m.status && n.mode == m.mode
            } else {
                let t = dict_of(m.lang);
                &&& n.restart_request == m.restart_request && n.mode == m.mode
                &&& n.status == Some(
                    fmt_of(
                        if !(s.status is Dead) {
                            t.restart_still_running@
                        } else if record is None {
                            t.restart_not_managed@
                        } else if !record->0.managed {
                            t.restart_unmanaged@
                        } else {
                            t.restart_no_record@
                        },
                        seq![s.name],
                    ),
                )
            }
        }),
{
}

/// A restart that worked is recorded like a creation: the session counts as created
/// here, with its command and directory, and the directory as used last.
pub proof fn restarts_are_recorded(
    m: AppModel,
    request: RestartModel,
    run: RunView,
    stamp: Seq<char>,
    other: Seq<char>,
)
    requires
        other != request.name,
    ensures
        ({
            let n = restart_noted(m, request, run, stamp);
            if run.code == 0 {
                &&& table_get(n.config.sessions, request.name) matches Some(r) && r.managed
                    && r.command == Some(request.command) && r.cwd == Some(request.dir)
                    && r.last_seen == Some(stamp)
                &&& table_get(n.config.sessions, other) == table_get(m.config.sessions, other)
                &&& m.config.max_recent_dirs > 0 ==> n.config.dirs.len() > 0
                    && n.config.dirs[0].path == request.dir
            } else {
                n.config == m.config && n.status is Some
            }
        }),
{
    table_reads_what_was_stored(
        m.config.sessions,
        request.name,
        MetaModel {
            managed: true,
            command: Some(request.command),
            cwd: Some(request.dir),
            last_seen: Some(stamp),
            ..meta_or_none(m.config.sessions, request.name)
        },
        other,
    );
}

// ---------------------------------------------------------------------------
// Notes
// ---------------------------------------------------------------------------
/// `a` and `t` in the details offer what is on record, or nothing, for change.
pub proof fn notes_start_from_what_is_on_record(m: AppModel, field: MetaField)
    requires
        m.mode == Mode::Detail,
        m.selected < visible(m).len(),
    ensures
        ({
            let s = visible(m)[m.selected as int];
            let key = if field == MetaField::Alias {
                'a'
            } else {
                't'
            };
            let n = keyed(m, press(KeyCode::Char(key)));
            let old_text = match table_get(m.config.sessions, s.name) {
                Some(r) => if field == MetaField::Alias {
                    r.alias
                } else {
                    r.note
                },
                None => None,
            };
            &&& n.mode == Mode::MetaEdit
            &&& n.meta_edit matches Some(e) && e.session == s.name && e.field == field && e.value
                == match old_text {
                Some(v) => v,
                None => Seq::empty(),
            }
            &&& n.config == m.config
        }),
{
}

/// A note is typed at its end and taken back from there. Enter stores what was typed,
/// without the white space around it, for that session and that field alone, and drops
/// the entry of the field if nothing is left; Escape leaves the record alone.
pub proof fn notes_are_typed_and_stored(m: AppModel, e: MetaEditModel, c: char, other: Seq<char>)
    requires
        m.mode == Mode::MetaEdit,
        m.meta_edit == Some(e),
        !is_ctrl(c),
        other != e.session,
    ensures
        ({
            let typed = keyed(m, press(KeyCode::Char(c)));
            let back = keyed(typed, press(KeyCode::Backspace));
            let stored = keyed(m, press(KeyCode::Enter));
            let left = keyed(m, press(KeyCode::Esc));
            let value = if all_space(e.value) {
                None
            } else {
                Some(trim_of(e.value))
            };
            let before = match table_get(m.config.sessions, e.session) {
                Some(r) => r,
                None => no_meta(),
            };
            &&& typed.meta_edit == Some(MetaEditModel { value: e.value + seq![c], ..e })
            &&& back.meta_edit == Some(e)
            &&& table_get(stored.config.sessions, e.session) == Some(
                match e.field {
                    MetaField::Alias => MetaModel { alias: value, ..before },
                    MetaField::Note => MetaModel { note: value, ..before },
                },
            )
            &&& table_get(stored.config.sessions, other) == table_get(m.config.sessions, other)
            &&& stored.config.dirs == m.config.dirs
            &&& stored.meta_edit is None && stored.mode == Mode::List
            &&& key_work(m, press(KeyCode::Enter)) == WorkModel::Save(
                SaveReasonModel::Meta { session: e.session, field: e.field },
            )
            &&& left == AppModel { meta_edit: None, mode: Mode::List, ..m }
            &&& key_work(m, press(KeyCode::Esc)) == WorkModel::Done
        }),
{
    taking_back_undoes_typing(e.value, c);
    assert(e.value.push(c) =~= e.value + seq![c]);
    texts_fall_apart_when_trimmed(e.value);
    table_reads_what_was_stored(
        m.config.sessions,
        e.session,
        meta_set(meta_or_none(m.config.sessions, e.session), e.field, e.value),
        other,
    );
}

/// What is told after an action: that it was done and to which session, or with which
/// exit code it failed and what screen said.
pub proof fn outcomes_are_told(action: ConfirmModel, run: RunView, lang: Lang)
    ensures
        ({
            let t = dict_of(lang);
            let said = trim_of(run_text(run));
            let r = action_message(action, run, lang);
            &&& run.code == 0 && action.kind == ActionKind::Wipe ==> r == t.wiped@
            &&& run.code == 0 && action.kind != ActionKind::Wipe ==> r == fmt_of(
                t.action_done@,
                seq![action.display, action_label(action.kind, lang)],
            )
            &&& run.code != 0 ==> r == fmt_of(
                t.action_failed@,
                seq![
                    action_label(action.kind, lang),
                    action.display,
                    signed_decimal_of(run.code as int),
                    if said.len() == 0 {
                        said
                    } else {
                        ": "@ + said
                    },
                ],
            )
        }),
{
    assert(trim_of(run_text(run)).len() == 0 ==> trim_of(run_text(run)) =~= Seq::<char>::empty());
}

// ---------------------------------------------------------------------------
// Cleaning up
// ---------------------------------------------------------------------------
proof fn lemma_stale(names: Seq<Seq<char>>, sessions: Seq<SessionView>, i: int)
    requires
        0 <= i < names.len(),
    ensures
        (forall|k: int| 0 <= k < sessions.len() ==> (#[trigger] sessions[k]).name != names[i])
            ==> unlisted(names, sessions).contains(names[i]),
    decreases names.len(),
{
    if forall|k: int| 0 <= k < sessions.len() ==> (#[trigger] sessions[k]).name != names[i] {
        let front = names.drop_last();
        let all = unlisted(names, sessions);
        if i < front.len() {
            assert(front[i] == names[i]);
            lemma_stale(front, sessions, i);
            let before = unlisted(front, sessions);
            let k = choose|k: int| 0 <= k < before.len() && before[k] == names[i];
            assert(all[k] == names[i]);
        } else {
            lemma_unnamed(sessions, names[i]);
            assert(all.last() == names[i]);
            assert(all[all.len() - 1] == names[i]);
        }
    }
}

proof fn lemma_unnamed(sessions: Seq<SessionView>, name: Seq<char>)
    requires
        forall|k: int| 0 <= k < sessions.len() ==> (#[trigger] sessions[k]).name != name,
    ensures
        index_named(sessions, name) == sessions.len(),
    decreases sessions.len(),
{
    if sessions.len() > 0 {
        assert(sessions[0].name != name);
        let rest = sessions.drop_first();
        assert forall|k: int| 0 <= k < rest.len() implies (#[trigger] rest[k]).name != name by {
            assert(rest[k] == sessions[k + 1]);
        }
        lemma_unnamed(rest, name);
    }
}

/// `X` asks whether to forget the sessions that are on record and not listed, with their
/// number and their names; where there are none it says so. Yes forgets them and has the
/// rest written.
pub proof fn what_is_not_listed_is_offered_for_cleanup(m: AppModel, i: int)
    requires
        m.mode == Mode::List,
        0 <= i < m.config.sessions.len(),
        forall|k: int|
            0 <= k < all_of(m).len() ==> (#[trigger] all_of(m)[k]).name != m.config.sessions[i].name,
    ensures
        ({
            let asked = keyed(m, press(KeyCode::Char('X')));
            let done = keyed(asked, press(KeyCode::Char('y')));
            let stale = stale_names(m);
            &&& stale.contains(m.config.sessions[i].name)
            &&& asked.mode == Mode::Confirm && (asked.confirm matches Some(c) && c.kind
                == ActionKind::Cleanup && !c.focus_yes && c.display == fmt_of(
                dict_of(m.lang).stale_entries@,
                seq![decimal_of(stale.len())],
            ) && c.command == Some(join_of(stale, ", "@)))
            &&& done.mode == Mode::List && done.confirm is None && done.action_request
                == m.action_request
            &&& done.config == cleaned_up(m).config
            &&& key_work(asked, press(KeyCode::Char('y'))) == WorkModel::Save(
                SaveReasonModel::Cleanup { count: stale.len() as usize },
            )
        }),
{
    lemma_stale(table_names(m.config.sessions), all_of(m), i);
    let asked = keyed(m, press(KeyCode::Char('X')));
    assert(stale_names(asked) == stale_names(m));
    let closed = AppModel { confirm: None, mode: Mode::List, ..asked };
    assert(stale_names(closed) == stale_names(m));
}

/// A configuration that was written is reported as such, and one that was not as kept for
/// now; a rename by its new name or by what screen said.
pub proof fn further_outcomes_are_told(
    session: Seq<char>,
    field: MetaField,
    count: usize,
    request: RenameRequestModel,
    run: RunView,
    lang: Lang,
)
    ensures
        ({
            let t = dict_of(lang);
            let key = if field == MetaField::Alias {
                t.meta_alias@
            } else {
                t.meta_note@
            };
            let meta = SaveReasonModel::Meta { session, field };
            let gone = SaveReasonModel::Cleanup { count };
            &&& save_message(meta, true, lang) == fmt_of(t.meta_updated@, seq![session, key])
            &&& save_message(meta, false, lang) == fmt_of(t.meta_kept_ro@, seq![session, key])
            &&& save_message(gone, true, lang) == fmt_of(
                t.removed_stale@,
                seq![decimal_of(count as nat)],
            )
            &&& save_message(gone, false, lang) == fmt_of(
                t.removed_stale_ro@,
                seq![decimal_of(count as nat)],
            )
            &&& run.code == 0 ==> rename_message(request, run, lang) == fmt_of(
                t.renamed_to@,
                seq![request.new_name],
            )
            &&& run.code != 0 ==> rename_message(request, run, lang) == fmt_of(
                t.rename_failed@,
                seq![signed_decimal_of(run.code as int), trim_of(run_text(run))],
            )
        }),
{
}

/// Every action has a name and a consequence of its own in the language of the user.
pub proof fn actions_have_their_own_words(lang: Lang)
    ensures
        ({
            let t = dict_of(lang);
            &&& action_label(ActionKind::Detach, lang) == t.act_detach@ && action_consequence(
                ActionKind::Detach,
                lang,
            ) == t.consequence_detach@
            &&& action_label(ActionKind::Kill, lang) == t.act_kill@ && action_consequence(
                ActionKind::Kill,
                lang,
            ) == t.consequence_kill@
            &&& action_label(ActionKind::Wipe, lang) == t.act_wipe@ && action_consequence(
                ActionKind::Wipe,
                lang,
            ) == t.consequence_wipe@
            &&& action_label(ActionKind::Cleanup, lang) == t.act_cleanup@ && action_consequence(
                ActionKind::Cleanup,
                lang,
            ) == t.consequence_cleanup@
        }),
{
}

} // verus!
