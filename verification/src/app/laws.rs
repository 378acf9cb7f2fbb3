//! What holds of the interface whatever keys are pressed.

use crate::app::actions::{
    any_dead, cleaned_up, cleanup_opened, confirm_opened, is_typed, is_yes, meta_set, refusal,
    restart_noted, stale_names, status_at, unlisted, without_names,
};
use crate::app::connect::{
    attach_noted, dir_touched, known_cwd, managed, meta_or_none, planned, save_path, shared,
};
use crate::app::event_loop::{
    Frame, LoopModel, POLL_CAP, Stage, stage_action, stage_state,
};
use crate::app::keys::{
    key_work, keyed,
};
use crate::app::names::{
    address_of, count_named, first_named, found_again, index_named, lemma_index_at, name_at,
    name_error, session_at,
};
use crate::app::previews::{
    preview_failed, wide_asked, wide_due,
};
use crate::app::state::{
    AppModel, all_of, clamped, filtered, next_tick, passes, refreshed, relisted, selected_of,
    selection_ok, telling, visible, with_list,
};
use crate::app::types::{
    ActionKind, AttachModel, ConfirmModel, KeyCode, KeyEvent, KeyEventKind, Mode,
    PreviewRequestModel, RestartModel, WorkModel,
};
use crate::app::wizard::{
    CommitStep, EnvModel, announced, commit_step, committed, create_error, create_noted,
    created_message, created_selected,
};
use crate::config::{
    ConfigModel, EntryModel, MetaModel, distinct_dirs, fresh_config, lemma_position, no_meta,
    position_of, recent_dirs_are_distinct_and_capped, table_forgets_what_was_dropped, table_get,
    table_names, table_reads_what_was_stored, table_sorted, table_stays_sorted,
};
use crate::screen::cmd::{
    AttachKind, RunView, attach_kind_label,
};
use crate::screen::parse::{
    EnumerationView, SessionView,
};
use crate::screen::ErrorView;
use crate::text::{
    popped, signed_decimal_of,
};
use crate::i18n::{
    Lang, dict_of, fmt_of,
};
use crate::screen::caps::Support;
use crate::screen::probe::MetaView;
use vstd::prelude::*;

verus! {

// ---------------------------------------------------------------------------
// The selection and the list
// ---------------------------------------------------------------------------
proof fn lemma_no_filter(sessions: Seq<SessionView>, cache: Map<u32, MetaView>)
    ensures
        filtered(sessions, Seq::empty(), cache) == sessions,
    decreases sessions.len(),
{
    if sessions.len() > 0 {
        lemma_no_filter(sessions.drop_last(), cache);
        assert(sessions.drop_last().push(sessions.last()) =~= sessions);
    }
}

/// No key moves the selection off the list.
pub proof fn keys_keep_the_selection(m: AppModel, key: KeyEvent)
    requires
        selection_ok(m),
    ensures
        selection_ok(keyed(m, key)),
{
    let n = keyed(m, key);
    if m.mode == Mode::Filter && key.kind == KeyEventKind::Press {
        let typed = match key.code {
            KeyCode::Esc => AppModel { filter: Seq::empty(), mode: Mode::List, ..m },
            KeyCode::Enter => AppModel { mode: Mode::List, ..m },
            KeyCode::Backspace => AppModel { filter: popped(m.filter), ..m },
            KeyCode::Char(c) if is_typed(c) => AppModel { filter: m.filter.push(c), ..m },
            _ => m,
        };
        assert(n == clamped(typed));
        assert(visible(n) == visible(typed));
    } else {
        assert(n.enumeration == m.enumeration && n.filter == m.filter && n.meta_cache
            == m.meta_cache);
        assert(visible(n) == visible(m));
    }
}

/// A new listing puts the selection back on the list, wherever it was, and
/// leaves it where it is if there still is such a row.
pub proof fn listings_clamp_the_selection(m: AppModel, e: EnumerationView)
    ensures
        selection_ok(with_list(m, e)),
        m.selected < visible(AppModel { enumeration: Some(e), ..m }).len() ==> with_list(
            m,
            e,
        ).selected == m.selected,
{
    let n = AppModel { enumeration: Some(e), ..m };
    assert(visible(with_list(m, e)) == visible(n));
}

/// While there is no filter a refresh keeps the selection on the list.
pub proof fn refreshes_keep_the_selection(
    m: AppModel,
    outcome: Result<EnumerationView, ErrorView>,
    now: u64,
)
    requires
        selection_ok(m),
        m.filter.len() == 0,
    ensures
        selection_ok(refreshed(m, outcome, now)),
{
    let n = refreshed(m, outcome, now);
    assert(m.filter =~= Seq::empty());
    lemma_no_filter(all_of(m), m.meta_cache);
    lemma_no_filter(all_of(n), n.meta_cache);
    lemma_no_filter(all_of(relisted(m, outcome)), m.meta_cache);
}

/// A refresh keeps the filter, the mode and every pending request; one that
/// fails keeps the list and the selection as well, and says why.
pub proof fn refreshes_keep_what_the_user_set(
    m: AppModel,
    outcome: Result<EnumerationView, ErrorView>,
    now: u64,
)
    ensures
        ({
            let n = refreshed(m, outcome, now);
            &&& n.filter == m.filter
            &&& n.mode == m.mode
            &&& n.config == m.config
            &&& n.draft == m.draft
            &&& n.attach_request == m.attach_request
            &&& n.action_request == m.action_request
            &&& n.rename_request == m.rename_request
            &&& n.restart_request == m.restart_request
            &&& outcome is Err ==> n.enumeration == m.enumeration && n.selected == m.selected
                && n.status is Some
            &&& outcome matches Ok(e) ==> n.enumeration == Some(e) && n.status is None
        }),
{
}

/// Every row that a filter lets through stands in the listing, in its order,
/// and the empty filter lets everything through.
pub proof fn filters_only_leave_out(m: AppModel, i: int)
    requires
        0 <= i < visible(m).len(),
    ensures
        all_of(m).contains(visible(m)[i]),
        passes(m.filter, m.meta_cache, visible(m)[i]),
        m.filter.len() == 0 ==> visible(m) == all_of(m),
{
    lemma_filtered_member(all_of(m), m.filter, m.meta_cache, i);
    if m.filter.len() == 0 {
        assert(m.filter =~= Seq::empty());
        lemma_no_filter(all_of(m), m.meta_cache);
    }
}

proof fn lemma_filtered_member(
    sessions: Seq<SessionView>,
    filter: Seq<char>,
    cache: Map<u32, MetaView>,
    i: int,
)
    requires
        0 <= i < filtered(sessions, filter, cache).len(),
    ensures
        sessions.contains(filtered(sessions, filter, cache)[i]),
        passes(filter, cache, filtered(sessions, filter, cache)[i]),
    decreases sessions.len(),
{
    let rest = sessions.drop_last();
    let s = filtered(sessions, filter, cache)[i];
    if i < filtered(rest, filter, cache).len() {
        lemma_filtered_member(rest, filter, cache, i);
        let k = choose|k: int| 0 <= k < rest.len() && rest[k] == s;
        assert(sessions[k] == s);
    } else {
        assert(s == sessions.last());
        assert(sessions[sessions.len() - 1] == s);
    }
}

// ---------------------------------------------------------------------------
// Keys
// ---------------------------------------------------------------------------
/// Only a press counts: releases and repeats change nothing and ask for nothing.
pub proof fn releases_are_ignored(m: AppModel, key: KeyEvent)
    requires
        key.kind != KeyEventKind::Press,
    ensures
        keyed(m, key) == m,
        key_work(m, key) == WorkModel::Done,
{
}

/// The interface ends only by `q` in the list.
pub proof fn only_q_in_the_list_quits(m: AppModel, key: KeyEvent)
    ensures
        keyed(m, key).should_quit <==> m.should_quit || (key.kind == KeyEventKind::Press && m.mode
            == Mode::List && key.code == KeyCode::Char('q')),
{
}

/// `Esc` leads back to the list from everywhere, does nothing that could be
/// regretted, and asks for nothing.
pub proof fn escape_leads_back_to_the_list(m: AppModel)
    ensures
        ({
            let key = KeyEvent { code: KeyCode::Esc, kind: KeyEventKind::Press };
            let n = keyed(m, key);
            &&& n.mode == Mode::List
            &&& n.should_quit == m.should_quit
            &&& n.config == m.config
            &&& n.action_request == m.action_request
            &&& n.attach_request == m.attach_request
            &&& n.rename_request == m.rename_request
            &&& n.restart_request == m.restart_request
            &&& key_work(m, key) == WorkModel::Done
        }),
{
}

// ---------------------------------------------------------------------------
// Dangerous actions
// ---------------------------------------------------------------------------
/// A question opens with the focus on no, and Enter then closes it with nothing
/// done.
pub proof fn questions_default_to_no(m: AppModel, kind: ActionKind)
    ensures
        ({
            let enter = KeyEvent { code: KeyCode::Enter, kind: KeyEventKind::Press };
            let asked = if kind == ActionKind::Cleanup {
                cleanup_opened(m)
            } else {
                confirm_opened(m, kind)
            };
            let n = keyed(asked, enter);
            &&& asked.action_request == m.action_request
            &&& asked.config == m.config
            &&& asked.confirm != m.confirm ==> {
                &&& asked.mode == Mode::Confirm
                &&& asked.confirm matches Some(c) && !c.focus_yes
                &&& n.mode == Mode::List
                &&& n.confirm is None
                &&& n.action_request == m.action_request
                &&& n.config == m.config
                &&& key_work(asked, enter) == WorkModel::Done
            }
        }),
{
}

/// No key carries out an action but `y`, or Enter with the focus on yes, in an
/// open question; and the action is the one that was asked about.
pub proof fn actions_are_confirmed(m: AppModel, key: KeyEvent)
    ensures
        keyed(m, key).action_request != m.action_request ==> {
            &&& key.kind == KeyEventKind::Press
            &&& m.mode == Mode::Confirm
            &&& m.confirm matches Some(c) && keyed(m, key).action_request matches Some(a) && {
                &&& is_yes(key.code) || (key.code == KeyCode::Enter && c.focus_yes)
                &&& a.kind == c.kind
                &&& a.target == c.target
            }
        },
{
}

/// Whatever is carried out was found in a fresh listing in a state that allows
/// it: what is detached is attached, what is killed exists, nobody is using it and the
/// program does not run in it, and a wipe finds something dead.
pub proof fn checked_actions_fit_the_state(
    lang: Lang,
    own: Option<Seq<char>>,
    fresh: EnumerationView,
    action: ConfirmModel,
)
    requires
        refusal(lang, own, fresh, action) is None,
    ensures
        match action.kind {
            ActionKind::Detach => status_at(fresh.list.sessions, action.target) matches Some(s) && (
            s is Attached || s is Multi),
            ActionKind::Kill => status_at(fresh.list.sessions, action.target) matches Some(s) && !(
            s is Attached || s is Multi) && own != Some(action.target),
            ActionKind::Wipe => any_dead(fresh.list.sessions),
            ActionKind::Cleanup => true,
        },
{
}

proof fn lemma_unlisted(names: Seq<Seq<char>>, sessions: Seq<SessionView>, name: Seq<char>)
    ensures
        unlisted(names, sessions).contains(name) <==> names.contains(name) && index_named(
            sessions,
            name,
        ) >= sessions.len(),
    decreases names.len(),
{
    if names.len() > 0 {
        let rest = names.drop_last();
        lemma_unlisted(rest, sessions, name);
        let tail = unlisted(rest, sessions);
        if index_named(sessions, names.last()) < sessions.len() {
            if names.contains(name) && index_named(sessions, name) >= sessions.len() {
                let k = choose|k: int| 0 <= k < names.len() && names[k] == name;
                assert(rest[k] == name);
            }
        } else {
            let all = tail.push(names.last());
            assert(all[all.len() - 1] == names.last());
            if tail.contains(name) {
                let k = choose|k: int| 0 <= k < tail.len() && tail[k] == name;
                assert(all[k] == name);
            }
            if names.contains(name) {
                let k = choose|k: int| 0 <= k < names.len() && names[k] == name;
                if k < rest.len() {
                    assert(rest[k] == name);
                }
            }
            if all.contains(name) {
                let k = choose|k: int| 0 <= k < all.len() && all[k] == name;
                if k < tail.len() {
                    assert(tail[k] == name);
                } else {
                    assert(names[names.len() - 1] == name);
                }
            }
        }
        if rest.contains(name) {
            let k = choose|k: int| 0 <= k < rest.len() && rest[k] == name;
            assert(names[k] == name);
        }
    }
}

proof fn lemma_without(table: Seq<EntryModel>, names: Seq<Seq<char>>, name: Seq<char>)
    requires
        table_sorted(table),
    ensures
        table_sorted(without_names(table, names)),
        table_get(without_names(table, names), name) == if names.contains(name) {
            None
        } else {
            table_get(table, name)
        },
    decreases names.len(),
{
    if names.len() > 0 {
        let rest = names.drop_last();
        let last = names.last();
        lemma_without(table, rest, name);
        let before = without_names(table, rest);
        table_stays_sorted(before, last, no_meta());
        assert(names[names.len() - 1] == last);
        if name == last {
            assert(last.push(' ').len() != last.len());
            table_forgets_what_was_dropped(before, last, last.push(' '));
        } else {
            table_forgets_what_was_dropped(before, last, name);
            if names.contains(name) {
                let k = choose|k: int| 0 <= k < names.len() && names[k] == name;
                assert(rest[k] == name);
            }
            if rest.contains(name) {
                let k = choose|k: int| 0 <= k < rest.len() && rest[k] == name;
                assert(names[k] == name);
            }
        }
    }
}

/// Cleaning up forgets what is kept on sessions that are not listed, and keeps
/// what is kept on the others.
pub proof fn cleanup_forgets_only_what_is_not_listed(m: AppModel, name: Seq<char>)
    requires
        table_sorted(m.config.sessions),
    ensures
        index_named(all_of(m), name) < all_of(m).len() ==> table_get(
            cleaned_up(m).config.sessions,
            name,
        ) == table_get(m.config.sessions, name),
        index_named(all_of(m), name) >= all_of(m).len() ==> table_get(
            cleaned_up(m).config.sessions,
            name,
        ) is None,
        cleaned_up(m).enumeration == m.enumeration,
        cleaned_up(m).config.dirs == m.config.dirs,
{
    let table = m.config.sessions;
    let names = table_names(table);
    lemma_unlisted(names, all_of(m), name);
    lemma_without(table, stale_names(m), name);
    lemma_position(table, name);
    let i = position_of(table, name) as int;
    if i < table.len() {
        assert(names[i] == name);
    }
}

// ---------------------------------------------------------------------------
// Connecting
// ---------------------------------------------------------------------------
/// A connection is asked for only where a fresh listing has the session, and
/// only in a state that allows it: a plain connection for a detached session, a
/// choice for one in use. Where the session is gone, nothing is asked for.
pub proof fn connections_follow_the_fresh_state(m: AppModel, fresh: EnumerationView)
    requires
        selected_of(m) is Some,
    ensures
        ({
            let s = selected_of(m)->0;
            let found = found_again(fresh.list.sessions, s.name, s.full);
            let n = planned(m, fresh);
            &&& n.attach_request != m.attach_request ==> (found matches Some(f) && f.status
                is Detached)
            &&& n.mode != m.mode ==> (found matches Some(f) && n.mode == Mode::AttachChoice && (
            f.status is Attached || f.status is Multi))
            &&& (found matches Some(f) && f.status is Detached && m.own != Some(f.full)) ==> (
            n.attach_request matches Some(r)
                && r.kind == AttachKind::Resume)
            &&& found is None ==> n.attach_request == m.attach_request && n.status is Some
        }),
{
}

/// Sharing never asks to take a session over, and is refused for what cannot
/// be connected to.
pub proof fn sharing_never_takes_over(m: AppModel, outcome: Result<EnumerationView, ErrorView>)
    ensures
        shared(m, outcome).attach_request != m.attach_request ==> {
            &&& shared(m, outcome).attach_request matches Some(r) && r.kind == AttachKind::Share
            &&& outcome matches Ok(fresh) && selected_of(m) matches Some(s) && found_again(
                fresh.list.sessions,
                s.name,
                s.full,
            ) matches Some(f) && (f.status is Detached || f.status is Attached || f.status is Multi)
        },
        outcome is Err ==> shared(m, outcome).enumeration == m.enumeration && shared(
            m,
            outcome,
        ).status is Some,
{
}

/// Whatever the filter leaves out: a session that shares its name with another one in
/// the fresh listing is connected to by its full address, and its own fresh state
/// decides.
pub proof fn namesakes_are_addressed_in_full(m: AppModel, fresh: EnumerationView, f: SessionView)
    requires
        selected_of(m) is Some,
        m.own != Some(selected_of(m)->0.full),
        session_at(fresh.list.sessions, selected_of(m)->0.full) == Some(f),
        count_named(fresh.list.sessions, f.name) > 1,
    ensures
        ({
            let full = selected_of(m)->0.full;
            let n = planned(m, fresh);
            let key = |c: char| KeyEvent { code: KeyCode::Char(c), kind: KeyEventKind::Press };
            &&& f.status is Detached ==> n.attach_request == Some(
                AttachModel { kind: AttachKind::Resume, target: full },
            )
            &&& (f.status is Attached || f.status is Multi) ==> {
                &&& n.mode == Mode::AttachChoice
                &&& keyed(n, key('1')).attach_request == Some(
                    AttachModel { kind: AttachKind::Share, target: full },
                )
                &&& keyed(n, key('2')).attach_request == Some(
                    AttachModel { kind: AttachKind::Takeover, target: full },
                )
            }
            &&& (f.status is Detached || f.status is Attached || f.status is Multi) ==> shared(
                m,
                Ok(fresh),
            ).attach_request == Some(AttachModel { kind: AttachKind::Share, target: full })
        }),
{
    lemma_session_at(fresh.list.sessions, selected_of(m)->0.full);
}

/// The session that the program itself runs in is neither connected to nor shared: the
/// user is told so instead.
pub proof fn the_own_session_is_not_entered(m: AppModel, fresh: EnumerationView)
    requires
        selected_of(m) is Some,
        m.own == Some(selected_of(m)->0.full),
        session_at(fresh.list.sessions, selected_of(m)->0.full) is Some,
    ensures
        planned(m, fresh).attach_request == m.attach_request,
        planned(m, fresh).mode == m.mode,
        planned(m, fresh).status is Some,
        shared(m, Ok(fresh)).attach_request == m.attach_request,
        shared(m, Ok(fresh)).status is Some,
{
    lemma_session_at(fresh.list.sessions, selected_of(m)->0.full);
}

proof fn lemma_session_at(sessions: Seq<SessionView>, full: Seq<char>)
    ensures
        session_at(sessions, full) matches Some(s) ==> s.full == full,
    decreases sessions.len(),
{
    if sessions.len() > 0 && sessions[0].full != full {
        lemma_session_at(sessions.drop_first(), full);
    }
}

/// Taking over happens only by the choice that names it.
pub proof fn taking_over_is_chosen(m: AppModel, key: KeyEvent)
    requires
        m.attach_request is None,
    ensures
        keyed(m, key).attach_request matches Some(r) ==> {
            &&& key.kind == KeyEventKind::Press
            &&& m.mode == Mode::AttachChoice
            &&& r.kind == AttachKind::Takeover ==> key.code == KeyCode::Char('2')
            &&& r.kind != AttachKind::Resume
        },
{
}

/// Coming back from a session always leads to the list and never ends the program; it
/// is told how it went; and the record of the session that was addressed says when it
/// was seen, with everything else in it as before.
pub proof fn coming_back_leads_to_the_list(
    m: AppModel,
    request: AttachModel,
    run: RunView,
    stamp: Seq<char>,
)
    ensures
        ({
            let n = attach_noted(m, request, run, stamp);
            let t = dict_of(m.lang);
            let name = name_at(all_of(m), request.target);
            &&& n.mode == Mode::List
            &&& n.should_quit == m.should_quit
            &&& n.enumeration == m.enumeration
            &&& run.code == 0 ==> n.status == Some(fmt_of(t.detached_from@, seq![request.target]))
            &&& run.code != 0 ==> n.status == Some(
                fmt_of(
                    t.screen_exit_code@,
                    seq![signed_decimal_of(run.code as int), attach_kind_label(request.kind)],
                ),
            )
            &&& table_get(n.config.sessions, name) == Some(
                MetaModel { last_seen: Some(stamp), ..meta_or_none(m.config.sessions, name) },
            )
            &&& forall|other: Seq<char>|
                other != name ==> #[trigger] table_get(n.config.sessions, other) == table_get(
                    m.config.sessions,
                    other,
                )
        }),
{
    let name = name_at(all_of(m), request.target);
    let meta = MetaModel { last_seen: Some(stamp), ..meta_or_none(m.config.sessions, name) };
    let n = attach_noted(m, request, run, stamp);
    assert forall|other: Seq<char>| other != name implies #[trigger] table_get(
        n.config.sessions,
        other,
    ) == table_get(m.config.sessions, other) by {
        table_reads_what_was_stored(m.config.sessions, name, meta, other);
    }
    assert(name.push(' ').len() != name.len());
    table_reads_what_was_stored(m.config.sessions, name, meta, name.push(' '));
}

// ---------------------------------------------------------------------------
// Snapshots and the form
// ---------------------------------------------------------------------------
/// A snapshot is asked for once per selection: while the one that was asked for
/// last is of the selected session, no other is due.
pub proof fn snapshots_are_taken_once(m: AppModel, is_wide: bool)
    ensures
        wide_due(wide_asked(m, is_wide), is_wide) is None,
        m.caps.hardcopy != Support::Yes ==> wide_due(m, is_wide) is None,
        wide_due(m, is_wide) matches Some(r) ==> selected_of(m) matches Some(s) && r.full == s.full,
{
    let n = wide_asked(m, is_wide);
    assert(visible(n) == visible(m));
}

/// A snapshot that failed leaves no older picture of that session behind, and
/// is not shown as one.
pub proof fn failed_snapshots_leave_no_picture(
    m: AppModel,
    request: PreviewRequestModel,
    reason: Seq<char>,
)
    ensures
        preview_failed(m, request, reason).preview matches Some(p) ==> p.full != request.full
            && m.preview == Some(p),
        preview_failed(m, request, reason).mode == m.mode,
        request.manual ==> preview_failed(m, request, reason).status == Some(reason),
{
}

/// A session that could not be created leaves the form open with everything
/// that was typed, and records nothing.
pub proof fn failed_creation_keeps_the_form(
    m: AppModel,
    result: Result<RunView, ErrorView>,
    stamp: Seq<char>,
)
    requires
        m.draft matches Some(d) && create_error(d, result, m.lang) is Some,
    ensures
        ({
            let n = create_noted(m, result, stamp);
            &&& n.mode == m.mode
            &&& n.config == m.config
            &&& n.draft matches Some(d) && d.error is Some && d.name == m.draft->0.name && d.dir
                == m.draft->0.dir && d.command == m.draft->0.command && d.focus
                == m.draft->0.focus
        }),
{
}

proof fn lemma_index_named(sessions: Seq<SessionView>, name: Seq<char>)
    ensures
        index_named(sessions, name) <= sessions.len(),
        index_named(sessions, name) < sessions.len() ==> sessions[index_named(
            sessions,
            name,
        ) as int].name == name,
    decreases sessions.len(),
{
    if sessions.len() > 0 && sessions[0].name != name {
        lemma_index_named(sessions.drop_first(), name);
    }
}

proof fn lemma_filtered_keeps(
    sessions: Seq<SessionView>,
    filter: Seq<char>,
    cache: Map<u32, MetaView>,
    i: int,
)
    requires
        0 <= i < sessions.len(),
        passes(filter, cache, sessions[i]),
    ensures
        filtered(sessions, filter, cache).contains(sessions[i]),
        filtered(sessions, filter, cache).len() <= sessions.len(),
    decreases sessions.len(),
{
    let rest = sessions.drop_last();
    let kept = filtered(sessions, filter, cache);
    lemma_filtered_len(sessions, filter, cache);
    if i < rest.len() {
        lemma_filtered_keeps(rest, filter, cache, i);
        let before = filtered(rest, filter, cache);
        let k = choose|k: int| 0 <= k < before.len() && before[k] == sessions[i];
        assert(kept[k] == sessions[i]);
    } else {
        assert(kept[kept.len() - 1] == sessions[i]);
    }
}

proof fn lemma_filtered_len(
    sessions: Seq<SessionView>,
    filter: Seq<char>,
    cache: Map<u32, MetaView>,
)
    ensures
        filtered(sessions, filter, cache).len() <= sessions.len(),
    decreases sessions.len(),
{
    if sessions.len() > 0 {
        lemma_filtered_len(sessions.drop_last(), filter, cache);
    }
}

proof fn lemma_index_bound(sessions: Seq<SessionView>, i: int)
    requires
        0 <= i < sessions.len(),
    ensures
        index_named(sessions, sessions[i].name) <= i,
    decreases sessions.len(),
{
    if sessions[0].name != sessions[i].name {
        assert(sessions.drop_first()[i - 1] == sessions[i]);
        lemma_index_bound(sessions.drop_first(), i - 1);
    }
}

/// Whatever the filter, a session that was created, is listed and passes the filter
/// becomes the selected one: it or a namesake of it, if there are any.
pub proof fn the_new_session_is_selected(m: AppModel, fresh: EnumerationView, now: u64, i: int)
    requires
        m.draft is Some,
        0 <= i < fresh.list.sessions.len() <= usize::MAX,
        fresh.list.sessions[i].name == m.draft->0.name,
        passes(m.filter, m.meta_cache, fresh.list.sessions[i]),
    ensures
        selected_of(created_selected(m, Ok(fresh), now)) matches Some(s) && s.name
            == m.draft->0.name,
{
    let n = created_selected(m, Ok(fresh), now);
    let name = m.draft->0.name;
    assert(visible(n) == filtered(fresh.list.sessions, m.filter, m.meta_cache));
    assert(visible(with_list(m, fresh)) == visible(n));
    lemma_filtered_keeps(fresh.list.sessions, m.filter, m.meta_cache, i);
    let k = choose|k: int| 0 <= k < visible(n).len() && visible(n)[k] == fresh.list.sessions[i];
    lemma_index_bound(visible(n), k);
    lemma_index_named(visible(n), name);
}

/// A new session is entered only if it is on display and the only one of its name, and
/// then it is the one that is connected to, whichever row is selected.
pub proof fn only_the_new_session_is_entered(m: AppModel)
    requires
        m.draft is Some,
        forall|i: int, j: int|
            0 <= i < all_of(m).len() && 0 <= j < all_of(m).len() && (
            #[trigger] all_of(m)[i]).full == (#[trigger] all_of(m)[j]).full ==> all_of(m)[i].name
                == all_of(m)[j].name,
    ensures
        ({
            let name = m.draft->0.name;
            let n = announced(m);
            (n.attach_request != m.attach_request || n.attach != m.attach) ==> {
                &&& m.config.defaults.attach_after_create
                &&& count_named(all_of(m), name) == 1
                &&& count_named(visible(m), name) > 0
                &&& n.attach_request != m.attach_request ==> {
                    let s = first_named(all_of(m), name)->0;
                    &&& s.name == name
                    &&& n.attach_request == Some(
                        AttachModel {
                            kind: AttachKind::Resume,
                            target: address_of(all_of(m), name, s.full),
                        },
                    )
                }
                &&& n.attach != m.attach ==> (n.attach matches Some(c) && c.name == name)
            }
        }),
{
    let name = m.draft->0.name;
    lemma_index_named(all_of(m), name);
    lemma_count_index(all_of(m), name);
    let told = AppModel {
        draft: None,
        mode: Mode::List,
        ..telling(m, created_message(m.draft->0, m.lang))
    };
    assert(visible(told) == visible(m));
    if let Some(s) = first_named(all_of(m), name) {
        lemma_index_at(all_of(m), index_named(all_of(m), name) as int);
    }
}

proof fn lemma_count_index(sessions: Seq<SessionView>, name: Seq<char>)
    ensures
        count_named(sessions, name) > 0 ==> index_named(sessions, name) < sessions.len(),
    decreases sessions.len(),
{
    if sessions.len() > 0 {
        if sessions.last().name == name {
            lemma_index_bound(sessions, sessions.len() - 1);
        } else {
            let rest = sessions.drop_last();
            lemma_count_index(rest, name);
            if count_named(rest, name) > 0 {
                let i = index_named(rest, name) as int;
                lemma_index_named(rest, name);
                assert(sessions[i].name == name);
                lemma_index_bound(sessions, i);
            }
        }
    }
}

/// A form is never sent off with an invalid name: the error is shown, the focus
/// goes to the field, and nothing else changes.
pub proof fn invalid_forms_are_not_sent(m: AppModel, env: EnvModel)
    requires
        m.draft is Some,
    ensures
        commit_step(m, env) != CommitStep::Rejected ==> (committed(m, env).draft matches Some(d)
            && name_error(d.name, m.lang) is None && d.dir.len() > 0 && env.dir_exists),
        commit_step(m, env) == CommitStep::Rejected ==> (committed(m, env).draft matches Some(d)
            && d.error is Some && d.name == m.draft->0.name && d.dir == m.draft->0.dir && d.command
            == m.draft->0.command),
        committed(m, env).mode == m.mode,
        committed(m, env).config == m.config,
{
}

// ---------------------------------------------------------------------------
// The configuration
// ---------------------------------------------------------------------------
/// The records on sessions are in order, and the recent directories are distinct
/// and no more than allowed.
pub open spec fn config_ok(c: ConfigModel) -> bool {
    &&& table_sorted(c.sessions)
    &&& distinct_dirs(c.dirs)
    &&& c.dirs.len() <= c.max_recent_dirs
}

/// A new configuration is in order, and everything that changes it keeps it so.
pub proof fn the_configuration_stays_in_order(
    m: AppModel,
    key: KeyEvent,
    attach: AttachModel,
    restart: RestartModel,
    run: RunView,
    created: Result<RunView, ErrorView>,
    stamp: Seq<char>,
)
    requires
        config_ok(m.config),
    ensures
        config_ok(fresh_config()),
        config_ok(keyed(m, key).config),
        config_ok(attach_noted(m, attach, run, stamp).config),
        config_ok(restart_noted(m, restart, run, stamp).config),
        config_ok(create_noted(m, created, stamp).config),
{
    let c = m.config;
    if let Some(e) = m.meta_edit {
        table_stays_sorted(
            c.sessions,
            e.session,
            meta_set(meta_or_none(c.sessions, e.session), e.field, e.value),
        );
    }
    lemma_without(c.sessions, stale_names(m), Seq::empty());
    let closed = AppModel { confirm: None, mode: Mode::List, ..m };
    assert(stale_names(closed) == stale_names(m));
    let name = name_at(all_of(m), attach.target);
    table_stays_sorted(
        c.sessions,
        name,
        MetaModel { last_seen: Some(stamp), ..meta_or_none(c.sessions, name) },
    );
    if let Some(cwd) = known_cwd(m, name, attach.target) {
        recent_dirs_are_distinct_and_capped(c.dirs, cwd, stamp, c.max_recent_dirs as nat);
    }
    lemma_managed(c, restart.name, restart.dir, restart.command, stamp);
    if let Some(d) = m.draft {
        lemma_managed(c, d.name, d.dir, d.command, stamp);
    }
}

proof fn lemma_managed(
    c: ConfigModel,
    name: Seq<char>,
    dir: Seq<char>,
    command: Seq<char>,
    stamp: Seq<char>,
)
    requires
        config_ok(c),
    ensures
        config_ok(dir_touched(managed(c, name, dir, command, stamp), dir, stamp)),
{
    table_stays_sorted(
        c.sessions,
        name,
        MetaModel {
            managed: true,
            command: Some(command),
            cwd: Some(dir),
            last_seen: Some(stamp),
            ..meta_or_none(c.sessions, name)
        },
    );
    recent_dirs_are_distinct_and_capped(c.dirs, dir, stamp, c.max_recent_dirs as nat);
}

/// A configuration that was loaded read-only is never written.
pub proof fn read_only_configurations_are_not_written(m: AppModel, path: Option<Seq<char>>)
    requires
        m.config_read_only,
    ensures
        save_path(m, path) is None,
{
}

// ---------------------------------------------------------------------------
// The loop
// ---------------------------------------------------------------------------
/// A request is handed out once.
pub proof fn requests_are_handed_out_once(m: AppModel, frame: Frame)
    ensures
        stage_action(stage_state(m, Stage::Attach, frame), Stage::Attach, frame)
            == LoopModel::Nothing,
        stage_action(stage_state(m, Stage::Action, frame), Stage::Action, frame)
            == LoopModel::Nothing,
        stage_action(stage_state(m, Stage::Rename, frame), Stage::Rename, frame)
            == LoopModel::Nothing,
        stage_action(stage_state(m, Stage::Preview, frame), Stage::Preview, frame)
            == LoopModel::Nothing,
        stage_action(stage_state(m, Stage::Restart, frame), Stage::Restart, frame)
            == LoopModel::Nothing,
{
}

/// The loop ends when it was asked to, by a key or by a signal, and only then.
pub proof fn the_loop_ends_when_asked(m: AppModel, stage: Stage, frame: Frame)
    ensures
        stage_action(m, stage, frame) == LoopModel::Stop <==> (stage == Stage::Draw
            && m.should_quit) || (stage == Stage::Tick && frame.shutdown),
{
}

/// Without an interval nothing is refreshed by itself, and waiting for a key
/// never takes longer than the cap or than the next refresh is away.
pub proof fn refreshing_by_itself_has_to_be_asked_for(m: AppModel, frame: Frame)
    ensures
        m.refresh_interval is None ==> stage_action(m, Stage::Tick, frame) != LoopModel::Refresh,
        stage_action(m, Stage::Input, frame) matches LoopModel::Poll(ms) && ms <= POLL_CAP && ms
            <= next_tick(m, frame.now),
{
}

} // verus!
