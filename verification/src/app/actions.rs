//! Dangerous actions, renaming, restarting and notes on sessions.
//!
//! Every dangerous action is confirmed, the focus rests on cancelling, and the
//! sessions are listed again right before it is carried out.

use crate::app::connect::{
    dir_touched, managed, meta_or_none,
};
use crate::app::names::{
    find_named, index_named, name_error, validate_name,
};
use crate::app::state::{
    App, AppModel, all_of, fmt1, fmt2, fmt3, fmt4, selected_of, telling, visible, with_list,
};
use crate::app::types::{
    ActionKind, ConfirmAction, ConfirmModel, KeyCode, MetaEdit, MetaEditModel, MetaField, Mode,
    RenameDraft, RenameModel, RenameRequest, RenameRequestModel, RestartModel, RestartRequest,
    SaveReason, SaveReasonModel, Work, WorkModel, action_label, confirm_view, meta_key,
    rename_request_view, restart_view,
};
use crate::config::{
    ConfigModel, EntryModel, MetaModel, SessionMeta, table_get, table_names, table_put,
    table_remove,
};
use crate::i18n::{
    Lang, dict, dict_of, fmt_of,
};
use crate::screen::cmd::{
    Run, RunView, run_text,
};
use crate::screen::parse::{
    Enumeration, EnumerationView, SessionRecord, SessionView, Status, StatusView, push_string,
    session_views, status_label,
};
use crate::screen::{
    Error, error_text,
};
use crate::text::{
    clone_opt, decimal, decimal_of, is_control, is_ctrl, join, join_of, pop_char, popped,
    same_str, signed_decimal, signed_decimal_of, trim_of, trim_str, views,
};
use vstd::prelude::*;

verus! {

// ---------------------------------------------------------------------------
// Confirming
// ---------------------------------------------------------------------------
/// Some session is dead.
pub open spec fn any_dead(sessions: Seq<SessionView>) -> bool {
    exists|i: int| 0 <= i < sessions.len() && (#[trigger] sessions[i]).status is Dead
}

/// The state that asks for a confirmation. The focus rests on cancelling.
pub open spec fn asking(
    m: AppModel,
    kind: ActionKind,
    target: Seq<char>,
    display: Seq<char>,
    command: Option<Seq<char>>,
) -> AppModel {
    AppModel {
        confirm: Some(ConfirmModel { kind, target, display, command, focus_yes: false }),
        mode: Mode::Confirm,
        ..m
    }
}

pub open spec fn selected_command(m: AppModel) -> Option<Seq<char>> {
    match m.meta {
        Some(meta) => meta.command,
        None => None,
    }
}

/// Asking for an action on the selected session, or for a wipe.
pub open spec fn confirm_opened(m: AppModel, kind: ActionKind) -> AppModel {
    let t = dict_of(m.lang);
    match kind {
        ActionKind::Cleanup => m,
        ActionKind::Wipe => if any_dead(visible(m)) {
            asking(m, kind, Seq::empty(), t.dead_sessions_display@, None)
        } else {
            telling(m, t.no_dead_to_wipe@)
        },
        ActionKind::Detach => match selected_of(m) {
            None => m,
            Some(s) => if s.status is Attached || s.status is Multi {
                asking(m, kind, s.full, s.name, selected_command(m))
            } else {
                telling(m, fmt_of(t.not_attached@, seq![s.name]))
            },
        },
        ActionKind::Kill => match selected_of(m) {
            None => m,
            Some(s) => asking(m, kind, s.full, s.name, selected_command(m)),
        },
    }
}

/// The names of remembered sessions that are not listed.
pub open spec fn unlisted(names: Seq<Seq<char>>, sessions: Seq<SessionView>) -> Seq<Seq<char>>
    decreases names.len(),
{
    if names.len() == 0 {
        Seq::empty()
    } else if index_named(sessions, names.last()) < sessions.len() {
        unlisted(names.drop_last(), sessions)
    } else {
        unlisted(names.drop_last(), sessions).push(names.last())
    }
}

pub open spec fn stale_names(m: AppModel) -> Seq<Seq<char>> {
    unlisted(table_names(m.config.sessions), all_of(m))
}

/// The table without these names.
pub open spec fn without_names(table: Seq<EntryModel>, names: Seq<Seq<char>>) -> Seq<EntryModel>
    decreases names.len(),
{
    if names.len() == 0 {
        table
    } else {
        table_remove(without_names(table, names.drop_last()), names.last())
    }
}

/// Asking whether to forget the sessions that are gone.
pub open spec fn cleanup_opened(m: AppModel) -> AppModel {
    let t = dict_of(m.lang);
    let stale = stale_names(m);
    if stale.len() == 0 {
        telling(m, t.no_stale_metadata@)
    } else {
        asking(
            m,
            ActionKind::Cleanup,
            Seq::empty(),
            fmt_of(t.stale_entries@, seq![decimal_of(stale.len())]),
            Some(join_of(stale, ", "@)),
        )
    }
}

/// The state in which the sessions that are gone are forgotten.
pub open spec fn cleaned_up(m: AppModel) -> AppModel {
    AppModel {
        config: ConfigModel {
            sessions: without_names(m.config.sessions, stale_names(m)),
            ..m.config
        },
        ..m
    }
}

/// The confirmation is closed; with the focus on confirming, a cleanup is done
/// at once and any other action is handed on.
pub open spec fn settled(m: AppModel, c: ConfirmModel) -> AppModel {
    let closed = AppModel { confirm: None, mode: Mode::List, ..m };
    if !c.focus_yes {
        closed
    } else if c.kind == ActionKind::Cleanup {
        cleaned_up(closed)
    } else {
        AppModel { action_request: Some(c), ..closed }
    }
}

pub open spec fn settled_work(m: AppModel, c: ConfirmModel) -> WorkModel {
    if c.focus_yes && c.kind == ActionKind::Cleanup {
        WorkModel::Save(SaveReasonModel::Cleanup { count: stale_names(m).len() as usize })
    } else {
        WorkModel::Done
    }
}

pub open spec fn is_cancel(code: KeyCode) -> bool {
    code == KeyCode::Char('n') || code == KeyCode::Char('N') || code == KeyCode::Esc || code
        == KeyCode::Char('q')
}

pub open spec fn is_yes(code: KeyCode) -> bool {
    code == KeyCode::Char('y') || code == KeyCode::Char('Y')
}

/// A key while a confirmation is open.
pub open spec fn confirm_key(m: AppModel, code: KeyCode) -> AppModel {
    match m.confirm {
        None => AppModel { mode: Mode::List, ..m },
        Some(c) => if code == KeyCode::Left || code == KeyCode::Right || code == KeyCode::Tab {
            AppModel { confirm: Some(ConfirmModel { focus_yes: !c.focus_yes, ..c }), ..m }
        } else if is_yes(code) {
            settled(m, ConfirmModel { focus_yes: true, ..c })
        } else if code == KeyCode::Enter {
            settled(m, c)
        } else if is_cancel(code) {
            AppModel { confirm: None, mode: Mode::List, ..m }
        } else {
            m
        },
    }
}

pub open spec fn confirm_work(m: AppModel, code: KeyCode) -> WorkModel {
    match m.confirm {
        None => WorkModel::Done,
        Some(c) => if is_yes(code) {
            settled_work(m, ConfirmModel { focus_yes: true, ..c })
        } else if code == KeyCode::Enter {
            settled_work(m, c)
        } else {
            WorkModel::Done
        },
    }
}

// ---------------------------------------------------------------------------
// Carrying out
// ---------------------------------------------------------------------------
/// The state of the first session with a full address.
pub open spec fn status_at(sessions: Seq<SessionView>, full: Seq<char>) -> Option<StatusView>
    decreases sessions.len(),
{
    if sessions.len() == 0 {
        None
    } else if sessions[0].full == full {
        Some(sessions[0].status)
    } else {
        status_at(sessions.drop_first(), full)
    }
}

/// Why an action is refused, given a fresh listing. A session that someone is
/// attached to is not killed, nor is the one that the program itself runs in.
pub open spec fn refusal(
    lang: Lang,
    own: Option<Seq<char>>,
    fresh: EnumerationView,
    action: ConfirmModel,
) -> Option<Seq<char>> {
    let t = dict_of(lang);
    let found = status_at(fresh.list.sessions, action.target);
    match action.kind {
        ActionKind::Wipe => if any_dead(fresh.list.sessions) {
            None
        } else {
            Some(t.no_dead_left@)
        },
        ActionKind::Kill => match found {
            None => Some(fmt_of(t.gone_kill@, seq![action.display])),
            Some(status) => if status is Attached || status is Multi || own == Some(
                action.target,
            ) {
                Some(fmt_of(t.kill_attached@, seq![action.display]))
            } else {
                None
            },
        },
        ActionKind::Detach => match found {
            None => Some(fmt_of(t.gone_detach@, seq![action.display])),
            Some(status) => if status is Attached || status is Multi {
                None
            } else {
                Some(
                    fmt_of(
                        t.no_longer_attached@,
                        seq![action.display, status_label(status)],
                    ),
                )
            },
        },
        ActionKind::Cleanup => None,
    }
}

/// What a run said, in front of it a colon; nothing if it said nothing.
pub open spec fn detail_suffix(run: RunView) -> Seq<char> {
    let detail = trim_of(run_text(run));
    if detail.len() == 0 {
        Seq::empty()
    } else {
        ": "@ + detail
    }
}

pub open spec fn action_message(action: ConfirmModel, run: RunView, lang: Lang) -> Seq<char> {
    let t = dict_of(lang);
    if run.code == 0 {
        if action.kind == ActionKind::Wipe {
            t.wiped@
        } else {
            fmt_of(t.action_done@, seq![action.display, action_label(action.kind, lang)])
        }
    } else {
        fmt_of(
            t.action_failed@,
            seq![
                action_label(action.kind, lang),
                action.display,
                signed_decimal_of(run.code as int),
                detail_suffix(run),
            ],
        )
    }
}

pub open spec fn rename_message(request: RenameRequestModel, run: RunView, lang: Lang) -> Seq<
    char,
> {
    let t = dict_of(lang);
    if run.code == 0 {
        fmt_of(t.renamed_to@, seq![request.new_name])
    } else {
        fmt_of(
            t.rename_failed@,
            seq![signed_decimal_of(run.code as int), trim_of(run_text(run))],
        )
    }
}

/// The message after the configuration was to be written.
pub open spec fn save_message(reason: SaveReasonModel, saved: bool, lang: Lang) -> Seq<char> {
    let t = dict_of(lang);
    match reason {
        SaveReasonModel::Meta { session, field } => fmt_of(
            if saved {
                t.meta_updated@
            } else {
                t.meta_kept_ro@
            },
            seq![session, meta_key(field, lang)],
        ),
        SaveReasonModel::Cleanup { count } => fmt_of(
            if saved {
                t.removed_stale@
            } else {
                t.removed_stale_ro@
            },
            seq![decimal_of(count as nat)],
        ),
    }
}

// ---------------------------------------------------------------------------
// Renaming
// ---------------------------------------------------------------------------
pub open spec fn rename_opened(m: AppModel) -> AppModel {
    match selected_of(m) {
        None => m,
        Some(s) => AppModel {
            rename: Some(RenameModel { target: s.full, name: s.name, error: None }),
            mode: Mode::Rename,
            ..m
        },
    }
}

/// A character that can be typed into a field.
pub open spec fn is_typed(c: char) -> bool {
    !is_ctrl(c)
}

/// A key while a new name is typed.
pub open spec fn rename_key(m: AppModel, code: KeyCode) -> AppModel {
    match m.rename {
        None => AppModel { mode: Mode::List, ..m },
        Some(d) => match code {
            KeyCode::Esc => AppModel { rename: None, mode: Mode::List, ..m },
            KeyCode::Backspace => AppModel {
                rename: Some(RenameModel { name: popped(d.name), error: None, ..d }),
                ..m
            },
            KeyCode::Char(c) if is_typed(c) => AppModel {
                rename: Some(RenameModel { name: d.name.push(c), error: None, ..d }),
                ..m
            },
            KeyCode::Enter => match name_error(trim_of(d.name), m.lang) {
                Some(e) => AppModel { rename: Some(RenameModel { error: Some(e), ..d }), ..m },
                None => AppModel {
                    rename: None,
                    mode: Mode::List,
                    rename_request: Some(
                        RenameRequestModel { target: d.target, new_name: trim_of(d.name) },
                    ),
                    ..m
                },
            },
            _ => m,
        },
    }
}

// ---------------------------------------------------------------------------
// Restarting
// ---------------------------------------------------------------------------
/// Starting a session again: only one that is dead, was created here, and whose
/// command and directory are known.
pub open spec fn restart_opened(m: AppModel) -> AppModel {
    let t = dict_of(m.lang);
    match selected_of(m) {
        None => m,
        Some(s) => if !(s.status is Dead) {
            telling(m, fmt_of(t.restart_still_running@, seq![s.name]))
        } else {
            match table_get(m.config.sessions, s.name) {
                None => telling(m, fmt_of(t.restart_not_managed@, seq![s.name])),
                Some(meta) => if !meta.managed {
                    telling(m, fmt_of(t.restart_unmanaged@, seq![s.name]))
                } else {
                    match (meta.command, meta.cwd) {
                        (Some(command), Some(cwd)) => AppModel {
                            restart_request: Some(
                                RestartModel { name: s.name, dir: cwd, command },
                            ),
                            ..m
                        },
                        _ => telling(m, fmt_of(t.restart_no_record@, seq![s.name])),
                    }
                },
            }
        },
    }
}

pub open spec fn restart_noted(
    m: AppModel,
    request: RestartModel,
    run: RunView,
    stamp: Seq<char>,
) -> AppModel {
    let t = dict_of(m.lang);
    if run.code == 0 {
        AppModel {
            config: dir_touched(
                managed(m.config, request.name, request.dir, request.command, stamp),
                request.dir,
                stamp,
            ),
            ..telling(m, fmt_of(t.restarted@, seq![request.name]))
        }
    } else {
        telling(
            m,
            fmt_of(
                t.restart_failed@,
                seq![
                    request.name,
                    signed_decimal_of(run.code as int),
                    trim_of(run_text(run)),
                ],
            ),
        )
    }
}

// ---------------------------------------------------------------------------
// Alias and note
// ---------------------------------------------------------------------------
pub open spec fn meta_value(meta: MetaModel, field: MetaField) -> Option<Seq<char>> {
    match field {
        MetaField::Alias => meta.alias,
        MetaField::Note => meta.note,
    }
}

pub open spec fn meta_edit_opened(m: AppModel, field: MetaField) -> AppModel {
    match selected_of(m) {
        None => m,
        Some(s) => AppModel {
            meta_edit: Some(
                MetaEditModel {
                    session: s.name,
                    field,
                    value: match meta_value(meta_or_none(m.config.sessions, s.name), field) {
                        Some(v) => v,
                        None => Seq::empty(),
                    },
                    error: None,
                },
            ),
            mode: Mode::MetaEdit,
            ..m
        },
    }
}

/// An alias or a note set to the trimmed text; an empty one clears it.
pub open spec fn meta_set(meta: MetaModel, field: MetaField, typed: Seq<char>) -> MetaModel {
    let value = if trim_of(typed).len() > 0 {
        Some(trim_of(typed))
    } else {
        None
    };
    match field {
        MetaField::Alias => MetaModel { alias: value, ..meta },
        MetaField::Note => MetaModel { note: value, ..meta },
    }
}

/// A key while an alias or a note is typed.
pub open spec fn meta_key_pressed(m: AppModel, code: KeyCode) -> AppModel {
    match m.meta_edit {
        None => AppModel { mode: Mode::List, ..m },
        Some(e) => match code {
            KeyCode::Esc => AppModel { meta_edit: None, mode: Mode::List, ..m },
            KeyCode::Backspace => AppModel {
                meta_edit: Some(MetaEditModel { value: popped(e.value), ..e }),
                ..m
            },
            KeyCode::Char(c) if is_typed(c) => AppModel {
                meta_edit: Some(MetaEditModel { value: e.value.push(c), ..e }),
                ..m
            },
            KeyCode::Enter => AppModel {
                config: ConfigModel {
                    sessions: table_put(
                        m.config.sessions,
                        e.session,
                        meta_set(meta_or_none(m.config.sessions, e.session), e.field, e.value),
                    ),
                    ..m.config
                },
                meta_edit: None,
                mode: Mode::List,
                ..m
            },
            _ => m,
        },
    }
}

pub open spec fn meta_work(m: AppModel, code: KeyCode) -> WorkModel {
    match m.meta_edit {
        Some(e) if code == KeyCode::Enter => WorkModel::Save(
            SaveReasonModel::Meta { session: e.session, field: e.field },
        ),
        _ => WorkModel::Done,
    }
}

// ---------------------------------------------------------------------------
// Executable
// ---------------------------------------------------------------------------
fn has_dead(sessions: &[SessionRecord]) -> (r: bool)
    ensures
        r == any_dead(session_views(sessions@)),
{
    let mut i: usize = 0;
    while i < sessions.len()
        invariant
            i <= sessions@.len(),
            forall|k: int| 0 <= k < i ==> !((#[trigger] sessions@[k])@.status is Dead),
        decreases sessions.len() - i,
    {
        if let Status::Dead = &sessions[i].status {
            assert(session_views(sessions@)[i as int].status is Dead);
            return true;
        }
        i += 1;
    }
    assert forall|k: int| 0 <= k < session_views(sessions@).len() implies !((
    #[trigger] session_views(sessions@)[k]).status is Dead) by {
        assert(session_views(sessions@)[k] == sessions@[k]@);
    }
    false
}

fn find_status(sessions: &[SessionRecord], full: &str) -> (r: Option<Status>)
    ensures
        match status_at(session_views(sessions@), full@) {
            Some(status) => r matches Some(s) && s@ == status,
            None => r is None,
        },
{
    let ghost all = session_views(sessions@);
    let mut i: usize = 0;
    assert(all.skip(0) =~= all);
    while i < sessions.len()
        invariant
            all == session_views(sessions@),
            i <= sessions@.len(),
            status_at(all, full@) == status_at(all.skip(i as int), full@),
        decreases sessions.len() - i,
    {
        assert(all.skip(i as int)[0] == sessions@[i as int]@);
        if same_str(sessions[i].full.as_str(), full) {
            return Some(sessions[i].status.clone());
        }
        assert(all.skip(i as int).drop_first() =~= all.skip(i + 1));
        i += 1;
    }
    None
}

fn run_detail(run: &Run) -> (r: String)
    ensures
        r@ == trim_of(run_text(run@)),
{
    let text: String = run.text();
    trim_str(text.as_str())
}

impl App {
    /// Asks for a confirmation.
    pub fn open_confirm(&mut self, kind: ActionKind)
        ensures
            final(self)@ == confirm_opened(old(self)@, kind),
    {
        let t = dict(self.lang);
        match kind {
            ActionKind::Cleanup => {},
            ActionKind::Wipe => {
                let list: Vec<SessionRecord> = self.sessions();
                if !has_dead(list.as_slice()) {
                    self.status = Some(t.no_dead_to_wipe.to_owned());
                    return ;
                }
                self.confirm = Some(
                    ConfirmAction {
                        kind,
                        target: String::new(),
                        display: t.dead_sessions_display.to_owned(),
                        command: None,
                        focus_yes: false,
                    },
                );
                self.mode = Mode::Confirm;
            },
            _ => {
                let session: SessionRecord = match self.selected_session() {
                    Some(s) => s,
                    None => {
                        return ;
                    },
                };
                if let ActionKind::Detach = kind {
                    let attached: bool = match session.status {
                        Status::Attached => true,
                        Status::Multi => true,
                        _ => false,
                    };
                    if !attached {
                        self.status = Some(fmt1(t.not_attached, session.name.as_str()));
                        return ;
                    }
                }
                let command: Option<String> = match &self.meta {
                    Some(meta) => clone_opt(&meta.command),
                    None => None,
                };
                self.confirm = Some(
                    ConfirmAction {
                        kind,
                        target: session.full,
                        display: session.name,
                        command,
                        focus_yes: false,
                    },
                );
                self.mode = Mode::Confirm;
            },
        }
    }

    /// The names of remembered sessions that are not listed.
    pub fn stale_metadata_names(&self) -> (r: Vec<String>)
        ensures
            views(r@) == stale_names(self@),
    {
        let names: Vec<String> = self.config.sessions.keys();
        let ghost all = table_names(self@.config.sessions);
        let sessions = self.all_sessions();
        let mut out: Vec<String> = Vec::new();
        let mut i: usize = 0;
        assert(views(out@) =~= unlisted(all.take(0), all_of(self@)));
        while i < names.len()
            invariant
                views(names@) == all,
                session_views(sessions@) == all_of(self@),
                i <= names@.len(),
                views(out@) == unlisted(all.take(i as int), all_of(self@)),
            decreases names.len() - i,
        {
            assert(all.take(i + 1).drop_last() =~= all.take(i as int));
            assert(all.take(i + 1).last() == views(names@)[i as int]);
            assert(session_views(sessions@).len() == sessions@.len());
            if find_named(sessions, names[i].as_str()) >= sessions.len() {
                push_string(&mut out, names[i].clone());
            }
            i += 1;
        }
        assert(views(names@).len() == names@.len());
        assert(all.take(i as int) =~= all);
        out
    }

    /// Asks whether to forget the sessions that are gone.
    pub fn open_cleanup(&mut self)
        ensures
            final(self)@ == cleanup_opened(old(self)@),
    {
        let t = dict(self.lang);
        let stale: Vec<String> = self.stale_metadata_names();
        assert(views(stale@).len() == stale@.len());
        if stale.len() == 0 {
            self.status = Some(t.no_stale_metadata.to_owned());
            return ;
        }
        let count: String = decimal(stale.len() as u64);
        self.confirm = Some(
            ConfirmAction {
                kind: ActionKind::Cleanup,
                target: String::new(),
                display: fmt1(t.stale_entries, count.as_str()),
                command: Some(join(&stale, ", ")),
                focus_yes: false,
            },
        );
        self.mode = Mode::Confirm;
    }

    /// Forgets the sessions that are gone; returns how many.
    pub fn run_cleanup(&mut self) -> (r: usize)
        ensures
            final(self)@ == cleaned_up(old(self)@),
            r == stale_names(old(self)@).len(),
    {
        let stale: Vec<String> = self.stale_metadata_names();
        let ghost names = stale_names(self@);
        let ghost before = self@;
        let ghost table = self@.config.sessions;
        let mut i: usize = 0;
        assert(views(stale@).len() == stale@.len());
        while i < stale.len()
            invariant
                views(stale@) == names,
                i <= stale@.len(),
                self@ == (AppModel {
                    config: ConfigModel {
                        sessions: without_names(table, names.take(i as int)),
                        ..before.config
                    },
                    ..before
                }),
            decreases stale.len() - i,
        {
            assert(names.take(i + 1).drop_last() =~= names.take(i as int));
            assert(names.take(i + 1).last() == views(stale@)[i as int]);
            self.config.sessions.remove(stale[i].as_str());
            i += 1;
        }
        assert(names.take(i as int) =~= names);
        stale.len()
    }

    pub fn on_key_confirm(&mut self, code: KeyCode) -> (r: Work)
        ensures
            final(self)@ == confirm_key(old(self)@, code),
            r@ == confirm_work(old(self)@, code),
    {
        let mut confirm: ConfirmAction = match self.confirm.take() {
            Some(c) => c,
            None => {
                self.mode = Mode::List;
                return Work::Done;
            },
        };
        match code {
            KeyCode::Left | KeyCode::Right | KeyCode::Tab => {
                confirm.focus_yes = !confirm.focus_yes;
                self.confirm = Some(confirm);
                Work::Done
            },
            KeyCode::Char('y') | KeyCode::Char('Y') => {
                confirm.focus_yes = true;
                self.settle_confirm(confirm)
            },
            KeyCode::Enter => self.settle_confirm(confirm),
            KeyCode::Char('n') | KeyCode::Char('N') | KeyCode::Esc | KeyCode::Char('q') => {
                self.mode = Mode::List;
                Work::Done
            },
            _ => {
                self.confirm = Some(confirm);
                Work::Done
            },
        }
    }

    /// Closes the confirmation as its focus says.
    pub fn settle_confirm(&mut self, confirm: ConfirmAction) -> (r: Work)
        ensures
            final(self)@ == settled(old(self)@, confirm@),
            r@ == settled_work(old(self)@, confirm@),
    {
        self.confirm = None;
        self.mode = Mode::List;
        if !confirm.focus_yes {
            return Work::Done;
        }
        match confirm.kind {
            ActionKind::Cleanup => {
                let count: usize = self.run_cleanup();
                Work::Save(SaveReason::Cleanup { count })
            },
            _ => {
                self.action_request = Some(confirm);
                Work::Done
            },
        }
    }

    /// Hands out the confirmed action, once.
    pub fn take_action(&mut self) -> (r: Option<ConfirmAction>)
        ensures
            confirm_view(r) == old(self)@.action_request,
            final(self)@ == (AppModel { action_request: None, ..old(self)@ }),
    {
        self.action_request.take()
    }

    /// Checks an action against a fresh listing, which is taken over.
    pub fn validate_action(&mut self, fresh: Enumeration, action: &ConfirmAction) -> (r: Result<
        (),
        String,
    >)
        ensures
            final(self)@ == with_list(old(self)@, fresh@),
            match refusal(old(self)@.lang, old(self)@.own, fresh@, action@) {
                None => r is Ok,
                Some(e) => r matches Err(m) && m@ == e,
            },
    {
        let t = dict(self.lang);
        let dead: bool = has_dead(fresh.list.sessions.as_slice());
        let found: Option<Status> = find_status(
            fresh.list.sessions.as_slice(),
            action.target.as_str(),
        );
        self.apply_enumeration(fresh);
        match action.kind {
            ActionKind::Wipe => {
                if dead {
                    Ok(())
                } else {
                    Err(t.no_dead_left.to_owned())
                }
            },
            ActionKind::Kill => match found {
                Some(Status::Attached) => Err(fmt1(t.kill_attached, action.display.as_str())),
                Some(Status::Multi) => Err(fmt1(t.kill_attached, action.display.as_str())),
                Some(_) => if self.is_own(action.target.as_str()) {
                    Err(fmt1(t.kill_attached, action.display.as_str()))
                } else {
                    Ok(())
                },
                None => Err(fmt1(t.gone_kill, action.display.as_str())),
            },
            ActionKind::Detach => match found {
                Some(Status::Attached) => Ok(()),
                Some(Status::Multi) => Ok(()),
                Some(other) => Err(
                    fmt2(
                        t.no_longer_attached,
                        action.display.as_str(),
                        other.label().as_str(),
                    ),
                ),
                None => Err(fmt1(t.gone_detach, action.display.as_str())),
            },
            ActionKind::Cleanup => Ok(()),
        }
    }

    /// [`App::validate_action`] with the outcome of listing the sessions again.
    pub fn check_action(
        &mut self,
        outcome: Result<Enumeration, Error>,
        action: &ConfirmAction,
    ) -> (r: Result<(), String>)
        ensures
            match outcome {
                Ok(fresh) => final(self)@ == with_list(old(self)@, fresh@) && match refusal(
                    old(self)@.lang,
                    old(self)@.own,
                    fresh@,
                    action@,
                ) {
                    None => r is Ok,
                    Some(e) => r matches Err(m) && m@ == e,
                },
                Err(err) => final(self)@ == old(self)@ && (r matches Err(m) && m@ == fmt_of(
                    dict_of(old(self)@.lang).verify_failed_action@,
                    seq![action_label(action.kind, old(self)@.lang), error_text(err@)],
                )),
            },
    {
        match outcome {
            Ok(fresh) => self.validate_action(fresh, action),
            Err(err) => {
                let t = dict(self.lang);
                let label: &str = action.kind.label(self.lang);
                Err(fmt2(t.verify_failed_action, label, err.message().as_str()))
            },
        }
    }

    /// Takes over how an action ended. The list was refreshed before.
    pub fn note_action_outcome(&mut self, action: &ConfirmAction, run: &Run)
        ensures
            final(self)@ == telling(old(self)@, action_message(action@, run@, old(self)@.lang)),
    {
        let t = dict(self.lang);
        let label: &str = action.kind.label(self.lang);
        if run.success() {
            if let ActionKind::Wipe = action.kind {
                self.status = Some(t.wiped.to_owned());
            } else {
                self.status = Some(fmt2(t.action_done, action.display.as_str(), label));
            }
        } else {
            let detail: String = run_detail(run);
            let mut suffix: String = String::new();
            if !detail.as_str().is_empty() {
                suffix.append(": ");
                suffix.append(detail.as_str());
            }
            assert(suffix@ =~= detail_suffix(run@));
            let code: String = signed_decimal(run.code as i64);
            self.status = Some(
                fmt4(
                    t.action_failed,
                    label,
                    action.display.as_str(),
                    code.as_str(),
                    suffix.as_str(),
                ),
            );
        }
    }

    /// Takes over that an action could not even be tried.
    pub fn note_action_failed(&mut self, kind: ActionKind, reason: &str)
        ensures
            final(self)@ == telling(
                old(self)@,
                fmt_of(
                    dict_of(old(self)@.lang).action_failed_short@,
                    seq![action_label(kind, old(self)@.lang), reason@],
                ),
            ),
    {
        let t = dict(self.lang);
        let label: &str = kind.label(self.lang);
        self.status = Some(fmt2(t.action_failed_short, label, reason));
    }

    /// Takes over that a request came to nothing, or was refused.
    pub fn note_message(&mut self, message: String)
        ensures
            final(self)@ == telling(old(self)@, message@),
    {
        self.status = Some(message);
    }

    /// Takes over whether the configuration was written.
    pub fn note_saved(&mut self, reason: &SaveReason, saved: bool)
        ensures
            final(self)@ == telling(old(self)@, save_message(reason@, saved, old(self)@.lang)),
    {
        let t = dict(self.lang);
        match reason {
            SaveReason::Meta { session, field } => {
                let key: &str = field.key(self.lang);
                let template: &str = if saved {
                    t.meta_updated
                } else {
                    t.meta_kept_ro
                };
                self.status = Some(fmt2(template, session.as_str(), key));
            },
            SaveReason::Cleanup { count } => {
                let number: String = decimal(*count as u64);
                let template: &str = if saved {
                    t.removed_stale
                } else {
                    t.removed_stale_ro
                };
                self.status = Some(fmt1(template, number.as_str()));
            },
        }
    }

    /// Opens the field for a new name.
    pub fn open_rename(&mut self)
        ensures
            final(self)@ == rename_opened(old(self)@),
    {
        if let Some(session) = self.selected_session() {
            self.rename = Some(
                RenameDraft { target: session.full, name: session.name, error: None },
            );
            self.mode = Mode::Rename;
        }
    }

    pub fn on_key_rename(&mut self, code: KeyCode)
        ensures
            final(self)@ == rename_key(old(self)@, code),
    {
        let mut draft: RenameDraft = match self.rename.take() {
            Some(d) => d,
            None => {
                self.mode = Mode::List;
                return ;
            },
        };
        match code {
            KeyCode::Esc => {
                self.mode = Mode::List;
            },
            KeyCode::Backspace => {
                draft.error = None;
                pop_char(&mut draft.name);
                self.rename = Some(draft);
            },
            KeyCode::Char(c) => {
                if !is_control(c) {
                    draft.error = None;
                    draft.name.push(c);
                }
                self.rename = Some(draft);
            },
            KeyCode::Enter => {
                let name: String = trim_str(draft.name.as_str());
                match validate_name(name.as_str(), self.lang) {
                    Err(err) => {
                        draft.error = Some(err);
                        self.rename = Some(draft);
                    },
                    Ok(()) => {
                        self.mode = Mode::List;
                        self.rename_request = Some(
                            RenameRequest { target: draft.target, new_name: name },
                        );
                    },
                }
            },
            _ => {
                self.rename = Some(draft);
            },
        }
    }

    /// Hands out the new name to set, once.
    pub fn take_rename_request(&mut self) -> (r: Option<RenameRequest>)
        ensures
            rename_request_view(r) == old(self)@.rename_request,
            final(self)@ == (AppModel { rename_request: None, ..old(self)@ }),
    {
        self.rename_request.take()
    }

    /// Takes over how a renaming ended. The list was refreshed before.
    pub fn note_rename_outcome(&mut self, request: &RenameRequest, run: &Run)
        ensures
            final(self)@ == telling(old(self)@, rename_message(request@, run@, old(self)@.lang)),
    {
        let t = dict(self.lang);
        if run.success() {
            self.status = Some(fmt1(t.renamed_to, request.new_name.as_str()));
        } else {
            let code: String = signed_decimal(run.code as i64);
            let detail: String = run_detail(run);
            self.status = Some(fmt2(t.rename_failed, code.as_str(), detail.as_str()));
        }
    }

    /// Takes over that a renaming could not even be tried.
    pub fn note_rename_failed(&mut self, reason: &str)
        ensures
            final(self)@ == telling(
                old(self)@,
                fmt_of(dict_of(old(self)@.lang).rename_failed_short@, seq![reason@]),
            ),
    {
        let t = dict(self.lang);
        self.status = Some(fmt1(t.rename_failed_short, reason));
    }

    /// Asks to start the selected session again.
    pub fn restart_selected(&mut self)
        ensures
            final(self)@ == restart_opened(old(self)@),
    {
        let t = dict(self.lang);
        let session: SessionRecord = match self.selected_session() {
            Some(s) => s,
            None => {
                return ;
            },
        };
        let dead: bool = match session.status {
            Status::Dead => true,
            _ => false,
        };
        if !dead {
            self.status = Some(fmt1(t.restart_still_running, session.name.as_str()));
            return ;
        }
        let meta: SessionMeta = match self.config.sessions.get(session.name.as_str()) {
            Some(m) => m.clone(),
            None => {
                self.status = Some(fmt1(t.restart_not_managed, session.name.as_str()));
                return ;
            },
        };
        if !meta.managed {
            self.status = Some(fmt1(t.restart_unmanaged, session.name.as_str()));
            return ;
        }
        match (meta.command, meta.cwd) {
            (Some(command), Some(cwd)) => {
                self.restart_request = Some(
                    RestartRequest { name: session.name, dir: cwd, command },
                );
            },
            _ => {
                self.status = Some(fmt1(t.restart_no_record, session.name.as_str()));
            },
        }
    }

    /// Hands out the session to start again, once.
    pub fn take_restart_request(&mut self) -> (r: Option<RestartRequest>)
        ensures
            restart_view(r) == old(self)@.restart_request,
            final(self)@ == (AppModel { restart_request: None, ..old(self)@ }),
    {
        self.restart_request.take()
    }

    /// Takes over how a restart ended. The list was refreshed before; after a
    /// success the configuration is to be written.
    pub fn note_restart_outcome(&mut self, request: &RestartRequest, run: &Run, stamp: &str)
        ensures
            final(self)@ == restart_noted(old(self)@, request@, run@, stamp@),
    {
        let t = dict(self.lang);
        if run.success() {
            self.record_managed(
                request.name.as_str(),
                request.dir.as_str(),
                request.command.as_str(),
                stamp,
            );
            self.config.touch_dir(request.dir.as_str(), stamp);
            self.status = Some(fmt1(t.restarted, request.name.as_str()));
        } else {
            let code: String = signed_decimal(run.code as i64);
            let detail: String = run_detail(run);
            self.status = Some(
                fmt3(t.restart_failed, request.name.as_str(), code.as_str(), detail.as_str()),
            );
        }
    }

    /// Takes over that a restart could not even be tried.
    pub fn note_restart_failed(&mut self, reason: &str)
        ensures
            final(self)@ == telling(
                old(self)@,
                fmt_of(dict_of(old(self)@.lang).restart_failed_short@, seq![reason@]),
            ),
    {
        let t = dict(self.lang);
        self.status = Some(fmt1(t.restart_failed_short, reason));
    }

    /// Opens the field for an alias or a note of the selected session.
    pub fn open_meta_edit(&mut self, field: MetaField)
        ensures
            final(self)@ == meta_edit_opened(old(self)@, field),
    {
        if let Some(session) = self.selected_session() {
            let current: Option<String> = match self.config.sessions.get(session.name.as_str()) {
                Some(meta) => match field {
                    MetaField::Alias => clone_opt(&meta.alias),
                    MetaField::Note => clone_opt(&meta.note),
                },
                None => None,
            };
            let value: String = match current {
                Some(v) => v,
                None => String::new(),
            };
            self.meta_edit = Some(MetaEdit { session: session.name, field, value, error: None });
            self.mode = Mode::MetaEdit;
        }
    }

    pub fn on_key_meta_edit(&mut self, code: KeyCode) -> (r: Work)
        ensures
            final(self)@ == meta_key_pressed(old(self)@, code),
            r@ == meta_work(old(self)@, code),
    {
        let mut edit: MetaEdit = match self.meta_edit.take() {
            Some(e) => e,
            None => {
                self.mode = Mode::List;
                return Work::Done;
            },
        };
        match code {
            KeyCode::Esc => {
                self.mode = Mode::List;
                Work::Done
            },
            KeyCode::Backspace => {
                pop_char(&mut edit.value);
                self.meta_edit = Some(edit);
                Work::Done
            },
            KeyCode::Char(c) => {
                if !is_control(c) {
                    edit.value.push(c);
                }
                self.meta_edit = Some(edit);
                Work::Done
            },
            KeyCode::Enter => {
                let typed: String = trim_str(edit.value.as_str());
                let value: Option<String> = if typed.as_str().is_empty() {
                    None
                } else {
                    Some(typed)
                };
                let mut meta: SessionMeta = match self.config.sessions.get(edit.session.as_str()) {
                    Some(m) => m.clone(),
                    None => SessionMeta::default(),
                };
                match edit.field {
                    MetaField::Alias => {
                        meta.alias = value;
                    },
                    MetaField::Note => {
                        meta.note = value;
                    },
                }
                let session: String = edit.session;
                self.config.sessions.insert(session.clone(), meta);
                self.mode = Mode::List;
                Work::Save(SaveReason::Meta { session, field: edit.field })
            },
            _ => {
                self.meta_edit = Some(edit);
                Work::Done
            },
        }
    }
}

} // verus!
