//! The form for a new session, and creating it.

use crate::app::actions::is_typed;
use crate::app::connect::{
    approached, dir_touched, managed,
};
use crate::app::names::{
    base_name, base_name_of, count_named, default_command, default_command_of, expand_tilde,
    expanded, find_named, first_named, free_name, free_name_of, has_name, how_many_named,
    index_named, name_error, validate_name,
};
use crate::app::state::{
    App, AppModel, all_of, fmt1, fmt2, fmt5, outcome_view, telling, visible, with_list,
};
use crate::app::types::{
    DraftModel, KeyCode, Mode, NewDraft, NewField, Work, WorkModel, field_after, field_before,
};
use crate::config::{
    ConfigModel, DirModel, table_names,
};
use crate::i18n::{
    Lang, dict, dict_of, fmt_of,
};
use crate::screen::cmd::{
    Run, RunView, run_text,
};
use crate::screen::parse::{
    Enumeration, EnumerationView, SessionRecord, SessionView, push_string, session_views,
};
use crate::screen::{
    Error, ErrorView, error_text,
};
use crate::text::{
    chars_of, is_ascii_digit, is_control, opt_view, pop_char, popped, same_str, signed_decimal,
    signed_decimal_of, starts_with, starts_with_text, trim_of, trim_str, views,
};
use vstd::prelude::*;

verus! {

// ---------------------------------------------------------------------------
// Opening
// ---------------------------------------------------------------------------
pub open spec fn names_of(sessions: Seq<SessionView>) -> Seq<Seq<char>> {
    sessions.map_values(|s: SessionView| s.name)
}

/// The names that are taken: those remembered and those listed, whatever the
/// filter.
pub open spec fn taken_of(c: ConfigModel, sessions: Seq<SessionView>) -> Seq<Seq<char>> {
    table_names(c.sessions) + names_of(sessions)
}

/// The paths of at most nine recent directories.
pub open spec fn recent_of(c: ConfigModel) -> Seq<Seq<char>> {
    let paths = c.dirs.map_values(|d: DirModel| d.path);
    paths.take(
        if paths.len() <= 9 {
            paths.len() as int
        } else {
            9
        },
    )
}

/// The form as it opens in a directory.
pub open spec fn blank_draft(m: AppModel, dir: Seq<char>, shell: Option<Seq<char>>) -> DraftModel {
    DraftModel {
        focus: NewField::Name,
        name: free_name_of(base_name_of(dir), taken_of(m.config, all_of(m))),
        name_base: base_name_of(dir),
        name_edited: false,
        dir,
        command: default_command_of(shell),
        recent: recent_of(m.config),
        error: None,
        note: None,
    }
}

pub open spec fn form_opened(m: AppModel, dir: Seq<char>, shell: Option<Seq<char>>) -> AppModel {
    AppModel { draft: Some(blank_draft(m, dir, shell)), mode: Mode::NewSession, ..m }
}

// ---------------------------------------------------------------------------
// Typing
// ---------------------------------------------------------------------------
/// The recent directory that a digit picks while the directory has the focus.
pub open spec fn picked(m: AppModel, code: KeyCode) -> Option<Seq<char>> {
    match (m.draft, code) {
        (Some(d), KeyCode::Char(c)) => {
            let i = c as int - 0x31;
            if d.focus == NewField::Dir && 0 <= i < 9 && i < d.recent.len() {
                Some(d.recent[i])
            } else {
                None
            }
        },
        _ => None,
    }
}

pub open spec fn field_text(d: DraftModel) -> Seq<char> {
    match d.focus {
        NewField::Name => d.name,
        NewField::Dir => d.dir,
        NewField::Command => d.command,
    }
}

/// The form with another text in the field that has the focus.
pub open spec fn with_field(d: DraftModel, text: Seq<char>) -> DraftModel {
    let e = DraftModel {
        error: None,
        name_edited: d.name_edited || d.focus == NewField::Name,
        ..d
    };
    match d.focus {
        NewField::Name => DraftModel { name: text, ..e },
        NewField::Dir => DraftModel { dir: text, ..e },
        NewField::Command => DraftModel { command: text, ..e },
    }
}

/// The remark that a name is not unique.
pub open spec fn duplicate_note_of(m: AppModel, name: Seq<char>) -> Option<Seq<char>> {
    if count_named(all_of(m), name) > 0 {
        Some(fmt_of(dict_of(m.lang).duplicate_note@, seq![name]))
    } else {
        None
    }
}

/// The focus on the next or the previous field. Leaving the name shows whether
/// it is unique.
pub open spec fn focus_moved(m: AppModel, forward: bool) -> AppModel {
    match m.draft {
        None => m,
        Some(d) => {
            let note = if d.focus == NewField::Name {
                duplicate_note_of(m, d.name)
            } else {
                None
            };
            AppModel {
                draft: Some(
                    DraftModel {
                        focus: if forward {
                            field_after(d.focus)
                        } else {
                            field_before(d.focus)
                        },
                        note: match note {
                            Some(n) => Some(n),
                            None => d.note,
                        },
                        ..d
                    },
                ),
                ..m
            }
        },
    }
}

/// A key while the form is open; submitting it is left to what follows.
pub open spec fn form_key(m: AppModel, code: KeyCode) -> AppModel {
    match picked(m, code) {
        Some(path) => AppModel {
            draft: match m.draft {
                Some(d) => Some(DraftModel { dir: path, error: None, ..d }),
                None => None,
            },
            ..m
        },
        None => match code {
            KeyCode::Esc => AppModel { draft: None, mode: Mode::List, ..m },
            KeyCode::Enter => m,
            KeyCode::Tab => focus_moved(m, true),
            KeyCode::Down => focus_moved(m, true),
            KeyCode::BackTab => focus_moved(m, false),
            KeyCode::Up => focus_moved(m, false),
            _ => match m.draft {
                None => AppModel { mode: Mode::List, ..m },
                Some(d) => match code {
                    KeyCode::Backspace => AppModel {
                        draft: Some(with_field(d, popped(field_text(d)))),
                        ..m
                    },
                    KeyCode::Char(c) if is_typed(c) => AppModel {
                        draft: Some(with_field(d, field_text(d).push(c))),
                        ..m
                    },
                    _ => m,
                },
            },
        },
    }
}

pub open spec fn form_work(code: KeyCode) -> WorkModel {
    if code == KeyCode::Enter {
        WorkModel::SubmitForm
    } else {
        WorkModel::Done
    }
}

// ---------------------------------------------------------------------------
// Submitting
// ---------------------------------------------------------------------------
/// What has to be known of the outside to check the form.
#[derive(Debug)]
pub struct FormEnv {
    pub home: Option<String>,
    pub shell: Option<String>,
    /// The directory of [`App::form_dir`] exists.
    pub dir_exists: bool,
}

/// The model of a [`FormEnv`].
#[verifier::ext_equal]
pub struct EnvModel {
    pub home: Option<Seq<char>>,
    pub shell: Option<Seq<char>>,
    pub dir_exists: bool,
}

impl View for FormEnv {
    type V = EnvModel;

    open spec fn view(&self) -> EnvModel {
        EnvModel {
            home: opt_view(self.home),
            shell: opt_view(self.shell),
            dir_exists: self.dir_exists,
        }
    }
}

/// How the form goes on after it was submitted.
#[derive(Debug, Clone, Copy, PartialEq, Eq, Structural)]
pub enum CommitStep {
    /// There is no form, or it has an error.
    Rejected,
    /// The sessions are to be listed again, because the name was not typed.
    Relist,
    /// The session is to be created.
    Create,
}

/// Why a field is refused. A command may be empty.
pub open spec fn field_error(
    d: DraftModel,
    field: NewField,
    env: EnvModel,
    lang: Lang,
) -> Option<Seq<char>> {
    let t = dict_of(lang);
    match field {
        NewField::Name => name_error(trim_of(d.name), lang),
        NewField::Dir => {
            let dir = expanded(trim_of(d.dir), env.home);
            if dir.len() == 0 {
                Some(t.dir_empty@)
            } else if !env.dir_exists {
                Some(fmt_of(t.not_a_directory@, seq![dir]))
            } else {
                None
            }
        },
        NewField::Command => None,
    }
}

/// The first field that is refused, and why.
pub open spec fn first_error(d: DraftModel, env: EnvModel, lang: Lang) -> Option<
    (NewField, Seq<char>),
> {
    match field_error(d, NewField::Name, env, lang) {
        Some(e) => Some((NewField::Name, e)),
        None => match field_error(d, NewField::Dir, env, lang) {
            Some(e) => Some((NewField::Dir, e)),
            None => None,
        },
    }
}

/// The form with its fields as they are used.
pub open spec fn normalized(d: DraftModel, env: EnvModel) -> DraftModel {
    DraftModel {
        name: trim_of(d.name),
        dir: expanded(trim_of(d.dir), env.home),
        command: if trim_of(d.command).len() == 0 {
            default_command_of(env.shell)
        } else {
            trim_of(d.command)
        },
        ..d
    }
}

/// The state after the form was submitted.
pub open spec fn committed(m: AppModel, env: EnvModel) -> AppModel {
    match m.draft {
        None => AppModel { mode: Mode::List, ..m },
        Some(d) => match first_error(d, env, m.lang) {
            Some((field, e)) => AppModel {
                draft: Some(DraftModel { focus: field, error: Some(e), ..d }),
                ..m
            },
            None => {
                let n = normalized(d, env);
                AppModel {
                    draft: Some(
                        if d.name_edited {
                            DraftModel { note: duplicate_note_of(m, n.name), ..n }
                        } else {
                            n
                        },
                    ),
                    ..m
                }
            },
        },
    }
}

pub open spec fn commit_step(m: AppModel, env: EnvModel) -> CommitStep {
    match m.draft {
        None => CommitStep::Rejected,
        Some(d) => if first_error(d, env, m.lang) is Some {
            CommitStep::Rejected
        } else if d.name_edited {
            CommitStep::Create
        } else {
            CommitStep::Relist
        },
    }
}

/// The name that is used in place of a suggested one: another number behind the
/// base if it was taken meanwhile.
pub open spec fn refit_name(
    c: ConfigModel,
    outcome: Result<EnumerationView, ErrorView>,
    base: Seq<char>,
    current: Seq<char>,
) -> Seq<char> {
    match outcome {
        Err(_) => current,
        Ok(fresh) => {
            let taken = taken_of(c, fresh.list.sessions);
            if taken.contains(current) {
                free_name_of(base, taken)
            } else {
                current
            }
        },
    }
}

pub open spec fn refitted(
    m: AppModel,
    outcome: Result<EnumerationView, ErrorView>,
) -> AppModel {
    match m.draft {
        None => m,
        Some(d) => {
            let name = refit_name(m.config, outcome, d.name_base, d.name);
            if name == d.name {
                m
            } else {
                AppModel {
                    draft: Some(
                        DraftModel {
                            name,
                            note: Some(
                                fmt_of(dict_of(m.lang).name_was_taken@, seq![d.name, name]),
                            ),
                            ..d
                        },
                    ),
                    ..m
                }
            }
        },
    }
}

/// Why a session was not created.
pub open spec fn create_error(
    d: DraftModel,
    result: Result<RunView, ErrorView>,
    lang: Lang,
) -> Option<Seq<char>> {
    let t = dict_of(lang);
    match result {
        Err(err) => Some(fmt_of(t.create_failed@, seq![error_text(err)])),
        Ok(run) => if run.code == 0 {
            None
        } else {
            let detail = trim_of(run_text(run));
            Some(
                fmt_of(
                    t.screen_refused@,
                    seq![
                        d.name,
                        signed_decimal_of(run.code as int),
                        run.command,
                        d.dir,
                        if detail.len() == 0 {
                            t.screen_no_diagnostic@
                        } else {
                            detail
                        },
                    ],
                ),
            )
        },
    }
}

/// The state after an attempt to create the session: a failure keeps the form
/// open with all its fields, a success is remembered.
pub open spec fn create_noted(
    m: AppModel,
    result: Result<RunView, ErrorView>,
    stamp: Seq<char>,
) -> AppModel {
    match m.draft {
        None => m,
        Some(d) => match create_error(d, result, m.lang) {
            Some(e) => AppModel {
                draft: Some(DraftModel { error: Some(e), note: None, ..d }),
                ..m
            },
            None => AppModel {
                config: dir_touched(
                    managed(m.config, d.name, d.dir, d.command, stamp),
                    d.dir,
                    stamp,
                ),
                ..m
            },
        },
    }
}

/// The state with the new session selected, or the first row if it is not on
/// display.
pub open spec fn created_selected(
    m: AppModel,
    outcome: Result<EnumerationView, ErrorView>,
    now: u64,
) -> AppModel {
    match (m.draft, outcome) {
        (Some(d), Ok(fresh)) => {
            let n = with_list(m, fresh);
            let i = index_named(visible(n), d.name) as int;
            AppModel {
                last_refresh: Some(now),
                selected: if i < visible(n).len() {
                    i as usize
                } else {
                    0
                },
                ..n
            }
        },
        (Some(_), Err(_)) => AppModel { selected: 0, ..m },
        (None, _) => m,
    }
}

pub open spec fn created_message(d: DraftModel, lang: Lang) -> Seq<char> {
    let t = dict_of(lang);
    match d.note {
        Some(hint) => fmt_of(t.created_with_hint@, seq![d.name, hint]),
        None => fmt_of(t.created@, seq![d.name]),
    }
}

/// Entering a new session: only if it is on display, and no other session has its
/// name, on display or not.
pub open spec fn entered(m: AppModel, name: Seq<char>) -> AppModel {
    let t = dict_of(m.lang);
    let shown = count_named(visible(m), name);
    if shown > 0 && count_named(all_of(m), name) == 1 {
        match (m.enumeration, first_named(all_of(m), name)) {
            (Some(e), Some(s)) => approached(m, s.name, s.full, e),
            _ => m,
        }
    } else {
        not_entered(
            m,
            name,
            if shown == 0 {
                t.skip_not_listed@
            } else {
                t.skip_not_unique@
            },
        )
    }
}

/// The message that the new session was not entered, behind the one that it was
/// created.
pub open spec fn not_entered(m: AppModel, name: Seq<char>, reason: Seq<char>) -> AppModel {
    let t = dict_of(m.lang);
    let created = fmt_of(t.created@, seq![name]);
    let base = match m.status {
        Some(s) if starts_with_text(s, created) => s,
        _ => created,
    };
    telling(m, fmt_of(t.not_entering@, seq![base, reason]))
}

/// The state after a session was created and the list was refreshed.
pub open spec fn announced(m: AppModel) -> AppModel {
    match m.draft {
        None => m,
        Some(d) => {
            let n = AppModel {
                draft: None,
                mode: Mode::List,
                ..telling(m, created_message(d, m.lang))
            };
            if m.config.defaults.attach_after_create {
                entered(n, d.name)
            } else {
                n
            }
        },
    }
}

// ---------------------------------------------------------------------------
// Executable
// ---------------------------------------------------------------------------
/// A session to create.
#[derive(Debug)]
pub struct CreateRequest {
    pub name: String,
    pub dir: String,
    pub command: String,
}

/// Checks one field of the form.
pub fn check_field(draft: &NewDraft, field: NewField, env: &FormEnv, lang: Lang) -> (r: Result<
    (),
    String,
>)
    ensures
        match field_error(draft@, field, env@, lang) {
            None => r is Ok,
            Some(e) => r matches Err(m) && m@ == e,
        },
{
    let t = dict(lang);
    match field {
        NewField::Name => {
            let name: String = trim_str(draft.name.as_str());
            validate_name(name.as_str(), lang)
        },
        NewField::Dir => {
            let typed: String = trim_str(draft.dir.as_str());
            let dir: String = expand_tilde(typed.as_str(), &env.home);
            if dir.as_str().is_empty() {
                return Err(t.dir_empty.to_owned());
            }
            if !env.dir_exists {
                return Err(fmt1(t.not_a_directory, dir.as_str()));
            }
            Ok(())
        },
        NewField::Command => Ok(()),
    }
}

/// Replaces the text of the field that has the focus.
fn edit_field(draft: &mut NewDraft, typed: Option<char>)
    ensures
        final(draft)@ == with_field(
            old(draft)@,
            match typed {
                Some(c) => field_text(old(draft)@).push(c),
                None => popped(field_text(old(draft)@)),
            },
        ),
{
    draft.error = None;
    if let NewField::Name = draft.focus {
        draft.name_edited = true;
    }
    match draft.focus {
        NewField::Name => {
            match typed {
                Some(c) => {
                    draft.name.push(c);
                },
                None => {
                    pop_char(&mut draft.name);
                },
            }
        },
        NewField::Dir => {
            match typed {
                Some(c) => {
                    draft.dir.push(c);
                },
                None => {
                    pop_char(&mut draft.dir);
                },
            }
        },
        NewField::Command => {
            match typed {
                Some(c) => {
                    draft.command.push(c);
                },
                None => {
                    pop_char(&mut draft.command);
                },
            }
        },
    }
}

impl App {
    /// The recent directories that the form offers.
    pub fn recent_dirs_for_wizard(&self) -> (r: Vec<String>)
        ensures
            views(r@) == recent_of(self@.config),
    {
        let mut out: Vec<String> = Vec::new();
        let mut i: usize = 0;
        while i < self.config.dirs.len() && i < 9
            invariant
                i <= self.config.dirs@.len(),
                i <= 9,
                out@.len() == i,
                forall|k: int| 0 <= k < i ==> (#[trigger] out@[k])@ == self.config.dirs@[k]@.path,
            decreases self.config.dirs.len() - i,
        {
            out.push(self.config.dirs[i].path.clone());
            i += 1;
        }
        assert(views(out@) =~= recent_of(self@.config));
        out
    }

    /// The names that are taken, given the sessions that are listed.
    fn taken_names(&self, sessions: &[SessionRecord]) -> (r: Vec<String>)
        ensures
            views(r@) == taken_of(self@.config, session_views(sessions@)),
    {
        let mut out: Vec<String> = self.config.sessions.keys();
        let ghost head = table_names(self@.config.sessions);
        let ghost tail = names_of(session_views(sessions@));
        let mut i: usize = 0;
        assert(views(out@) =~= head + tail.take(0));
        while i < sessions.len()
            invariant
                tail == names_of(session_views(sessions@)),
                i <= sessions@.len(),
                views(out@) == head + tail.take(i as int),
            decreases sessions.len() - i,
        {
            push_string(&mut out, sessions[i].name.clone());
            assert(tail.take(i + 1) =~= tail.take(i as int).push(sessions@[i as int]@.name));
            assert(views(out@) =~= head + tail.take(i + 1));
            i += 1;
        }
        assert(tail.take(i as int) =~= tail);
        out
    }

    /// Opens the form in a directory. The name is chosen by the list at hand.
    pub fn open_new_session(&mut self, dir: &str, shell: &Option<String>)
        ensures
            final(self)@ == form_opened(old(self)@, dir@, opt_view(*shell)),
    {
        let recent: Vec<String> = self.recent_dirs_for_wizard();
        let taken: Vec<String> = self.taken_names(self.all_sessions());
        let base: String = base_name(dir);
        let name: String = free_name(base.as_str(), &taken);
        self.draft = Some(
            NewDraft {
                focus: NewField::Name,
                name,
                name_base: base,
                name_edited: false,
                dir: dir.to_owned(),
                command: default_command(shell),
                recent,
                error: None,
                note: None,
            },
        );
        self.mode = Mode::NewSession;
    }

    /// The recent directory that a key picks.
    pub fn recent_pick(&self, code: KeyCode) -> (r: Option<String>)
        ensures
            opt_view(r) == picked(self@, code),
    {
        if let KeyCode::Char(c) = code {
            if is_ascii_digit(c) && c != '0' {
                if let Some(draft) = &self.draft {
                    if let NewField::Dir = draft.focus {
                        let i: usize = c as usize - 0x31;
                        assert(views(draft.recent@).len() == draft.recent@.len());
                        if i < draft.recent.len() {
                            assert(views(draft.recent@)[i as int] == draft.recent@[i as int]@);
                            return Some(draft.recent[i].clone());
                        }
                    }
                }
            }
        }
        None
    }

    pub fn on_key_new(&mut self, code: KeyCode) -> (r: Work)
        ensures
            final(self)@ == form_key(old(self)@, code),
            r@ == if picked(old(self)@, code) is Some {
                WorkModel::Done
            } else {
                form_work(code)
            },
    {
        if let Some(path) = self.recent_pick(code) {
            if let Some(mut draft) = self.draft.take() {
                draft.dir = path;
                draft.error = None;
                self.draft = Some(draft);
            }
            return Work::Done;
        }
        match code {
            KeyCode::Esc => {
                self.cancel_new();
                Work::Done
            },
            KeyCode::Enter => Work::SubmitForm,
            KeyCode::Tab | KeyCode::Down => {
                self.cycle_focus(true);
                Work::Done
            },
            KeyCode::BackTab | KeyCode::Up => {
                self.cycle_focus(false);
                Work::Done
            },
            _ => {
                match self.draft.take() {
                    None => {
                        self.mode = Mode::List;
                    },
                    Some(mut draft) => {
                        match code {
                            KeyCode::Backspace => {
                                edit_field(&mut draft, None);
                            },
                            KeyCode::Char(c) => {
                                if !is_control(c) {
                                    edit_field(&mut draft, Some(c));
                                }
                            },
                            _ => {},
                        }
                        self.draft = Some(draft);
                    },
                }
                Work::Done
            },
        }
    }

    /// Closes the form and drops what was typed.
    pub fn cancel_new(&mut self)
        ensures
            final(self)@ == (AppModel { draft: None, mode: Mode::List, ..old(self)@ }),
    {
        self.draft = None;
        self.mode = Mode::List;
    }

    /// Moves the focus to the next or the previous field.
    pub fn cycle_focus(&mut self, forward: bool)
        ensures
            final(self)@ == focus_moved(old(self)@, forward),
    {
        let note: Option<String> = match &self.draft {
            Some(draft) => match draft.focus {
                NewField::Name => self.duplicate_note(draft.name.as_str()),
                _ => None,
            },
            None => {
                return ;
            },
        };
        if let Some(mut draft) = self.draft.take() {
            draft.focus = if forward {
                draft.focus.next()
            } else {
                draft.focus.prev()
            };
            if let Some(n) = note {
                draft.note = Some(n);
            }
            self.draft = Some(draft);
        }
    }

    /// The remark that a name is not unique.
    pub fn duplicate_note(&self, name: &str) -> (r: Option<String>)
        ensures
            opt_view(r) == duplicate_note_of(self@, name@),
    {
        if how_many_named(self.all_sessions(), name) > 0 {
            let t = dict(self.lang);
            Some(fmt1(t.duplicate_note, name))
        } else {
            None
        }
    }

    /// The directory of the form, whose existence has to be checked.
    pub fn form_dir(&self, home: &Option<String>) -> (r: Option<String>)
        ensures
            opt_view(r) == match self@.draft {
                Some(d) => Some(expanded(trim_of(d.dir), opt_view(*home))),
                None => None,
            },
    {
        match &self.draft {
            Some(draft) => {
                let typed: String = trim_str(draft.dir.as_str());
                Some(expand_tilde(typed.as_str(), home))
            },
            None => None,
        }
    }

    /// Submits the form: all fields are checked, and the focus goes to the first
    /// one that is refused.
    pub fn commit_new(&mut self, env: &FormEnv) -> (r: CommitStep)
        ensures
            final(self)@ == committed(old(self)@, env@),
            r == commit_step(old(self)@, env@),
    {
        let lang: Lang = self.lang;
        let mut draft: NewDraft = match self.draft.take() {
            Some(d) => d,
            None => {
                self.mode = Mode::List;
                return CommitStep::Rejected;
            },
        };
        if let Err(err) = check_field(&draft, NewField::Name, env, lang) {
            draft.focus = NewField::Name;
            draft.error = Some(err);
            self.draft = Some(draft);
            return CommitStep::Rejected;
        }
        if let Err(err) = check_field(&draft, NewField::Dir, env, lang) {
            draft.focus = NewField::Dir;
            draft.error = Some(err);
            self.draft = Some(draft);
            return CommitStep::Rejected;
        }
        draft.name = trim_str(draft.name.as_str());
        let typed: String = trim_str(draft.dir.as_str());
        draft.dir = expand_tilde(typed.as_str(), &env.home);
        let command: String = trim_str(draft.command.as_str());
        draft.command = if command.as_str().is_empty() {
            default_command(&env.shell)
        } else {
            command
        };
        if draft.name_edited {
            draft.note = self.duplicate_note(draft.name.as_str());
            self.draft = Some(draft);
            CommitStep::Create
        } else {
            self.draft = Some(draft);
            CommitStep::Relist
        }
    }

    /// Chooses another name if the suggested one was taken meanwhile.
    pub fn refit_default_name(&mut self, outcome: Result<Enumeration, Error>)
        ensures
            final(self)@ == refitted(old(self)@, outcome_view(outcome)),
    {
        let t = dict(self.lang);
        let fresh: Enumeration = match outcome {
            Ok(e) => e,
            Err(_) => {
                return ;
            },
        };
        let taken: Vec<String> = self.taken_names(fresh.list.sessions.as_slice());
        if let Some(mut draft) = self.draft.take() {
            if has_name(&taken, draft.name.as_str()) {
                let name: String = free_name(draft.name_base.as_str(), &taken);
                if !same_str(name.as_str(), draft.name.as_str()) {
                    draft.note = Some(
                        fmt2(t.name_was_taken, draft.name.as_str(), name.as_str()),
                    );
                    draft.name = name;
                }
            }
            self.draft = Some(draft);
        }
    }

    /// The session that the form asks for.
    pub fn create_request(&self) -> (r: Option<CreateRequest>)
        ensures
            match self@.draft {
                Some(d) => r matches Some(c) && c.name@ == d.name && c.dir@ == d.dir && c.command@
                    == d.command,
                None => r is None,
            },
    {
        match &self.draft {
            Some(d) => Some(
                CreateRequest {
                    name: d.name.clone(),
                    dir: d.dir.clone(),
                    command: d.command.clone(),
                },
            ),
            None => None,
        }
    }

    /// Takes over the attempt to create the session; returns whether it was
    /// created. Then the configuration is to be written and the sessions are to
    /// be listed.
    pub fn create_session(&mut self, result: Result<Run, Error>, stamp: &str) -> (r: bool)
        ensures
            final(self)@ == create_noted(
                old(self)@,
                match result {
                    Ok(run) => Ok(run@),
                    Err(err) => Err(err@),
                },
                stamp@,
            ),
            r == (old(self)@.draft matches Some(d) && create_error(
                d,
                match result {
                    Ok(run) => Ok(run@),
                    Err(err) => Err(err@),
                },
                old(self)@.lang,
            ) is None),
    {
        let t = dict(self.lang);
        let mut draft: NewDraft = match self.draft.take() {
            Some(d) => d,
            None => {
                return false;
            },
        };
        let error: Option<String> = match result {
            Err(err) => Some(fmt1(t.create_failed, err.message().as_str())),
            Ok(run) => {
                if run.success() {
                    None
                } else {
                    let text: String = run.text();
                    let detail: String = trim_str(text.as_str());
                    let code: String = signed_decimal(run.code as i64);
                    let shown: &str = if detail.as_str().is_empty() {
                        t.screen_no_diagnostic
                    } else {
                        detail.as_str()
                    };
                    Some(
                        fmt5(
                            t.screen_refused,
                            draft.name.as_str(),
                            code.as_str(),
                            run.command.as_str(),
                            draft.dir.as_str(),
                            shown,
                        ),
                    )
                }
            },
        };
        match error {
            Some(message) => {
                draft.error = Some(message);
                draft.note = None;
                self.draft = Some(draft);
                false
            },
            None => {
                self.record_managed(
                    draft.name.as_str(),
                    draft.dir.as_str(),
                    draft.command.as_str(),
                    stamp,
                );
                self.config.touch_dir(draft.dir.as_str(), stamp);
                self.draft = Some(draft);
                true
            },
        }
    }

    /// Selects the session that was created, in a fresh listing.
    pub fn select_created(&mut self, outcome: Result<Enumeration, Error>, now: u64)
        ensures
            final(self)@ == created_selected(old(self)@, outcome_view(outcome), now),
    {
        let name: String = match &self.draft {
            Some(d) => d.name.clone(),
            None => {
                return ;
            },
        };
        match outcome {
            Ok(fresh) => {
                self.apply_enumeration(fresh);
                let list: Vec<SessionRecord> = self.sessions();
                assert(visible(self@).len() == list@.len());
                let i: usize = find_named(list.as_slice(), name.as_str());
                self.last_refresh = Some(now);
                self.selected = if i < list.len() {
                    i
                } else {
                    0
                };
            },
            Err(_) => {
                self.selected = 0;
            },
        }
    }

    /// Closes the form after the session was created and the list refreshed,
    /// tells so, and enters the session if that is wanted.
    pub fn announce_created(&mut self)
        ensures
            final(self)@ == announced(old(self)@),
    {
        let t = dict(self.lang);
        let draft: NewDraft = match self.draft.take() {
            Some(d) => d,
            None => {
                return ;
            },
        };
        self.mode = Mode::List;
        self.status = Some(
            match &draft.note {
                Some(hint) => fmt2(t.created_with_hint, draft.name.as_str(), hint.as_str()),
                None => fmt1(t.created, draft.name.as_str()),
            },
        );
        if self.config.defaults.attach_after_create {
            self.auto_enter_created(draft.name.as_str());
        }
    }

    /// Enters a session that was just created, unless it is not clear which one
    /// that is.
    pub fn auto_enter_created(&mut self, name: &str)
        ensures
            final(self)@ == entered(old(self)@, name@),
    {
        let t = dict(self.lang);
        let list: Vec<SessionRecord> = self.sessions();
        let shown: usize = how_many_named(list.as_slice(), name);
        if shown > 0 && how_many_named(self.all_sessions(), name) == 1 {
            let fresh: Option<Enumeration> = match &self.enumeration {
                Some(e) => Some(e.clone()),
                None => None,
            };
            if let Some(e) = fresh {
                let i: usize = find_named(e.list.sessions.as_slice(), name);
                if i < e.list.sessions.len() {
                    let s: SessionRecord = e.list.sessions[i].clone();
                    assert(e@.list.sessions[i as int] == e.list.sessions@[i as int]@);
                    self.approach(s.name.as_str(), s.full.as_str(), e);
                }
            }
        } else if shown == 0 {
            self.note_auto_enter_skipped(name, t.skip_not_listed);
        } else {
            self.note_auto_enter_skipped(name, t.skip_not_unique);
        }
    }

    fn note_auto_enter_skipped(&mut self, name: &str, reason: &str)
        ensures
            final(self)@ == not_entered(old(self)@, name@, reason@),
    {
        let t = dict(self.lang);
        let created: String = fmt1(t.created, name);
        let base: String = match self.status.take() {
            Some(s) => {
                let chars: Vec<char> = chars_of(s.as_str());
                if starts_with(chars.as_slice(), created.as_str()) {
                    s
                } else {
                    created
                }
            },
            None => created,
        };
        self.status = Some(fmt2(t.not_entering, base.as_str(), reason));
    }
}

} // verus!
