//! Connecting to a session, and what is remembered of it.
//!
//! A list that was shown is never trusted: before a connection the sessions are
//! listed again, and the fresh state decides.

use crate::app::names::{
    address, address_of, addressed_name, find_again, found_again, name_at,
};
use crate::app::state::{
    App, AppModel, all_of, cache_pid, fmt1, fmt2, outcome_view, selected_of, telling, visible,
    with_list,
};
use crate::app::types::{
    AttachChoice, AttachModel, AttachRequest, ChoiceModel, KeyCode, Mode, Work, WorkModel,
    attach_view,
};
use crate::config::{
    ConfigModel, EntryModel, MetaModel, SessionMeta, no_meta, save_target, save_to, table_get,
    table_put, touched,
};
use crate::i18n::{
    dict, dict_of, fmt_of,
};
use crate::screen::cmd::{
    AttachKind, Run, RunView, attach_kind_label,
};
use crate::screen::parse::{
    Enumeration, EnumerationView, SessionRecord, SessionView, Status, StatusView,
};
use crate::screen::probe::cached;
use crate::screen::{
    Error, ErrorView, error_text,
};
use crate::text::{
    clone_opt, opt_view, signed_decimal, signed_decimal_of,
};
use vstd::prelude::*;

verus! {

/// The state with a connection to make, addressed so that it is unambiguous among all
/// sessions, whatever the filter.
pub open spec fn connecting(
    m: AppModel,
    kind: AttachKind,
    name: Seq<char>,
    full: Seq<char>,
) -> AppModel {
    AppModel {
        attach_request: Some(AttachModel { kind, target: address_of(all_of(m), name, full) }),
        ..m
    }
}

/// The state that offers to share or to take over.
pub open spec fn choosing(m: AppModel, s: SessionView, note: Option<Seq<char>>) -> AppModel {
    AppModel {
        attach: Some(ChoiceModel { name: s.name, full: s.full, note }),
        mode: Mode::AttachChoice,
        ..m
    }
}

/// What follows from the fresh state of a session that is to be entered. The session
/// that the program itself runs in is not.
pub open spec fn connect_by_status(m: AppModel, s: SessionView) -> AppModel {
    if m.own == Some(s.full) {
        already_inside(m, s.name)
    } else {
        connect_other(m, s)
    }
}

/// The message that the program runs in that session.
pub open spec fn already_inside(m: AppModel, name: Seq<char>) -> AppModel {
    telling(m, fmt_of(dict_of(m.lang).attach_self@, seq![name]))
}

/// What follows from the fresh state of another session.
pub open spec fn connect_other(m: AppModel, s: SessionView) -> AppModel {
    let t = dict_of(m.lang);
    match s.status {
        StatusView::Detached => connecting(m, AttachKind::Resume, s.name, s.full),
        StatusView::Attached => choosing(m, s, None),
        StatusView::Multi => choosing(m, s, Some(t.multi_note@)),
        StatusView::Dead => telling(m, fmt_of(t.dead_wipe_hint@, seq![s.name])),
        StatusView::Unreachable => telling(m, fmt_of(t.unreachable_hint@, seq![s.name])),
        StatusView::Unknown(raw) => telling(m, fmt_of(t.unknown_state@, seq![s.name, raw])),
    }
}

/// Connecting to a session, given a fresh listing: the session with this address
/// decides, or the first of its name if the address is gone.
pub open spec fn approached(
    m: AppModel,
    name: Seq<char>,
    full: Seq<char>,
    fresh: EnumerationView,
) -> AppModel {
    match found_again(fresh.list.sessions, name, full) {
        None => with_list(
            telling(m, fmt_of(dict_of(m.lang).session_gone@, seq![name])),
            fresh,
        ),
        Some(f) => connect_by_status(with_list(m, fresh), f),
    }
}

/// Connecting to the selected session, given a fresh listing.
pub open spec fn planned(m: AppModel, fresh: EnumerationView) -> AppModel {
    match selected_of(m) {
        None => m,
        Some(s) => approached(m, s.name, s.full, fresh),
    }
}

/// Connecting when the sessions could or could not be listed again.
pub open spec fn connected(
    m: AppModel,
    outcome: Result<EnumerationView, ErrorView>,
) -> AppModel {
    match outcome {
        Ok(fresh) => planned(m, fresh),
        Err(err) => telling(m, fmt_of(dict_of(m.lang).verify_failed@, seq![error_text(err)])),
    }
}

/// What follows from the fresh state of a session that is to be shared.
pub open spec fn share_by_status(m: AppModel, s: SessionView) -> AppModel {
    if m.own == Some(s.full) {
        already_inside(m, s.name)
    } else {
        share_other(m, s)
    }
}

/// What follows from the fresh state of another session that is to be shared.
pub open spec fn share_other(m: AppModel, s: SessionView) -> AppModel {
    let t = dict_of(m.lang);
    match s.status {
        StatusView::Dead => telling(m, fmt_of(t.not_connectable_share@, seq![s.name])),
        StatusView::Unreachable => telling(m, fmt_of(t.not_connectable_share@, seq![s.name])),
        StatusView::Unknown(raw) => telling(m, fmt_of(t.unknown_state@, seq![s.name, raw])),
        _ => connecting(m, AttachKind::Share, s.name, s.full),
    }
}

/// Sharing the selected session.
pub open spec fn shared(m: AppModel, outcome: Result<EnumerationView, ErrorView>) -> AppModel {
    let t = dict_of(m.lang);
    match outcome {
        Ok(fresh) => match selected_of(m) {
            None => m,
            Some(s) => match found_again(fresh.list.sessions, s.name, s.full) {
                Some(f) => share_by_status(with_list(m, fresh), f),
                None => telling(
                    with_list(m, fresh),
                    fmt_of(t.session_gone@, seq![s.name]),
                ),
            },
        },
        Err(err) => telling(m, fmt_of(t.verify_failed@, seq![error_text(err)])),
    }
}

/// A key while sharing and taking over are on offer.
pub open spec fn choice_key(m: AppModel, code: KeyCode) -> AppModel {
    let closed = AppModel { attach: None, mode: Mode::List, ..m };
    match m.attach {
        None => closed,
        Some(c) => match code {
            KeyCode::Char('1') => connecting(closed, AttachKind::Share, c.name, c.full),
            KeyCode::Char('2') => connecting(closed, AttachKind::Takeover, c.name, c.full),
            KeyCode::Char('q') => closed,
            KeyCode::Esc => closed,
            _ => m,
        },
    }
}

// ---------------------------------------------------------------------------
// What is remembered
// ---------------------------------------------------------------------------
pub open spec fn meta_or_none(table: Seq<EntryModel>, name: Seq<char>) -> MetaModel {
    match table_get(table, name) {
        Some(meta) => meta,
        None => no_meta(),
    }
}

/// The session was seen; nothing else of what is known changes.
pub open spec fn seen(c: ConfigModel, name: Seq<char>, stamp: Seq<char>) -> ConfigModel {
    ConfigModel {
        sessions: table_put(
            c.sessions,
            name,
            MetaModel { last_seen: Some(stamp), ..meta_or_none(c.sessions, name) },
        ),
        ..c
    }
}

/// The session was created here and can be started again.
pub open spec fn managed(
    c: ConfigModel,
    name: Seq<char>,
    dir: Seq<char>,
    command: Seq<char>,
    stamp: Seq<char>,
) -> ConfigModel {
    ConfigModel {
        sessions: table_put(
            c.sessions,
            name,
            MetaModel {
                managed: true,
                command: Some(command),
                cwd: Some(dir),
                last_seen: Some(stamp),
                ..meta_or_none(c.sessions, name)
            },
        ),
        ..c
    }
}

/// The configuration with a directory put in front of the recent ones.
pub open spec fn dir_touched(c: ConfigModel, path: Seq<char>, stamp: Seq<char>) -> ConfigModel {
    ConfigModel { dirs: touched(c.dirs, path, stamp, c.max_recent_dirs as nat), ..c }
}

/// The working directory of the session at an address, as far as the cache knows it.
pub open spec fn known_cwd(m: AppModel, name: Seq<char>, target: Seq<char>) -> Option<Seq<char>> {
    match found_again(all_of(m), name, target) {
        Some(s) => match cache_pid(s) {
            Some(pid) => match cached(m.meta_cache, pid) {
                Some(meta) => meta.cwd,
                None => None,
            },
            None => None,
        },
        None => None,
    }
}

/// The state after a connection ended: back to the list, whatever the exit code.
pub open spec fn attach_noted(
    m: AppModel,
    request: AttachModel,
    run: RunView,
    stamp: Seq<char>,
) -> AppModel {
    let t = dict_of(m.lang);
    let name = name_at(all_of(m), request.target);
    let config = seen(m.config, name, stamp);
    AppModel {
        mode: Mode::List,
        config: match known_cwd(m, name, request.target) {
            Some(cwd) if run.code == 0 => dir_touched(config, cwd, stamp),
            _ => config,
        },
        status: Some(
            if run.code == 0 {
                fmt_of(t.detached_from@, seq![request.target])
            } else {
                fmt_of(
                    t.screen_exit_code@,
                    seq![signed_decimal_of(run.code as int), attach_kind_label(request.kind)],
                )
            },
        ),
        ..m
    }
}

/// Where the configuration is to be written, if at all.
pub open spec fn save_path(m: AppModel, default_path: Option<Seq<char>>) -> Option<Seq<char>> {
    if m.config_read_only {
        None
    } else {
        save_target(
            m.config.version,
            match m.config_path_override {
                Some(path) => Some(path),
                None => default_path,
            },
        )
    }
}

impl App {
    /// Whether there is a session to connect to, so that the sessions are to be
    /// listed again.
    pub fn start_connect(&self) -> (r: Work)
        ensures
            r@ == if visible(self@).len() == 0 {
                WorkModel::Done
            } else {
                WorkModel::VerifyConnect
            },
    {
        let list: Vec<SessionRecord> = self.sessions();
        assert(visible(self@).len() == list@.len());
        if list.len() == 0 {
            Work::Done
        } else {
            Work::VerifyConnect
        }
    }

    /// Connects to the selected session once the sessions were listed again.
    pub fn finish_connect(&mut self, outcome: Result<Enumeration, Error>)
        ensures
            final(self)@ == connected(old(self)@, outcome_view(outcome)),
    {
        match outcome {
            Ok(fresh) => {
                self.plan_connect(fresh);
            },
            Err(err) => {
                let t = dict(self.lang);
                self.status = Some(fmt1(t.verify_failed, err.message().as_str()));
            },
        }
    }

    /// Decides how to connect to the selected session, by its state in a fresh
    /// listing.
    pub fn plan_connect(&mut self, fresh: Enumeration)
        ensures
            final(self)@ == planned(old(self)@, fresh@),
    {
        if let Some(s) = self.selected_session() {
            self.approach(s.name.as_str(), s.full.as_str(), fresh);
        }
    }

    /// Decides how to connect to a session, by its state in a fresh listing.
    pub fn approach(&mut self, wanted: &str, at: &str, fresh: Enumeration)
        ensures
            final(self)@ == approached(old(self)@, wanted@, at@, fresh@),
    {
        let t = dict(self.lang);
        match find_again(fresh.list.sessions.as_slice(), wanted, at) {
            None => {
                self.status = Some(fmt1(t.session_gone, wanted));
                self.apply_enumeration(fresh);
            },
            Some(found) => {
                self.apply_enumeration(fresh);
                let name: String = found.name;
                let full: String = found.full;
                if self.is_own(full.as_str()) {
                    self.status = Some(fmt1(t.attach_self, name.as_str()));
                    return ;
                }
                match found.status {
                    Status::Detached => {
                        self.request_attach(AttachKind::Resume, name.as_str(), full.as_str());
                    },
                    Status::Attached => {
                        self.attach = Some(AttachChoice { name, full, note: None });
                        self.mode = Mode::AttachChoice;
                    },
                    Status::Multi => {
                        self.attach = Some(
                            AttachChoice { name, full, note: Some(t.multi_note.to_owned()) },
                        );
                        self.mode = Mode::AttachChoice;
                    },
                    Status::Dead => {
                        self.status = Some(fmt1(t.dead_wipe_hint, name.as_str()));
                    },
                    Status::Unreachable => {
                        self.status = Some(fmt1(t.unreachable_hint, name.as_str()));
                    },
                    Status::Unknown(raw) => {
                        self.status = Some(fmt2(t.unknown_state, name.as_str(), raw.as_str()));
                    },
                }
            },
        }
    }

    /// Whether there is a session to share.
    pub fn start_share(&self) -> (r: Work)
        ensures
            r@ == if visible(self@).len() == 0 {
                WorkModel::Done
            } else {
                WorkModel::VerifyShare
            },
    {
        let list: Vec<SessionRecord> = self.sessions();
        assert(visible(self@).len() == list@.len());
        if list.len() == 0 {
            Work::Done
        } else {
            Work::VerifyShare
        }
    }

    /// Shares the selected session once the sessions were listed again. Sharing
    /// puts nobody out, so there is no choice to make.
    pub fn finish_share(&mut self, outcome: Result<Enumeration, Error>)
        ensures
            final(self)@ == shared(old(self)@, outcome_view(outcome)),
    {
        let t = dict(self.lang);
        match outcome {
            Ok(fresh) => {
                let chosen: SessionRecord = match self.selected_session() {
                    Some(s) => s,
                    None => {
                        return ;
                    },
                };
                let found: Option<SessionRecord> = find_again(
                    fresh.list.sessions.as_slice(),
                    chosen.name.as_str(),
                    chosen.full.as_str(),
                );
                self.apply_enumeration(fresh);
                match found {
                    None => {
                        self.status = Some(fmt1(t.session_gone, chosen.name.as_str()));
                    },
                    Some(s) => if self.is_own(s.full.as_str()) {
                        self.status = Some(fmt1(t.attach_self, s.name.as_str()));
                    } else {
                        match s.status {
                            Status::Dead => {
                                self.status = Some(fmt1(t.not_connectable_share, s.name.as_str()));
                            },
                            Status::Unreachable => {
                                self.status = Some(fmt1(t.not_connectable_share, s.name.as_str()));
                            },
                            Status::Unknown(raw) => {
                                self.status = Some(
                                    fmt2(t.unknown_state, s.name.as_str(), raw.as_str()),
                                );
                            },
                            _ => {
                                self.request_attach(
                                    AttachKind::Share,
                                    s.name.as_str(),
                                    s.full.as_str(),
                                );
                            },
                        }
                    },
                }
            },
            Err(err) => {
                self.status = Some(fmt1(t.verify_failed, err.message().as_str()));
            },
        }
    }

    pub fn on_key_attach_choice(&mut self, code: KeyCode)
        ensures
            final(self)@ == choice_key(old(self)@, code),
    {
        match self.attach.take() {
            None => {
                self.mode = Mode::List;
            },
            Some(choice) => match code {
                KeyCode::Char('1') => {
                    self.mode = Mode::List;
                    self.request_attach(
                        AttachKind::Share,
                        choice.name.as_str(),
                        choice.full.as_str(),
                    );
                },
                KeyCode::Char('2') => {
                    self.mode = Mode::List;
                    self.request_attach(
                        AttachKind::Takeover,
                        choice.name.as_str(),
                        choice.full.as_str(),
                    );
                },
                KeyCode::Char('q') => {
                    self.mode = Mode::List;
                },
                KeyCode::Esc => {
                    self.mode = Mode::List;
                },
                _ => {
                    self.attach = Some(choice);
                },
            },
        }
    }

    /// Asks for a connection.
    pub fn request_attach(&mut self, kind: AttachKind, name: &str, full: &str)
        ensures
            final(self)@ == connecting(old(self)@, kind, name@, full@),
    {
        let target: String = address(self.all_sessions(), name, full);
        self.attach_request = Some(AttachRequest { kind, target });
    }

    /// Hands out the connection to make, once.
    pub fn take_attach_request(&mut self) -> (r: Option<AttachRequest>)
        ensures
            attach_view(r) == old(self)@.attach_request,
            final(self)@ == (AppModel { attach_request: None, ..old(self)@ }),
    {
        self.attach_request.take()
    }

    /// Takes over how a connection ended. The list was refreshed before, so that
    /// the message is not wiped away. The configuration is to be written then.
    pub fn note_attach_outcome(&mut self, request: &AttachRequest, run: &Run, stamp: &str)
        ensures
            final(self)@ == attach_noted(old(self)@, request@, run@, stamp@),
    {
        let t = dict(self.lang);
        self.mode = Mode::List;
        let name: String = addressed_name(self.all_sessions(), request.target.as_str());
        self.record_seen(name.as_str(), stamp);
        if run.success() {
            if let Some(cwd) = self.session_cwd(name.as_str(), request.target.as_str()) {
                self.config.touch_dir(cwd.as_str(), stamp);
            }
            self.status = Some(fmt1(t.detached_from, request.target.as_str()));
        } else {
            let code: String = signed_decimal(run.code as i64);
            self.status = Some(fmt2(t.screen_exit_code, code.as_str(), request.kind.label()));
        }
    }

    /// Takes over that a connection could not even be tried.
    pub fn note_attach_failed(&mut self, reason: &str)
        ensures
            final(self)@ == (AppModel {
                mode: Mode::List,
                ..telling(
                    old(self)@,
                    fmt_of(dict_of(old(self)@.lang).attach_failed@, seq![reason@]),
                )
            }),
    {
        let t = dict(self.lang);
        self.mode = Mode::List;
        self.status = Some(fmt1(t.attach_failed, reason));
    }

    /// The working directory of the session at an address, as far as the cache knows it.
    fn session_cwd(&self, name: &str, target: &str) -> (r: Option<String>)
        ensures
            opt_view(r) == known_cwd(self@, name@, target@),
    {
        match find_again(self.all_sessions(), name, target) {
            Some(session) => match session.pid {
                Some(p) => {
                    if p >= 0 {
                        match self.meta_cache.peek(p as u32) {
                            Some(meta) => clone_opt(&meta.cwd),
                            None => None,
                        }
                    } else {
                        None
                    }
                },
                None => None,
            },
            None => None,
        }
    }

    /// What is known of a session, or nothing.
    fn known_meta(&self, name: &str) -> (r: SessionMeta)
        ensures
            r@ == meta_or_none(self@.config.sessions, name@),
    {
        match self.config.sessions.get(name) {
            Some(meta) => meta.clone(),
            None => SessionMeta::default(),
        }
    }

    /// Notes that a session was seen.
    pub fn record_seen(&mut self, name: &str, stamp: &str)
        ensures
            final(self)@ == (AppModel {
                config: seen(old(self)@.config, name@, stamp@),
                ..old(self)@
            }),
    {
        let mut meta: SessionMeta = self.known_meta(name);
        meta.last_seen = Some(stamp.to_owned());
        self.config.sessions.insert(name.to_owned(), meta);
    }

    /// Notes that a session was created here.
    pub fn record_managed(&mut self, name: &str, dir: &str, command: &str, stamp: &str)
        ensures
            final(self)@ == (AppModel {
                config: managed(old(self)@.config, name@, dir@, command@, stamp@),
                ..old(self)@
            }),
    {
        let mut meta: SessionMeta = self.known_meta(name);
        meta.managed = true;
        meta.command = Some(command.to_owned());
        meta.cwd = Some(dir.to_owned());
        meta.last_seen = Some(stamp.to_owned());
        self.config.sessions.insert(name.to_owned(), meta);
    }

    /// Where the configuration is to be written; `None` means not at all.
    pub fn save_config(&self, default_path: Option<String>) -> (r: Option<String>)
        ensures
            opt_view(r) == save_path(self@, opt_view(default_path)),
    {
        if self.config_read_only {
            return None;
        }
        let path: Option<String> = match &self.config_path_override {
            Some(path) => Some(path.clone()),
            None => default_path,
        };
        save_to(&self.config, path)
    }
}

} // verus!
