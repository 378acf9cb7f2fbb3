//! What each key does.

use crate::app::actions::{
    cleanup_opened, confirm_key, confirm_opened, confirm_work, is_typed, meta_edit_opened,
    meta_key_pressed, meta_work, rename_key, rename_opened, restart_opened,
};
use crate::app::connect::choice_key;
use crate::app::previews::preview_opened;
use crate::app::state::{
    App, AppModel, all_of, cache_pid, clamped, moved, visible,
};
use crate::app::types::{
    ActionKind, KeyCode, KeyEvent, KeyEventKind, MetaField, Mode, Work, WorkModel,
};
use crate::app::wizard::{
    form_key, form_work, picked,
};
use crate::screen::parse::{
    SessionRecord, SessionView, session_views,
};
use crate::screen::probe::MetaView;
use crate::text::{
    is_ascii_digit, is_control, pop_char, popped,
};
use vstd::prelude::*;

verus! {

/// The process numbers of sessions of which nothing is known yet.
pub open spec fn unknown_pids(
    sessions: Seq<SessionView>,
    cache: Map<u32, MetaView>,
) -> Seq<u32>
    decreases sessions.len(),
{
    if sessions.len() == 0 {
        Seq::empty()
    } else {
        let rest = unknown_pids(sessions.drop_last(), cache);
        match cache_pid(sessions.last()) {
            Some(pid) if !cache.contains_key(pid) => rest.push(pid),
            _ => rest,
        }
    }
}

/// The row that a digit names.
pub open spec fn digit_row(c: char) -> Option<int> {
    if 0x31 <= c as int <= 0x39 {
        Some(c as int - 0x31)
    } else {
        None
    }
}

/// The row that a digit names, if there is one.
pub open spec fn digit_selected(m: AppModel, c: char) -> AppModel {
    match digit_row(c) {
        Some(i) if i < visible(m).len() => AppModel { selected: i as usize, ..m },
        _ => m,
    }
}

pub open spec fn connect_work(m: AppModel) -> WorkModel {
    if visible(m).len() == 0 {
        WorkModel::Done
    } else {
        WorkModel::VerifyConnect
    }
}

/// A key while the list is shown.
pub open spec fn list_key(m: AppModel, code: KeyCode) -> AppModel {
    match code {
        KeyCode::Char('q') => AppModel { should_quit: true, ..m },
        KeyCode::Char('?') => AppModel { mode: Mode::Help, ..m },
        KeyCode::Char('j') => moved(m, true),
        KeyCode::Down => moved(m, true),
        KeyCode::Char('k') => moved(m, false),
        KeyCode::Up => moved(m, false),
        KeyCode::Char('R') => AppModel { window_count_cache: None, ..m },
        KeyCode::Char('/') => AppModel { mode: Mode::Filter, ..m },
        KeyCode::Char('i') => if visible(m).len() > 0 {
            AppModel { mode: Mode::Detail, ..m }
        } else {
            m
        },
        KeyCode::Char('D') => confirm_opened(m, ActionKind::Detach),
        KeyCode::Char('K') => confirm_opened(m, ActionKind::Kill),
        KeyCode::Char('W') => confirm_opened(m, ActionKind::Wipe),
        KeyCode::Char('r') => rename_opened(m),
        KeyCode::Char('p') => preview_opened(m),
        KeyCode::Char('s') => restart_opened(m),
        KeyCode::Char('X') => cleanup_opened(m),
        KeyCode::Char(c) => digit_selected(m, c),
        _ => m,
    }
}

pub open spec fn list_work(m: AppModel, code: KeyCode) -> WorkModel {
    match code {
        KeyCode::Char('R') => WorkModel::Refresh,
        KeyCode::Char('/') => WorkModel::Probe(unknown_pids(all_of(m), m.meta_cache)),
        KeyCode::Char('x') => if visible(m).len() == 0 {
            WorkModel::Done
        } else {
            WorkModel::VerifyShare
        },
        KeyCode::Char('n') => WorkModel::OpenForm,
        KeyCode::Enter => connect_work(m),
        KeyCode::Char(c) => match digit_row(c) {
            Some(i) if i < visible(m).len() => WorkModel::VerifyConnect,
            _ => WorkModel::Done,
        },
        _ => WorkModel::Done,
    }
}

/// A key while the help or a snapshot is open.
pub open spec fn overlay_key(m: AppModel, code: KeyCode) -> AppModel {
    if code == KeyCode::Char('q') || code == KeyCode::Esc || code == KeyCode::Char('i') || code
        == KeyCode::Char('?') {
        AppModel { mode: Mode::List, ..m }
    } else {
        m
    }
}

/// A key while the details are open.
pub open spec fn detail_key(m: AppModel, code: KeyCode) -> AppModel {
    match code {
        KeyCode::Char('a') => meta_edit_opened(m, MetaField::Alias),
        KeyCode::Char('t') => meta_edit_opened(m, MetaField::Note),
        KeyCode::Char('q') => AppModel { mode: Mode::List, ..m },
        KeyCode::Char('i') => AppModel { mode: Mode::List, ..m },
        KeyCode::Esc => AppModel { mode: Mode::List, ..m },
        _ => m,
    }
}

/// A key while a filter is typed.
pub open spec fn filter_key(m: AppModel, code: KeyCode) -> AppModel {
    clamped(
        match code {
            KeyCode::Esc => AppModel { filter: Seq::empty(), mode: Mode::List, ..m },
            KeyCode::Enter => AppModel { mode: Mode::List, ..m },
            KeyCode::Backspace => AppModel { filter: popped(m.filter), ..m },
            KeyCode::Char(c) if is_typed(c) => AppModel { filter: m.filter.push(c), ..m },
            _ => m,
        },
    )
}

/// What a key does by the mode. Only a press counts.
pub open spec fn keyed(m: AppModel, key: KeyEvent) -> AppModel {
    if key.kind != KeyEventKind::Press {
        m
    } else {
        match m.mode {
            Mode::List => list_key(m, key.code),
            Mode::Help => overlay_key(m, key.code),
            Mode::Preview => overlay_key(m, key.code),
            Mode::Detail => detail_key(m, key.code),
            Mode::NewSession => form_key(m, key.code),
            Mode::AttachChoice => choice_key(m, key.code),
            Mode::Confirm => confirm_key(m, key.code),
            Mode::Rename => rename_key(m, key.code),
            Mode::Filter => filter_key(m, key.code),
            Mode::MetaEdit => meta_key_pressed(m, key.code),
        }
    }
}

/// What a key asks of the outside.
pub open spec fn key_work(m: AppModel, key: KeyEvent) -> WorkModel {
    if key.kind != KeyEventKind::Press {
        WorkModel::Done
    } else {
        match m.mode {
            Mode::List => list_work(m, key.code),
            Mode::NewSession => if picked(m, key.code) is Some {
                WorkModel::Done
            } else {
                form_work(key.code)
            },
            Mode::Confirm => confirm_work(m, key.code),
            Mode::MetaEdit => meta_work(m, key.code),
            _ => WorkModel::Done,
        }
    }
}

impl App {
    /// Takes a key. What is returned has to be done before the next key.
    pub fn on_key(&mut self, key: KeyEvent) -> (r: Work)
        ensures
            final(self)@ == keyed(old(self)@, key),
            r@ == key_work(old(self)@, key),
    {
        match key.kind {
            KeyEventKind::Press => {},
            _ => {
                return Work::Done;
            },
        }
        match self.mode {
            Mode::List => self.on_key_list(key.code),
            Mode::Help | Mode::Preview => {
                self.on_key_overlay(key.code);
                Work::Done
            },
            Mode::Detail => {
                self.on_key_detail(key.code);
                Work::Done
            },
            Mode::NewSession => self.on_key_new(key.code),
            Mode::AttachChoice => {
                self.on_key_attach_choice(key.code);
                Work::Done
            },
            Mode::Confirm => self.on_key_confirm(key.code),
            Mode::Rename => {
                self.on_key_rename(key.code);
                Work::Done
            },
            Mode::Filter => {
                self.on_key_filter(key.code);
                Work::Done
            },
            Mode::MetaEdit => self.on_key_meta_edit(key.code),
        }
    }

    pub fn on_key_list(&mut self, code: KeyCode) -> (r: Work)
        ensures
            final(self)@ == list_key(old(self)@, code),
            r@ == list_work(old(self)@, code),
    {
        match code {
            KeyCode::Char('q') => {
                self.should_quit = true;
                Work::Done
            },
            KeyCode::Char('?') => {
                self.mode = Mode::Help;
                Work::Done
            },
            KeyCode::Char('j') | KeyCode::Down => {
                self.move_selection(true);
                Work::Done
            },
            KeyCode::Char('k') | KeyCode::Up => {
                self.move_selection(false);
                Work::Done
            },
            KeyCode::Char('R') => {
                self.window_count_cache = None;
                Work::Refresh
            },
            KeyCode::Char('/') => self.open_filter(),
            KeyCode::Char('i') => {
                let list: Vec<SessionRecord> = self.sessions();
                assert(visible(self@).len() == list@.len());
                if list.len() > 0 {
                    self.mode = Mode::Detail;
                }
                Work::Done
            },
            KeyCode::Char('D') => {
                self.open_confirm(ActionKind::Detach);
                Work::Done
            },
            KeyCode::Char('K') => {
                self.open_confirm(ActionKind::Kill);
                Work::Done
            },
            KeyCode::Char('W') => {
                self.open_confirm(ActionKind::Wipe);
                Work::Done
            },
            KeyCode::Char('r') => {
                self.open_rename();
                Work::Done
            },
            KeyCode::Char('x') => self.start_share(),
            KeyCode::Char('p') => {
                self.open_preview();
                Work::Done
            },
            KeyCode::Char('s') => {
                self.restart_selected();
                Work::Done
            },
            KeyCode::Char('X') => {
                self.open_cleanup();
                Work::Done
            },
            KeyCode::Char('n') => Work::OpenForm,
            KeyCode::Char(c) => {
                if is_ascii_digit(c) && c != '0' {
                    let index: usize = c as usize - 0x31;
                    let list: Vec<SessionRecord> = self.sessions();
                    assert(visible(self@).len() == list@.len());
                    if index < list.len() {
                        self.selected = index;
                        return Work::VerifyConnect;
                    }
                }
                Work::Done
            },
            KeyCode::Enter => self.start_connect(),
            _ => Work::Done,
        }
    }

    /// Opens the field for a filter. What runs in the sessions is looked up
    /// first, as far as it is not known.
    pub fn open_filter(&mut self) -> (r: Work)
        ensures
            final(self)@ == (AppModel { mode: Mode::Filter, ..old(self)@ }),
            r@ == WorkModel::Probe(unknown_pids(all_of(old(self)@), old(self)@.meta_cache)),
    {
        let all = self.all_sessions();
        let ghost texts = all_of(self@);
        let ghost cache = self@.meta_cache;
        let mut pids: Vec<u32> = Vec::new();
        let mut i: usize = 0;
        assert(pids@ =~= unknown_pids(texts.take(0), cache));
        while i < all.len()
            invariant
                session_views(all@) == texts,
                cache == self@.meta_cache,
                i <= all@.len(),
                pids@ == unknown_pids(texts.take(i as int), cache),
            decreases all.len() - i,
        {
            assert(texts.take(i + 1).drop_last() =~= texts.take(i as int));
            assert(texts.take(i + 1).last() == session_views(all@)[i as int]);
            if let Some(p) = all[i].pid {
                if p >= 0 {
                    if self.meta_cache.peek(p as u32).is_none() {
                        pids.push(p as u32);
                    }
                }
            }
            i += 1;
        }
        assert(session_views(all@).len() == all@.len());
        assert(texts.take(i as int) =~= texts);
        self.mode = Mode::Filter;
        Work::Probe(pids)
    }

    pub fn on_key_overlay(&mut self, code: KeyCode)
        ensures
            final(self)@ == overlay_key(old(self)@, code),
    {
        match code {
            KeyCode::Char('q') | KeyCode::Esc | KeyCode::Char('i') | KeyCode::Char('?') => {
                self.mode = Mode::List;
            },
            _ => {},
        }
    }

    pub fn on_key_detail(&mut self, code: KeyCode)
        ensures
            final(self)@ == detail_key(old(self)@, code),
    {
        match code {
            KeyCode::Char('a') => {
                self.open_meta_edit(MetaField::Alias);
            },
            KeyCode::Char('t') => {
                self.open_meta_edit(MetaField::Note);
            },
            KeyCode::Char('q') | KeyCode::Esc | KeyCode::Char('i') => {
                self.mode = Mode::List;
            },
            _ => {},
        }
    }

    pub fn on_key_filter(&mut self, code: KeyCode)
        ensures
            final(self)@ == filter_key(old(self)@, code),
    {
        match code {
            KeyCode::Esc => {
                self.filter = String::new();
                self.mode = Mode::List;
            },
            KeyCode::Enter => {
                self.mode = Mode::List;
            },
            KeyCode::Backspace => {
                pop_char(&mut self.filter);
            },
            KeyCode::Char(c) => {
                if !is_control(c) {
                    self.filter.push(c);
                }
            },
            _ => {},
        }
        self.clamp_selection();
    }
}

} // verus!
