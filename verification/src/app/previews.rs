//! Asking for snapshots of sessions and taking them over.

use crate::app::state::{
    App, AppModel, fmt1, selected_of, telling,
};
use crate::app::types::{
    Mode, PreviewModel, PreviewRequest, PreviewRequestModel, PreviewView, preview_request_view,
};
use crate::i18n::{
    dict, dict_of, fmt_of,
};
use crate::screen::caps::{
    Support, support_label,
};
use crate::screen::parse::{
    SessionRecord, Status,
};
use crate::screen::{
    Error, error_text,
};
use crate::text::{
    same_str, views,
};
use vstd::prelude::*;

verus! {

/// Asking for a snapshot of the selected session: not of one that does not run,
/// and only where snapshots are known to work.
pub open spec fn preview_opened(m: AppModel) -> AppModel {
    let t = dict_of(m.lang);
    match selected_of(m) {
        None => m,
        Some(s) => if s.status is Dead || s.status is Unreachable {
            telling(m, fmt_of(t.preview_not_running@, seq![s.name]))
        } else if m.caps.hardcopy != Support::Yes {
            telling(m, fmt_of(t.preview_unavailable@, seq![support_label(m.caps.hardcopy)]))
        } else {
            AppModel {
                last_preview_target: Some(s.full),
                preview_request: Some(
                    PreviewRequestModel { full: s.full, name: s.name, manual: true },
                ),
                ..m
            }
        },
    }
}

/// The snapshot that the second pane of a wide screen lacks: of the selected
/// session, unless one was just tried or another one is pending.
pub open spec fn wide_due(m: AppModel, is_wide: bool) -> Option<PreviewRequestModel> {
    if !is_wide || m.mode != Mode::List || m.caps.hardcopy != Support::Yes || m.preview_request
        is Some {
        None
    } else {
        match selected_of(m) {
            Some(s) if m.last_preview_target != Some(s.full) => Some(
                PreviewRequestModel { full: s.full, name: s.name, manual: false },
            ),
            _ => None,
        }
    }
}

pub open spec fn wide_asked(m: AppModel, is_wide: bool) -> AppModel {
    match wide_due(m, is_wide) {
        Some(r) => AppModel { last_preview_target: Some(r.full), ..m },
        None => m,
    }
}

/// The state with a snapshot; one that was asked for by hand is opened.
pub open spec fn preview_noted(
    m: AppModel,
    request: PreviewRequestModel,
    lines: Seq<Seq<char>>,
    stamp: Seq<char>,
) -> AppModel {
    AppModel {
        preview: Some(
            PreviewModel { full: request.full, name: request.name, fetched: stamp, lines },
        ),
        mode: if request.manual {
            Mode::Preview
        } else {
            m.mode
        },
        ..m
    }
}

/// The state after a snapshot failed: an older one of the same session is
/// dropped, and the reason is told if it was asked for by hand.
pub open spec fn preview_failed(
    m: AppModel,
    request: PreviewRequestModel,
    reason: Seq<char>,
) -> AppModel {
    AppModel {
        preview: match m.preview {
            Some(p) if p.full == request.full => None,
            other => other,
        },
        last_preview_target: if m.last_preview_target == Some(request.full) {
            None
        } else {
            m.last_preview_target
        },
        status: if request.manual {
            Some(reason)
        } else {
            m.status
        },
        ..m
    }
}

impl App {
    /// Asks for a snapshot of the selected session.
    pub fn open_preview(&mut self)
        ensures
            final(self)@ == preview_opened(old(self)@),
    {
        let t = dict(self.lang);
        let session: SessionRecord = match self.selected_session() {
            Some(s) => s,
            None => {
                return ;
            },
        };
        let stopped: bool = match session.status {
            Status::Dead => true,
            Status::Unreachable => true,
            _ => false,
        };
        if stopped {
            self.status = Some(fmt1(t.preview_not_running, session.name.as_str()));
            return ;
        }
        if !self.caps.hardcopy.usable() {
            self.status = Some(fmt1(t.preview_unavailable, self.caps.hardcopy.label()));
            return ;
        }
        self.last_preview_target = Some(session.full.clone());
        self.preview_request = Some(
            PreviewRequest { full: session.full, name: session.name, manual: true },
        );
    }

    /// Hands out the snapshot that a wide screen lacks.
    pub fn wide_preview_due(&mut self, is_wide: bool) -> (r: Option<PreviewRequest>)
        ensures
            final(self)@ == wide_asked(old(self)@, is_wide),
            preview_request_view(r) == wide_due(old(self)@, is_wide),
    {
        let in_list: bool = match self.mode {
            Mode::List => true,
            _ => false,
        };
        if !is_wide || !in_list || !self.caps.hardcopy.usable() || self.preview_request.is_some() {
            return None;
        }
        let session: SessionRecord = match self.selected_session() {
            Some(s) => s,
            None => {
                return None;
            },
        };
        if let Some(target) = &self.last_preview_target {
            if same_str(target.as_str(), session.full.as_str()) {
                return None;
            }
        }
        self.last_preview_target = Some(session.full.clone());
        Some(PreviewRequest { full: session.full, name: session.name, manual: false })
    }

    /// Hands out the snapshot that was asked for, once.
    pub fn take_preview_request(&mut self) -> (r: Option<PreviewRequest>)
        ensures
            preview_request_view(r) == old(self)@.preview_request,
            final(self)@ == (AppModel { preview_request: None, ..old(self)@ }),
    {
        self.preview_request.take()
    }

    /// Takes over a snapshot.
    pub fn note_preview(&mut self, request: &PreviewRequest, lines: Vec<String>, stamp: &str)
        ensures
            final(self)@ == preview_noted(old(self)@, request@, views(lines@), stamp@),
    {
        self.preview = Some(
            PreviewView {
                full: request.full.clone(),
                name: request.name.clone(),
                fetched: stamp.to_owned(),
                lines,
            },
        );
        if request.manual {
            self.mode = Mode::Preview;
        }
    }

    /// Takes over that a snapshot failed.
    pub fn note_preview_failed(&mut self, request: &PreviewRequest, reason: String)
        ensures
            final(self)@ == preview_failed(old(self)@, request@, reason@),
    {
        let same_view: bool = match &self.preview {
            Some(p) => same_str(p.full.as_str(), request.full.as_str()),
            None => false,
        };
        if same_view {
            self.preview = None;
        }
        let same_target: bool = match &self.last_preview_target {
            Some(target) => same_str(target.as_str(), request.full.as_str()),
            None => false,
        };
        if same_target {
            self.last_preview_target = None;
        }
        if request.manual {
            self.status = Some(reason);
        }
    }

    /// Takes over how a snapshot went.
    pub fn execute_preview(
        &mut self,
        request: &PreviewRequest,
        outcome: Result<Vec<String>, Error>,
        stamp: &str,
    )
        ensures
            final(self)@ == match outcome {
                Ok(lines) => preview_noted(old(self)@, request@, views(lines@), stamp@),
                Err(err) => preview_failed(old(self)@, request@, error_text(err@)),
            },
    {
        match outcome {
            Ok(lines) => {
                self.note_preview(request, lines, stamp);
            },
            Err(err) => {
                self.note_preview_failed(request, err.message());
            },
        }
    }
}

} // verus!
