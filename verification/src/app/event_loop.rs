//! The order of things in the main loop.
//!
//! The loop goes through fixed stages. Each stage looks at the state and says
//! what is to be done outside; the outcome is handed back before the next stage.

use crate::app::names::{
    detach_hint_of, detach_hint_text,
};
use crate::app::previews::{
    wide_asked, wide_due,
};
use crate::app::state::{
    App, AppModel, auto_refresh_interval, count_due, count_shown, initial, interval_of, next_tick,
    outcome_view, telling, with_list,
};
use crate::app::types::{
    AttachModel, AttachRequest, ConfirmAction, ConfirmModel, Mode, PreviewRequest,
    PreviewRequestModel, RenameRequest, RenameRequestModel, RestartModel, RestartRequest,
    action_command, action_label,
};
use crate::config::{
    Config, LoadedModel, keep_non_empty, non_empty,
};
use crate::i18n::{
    Lang, dict, dict_of, fmt_of,
};
use crate::screen::caps::{
    Caps, CapsView,
};
use crate::text::{
    clone_opt, join, join_of, opt_view, views,
};
use crate::ui::layout::{
    Tier, tier_of,
};
use crate::app::actions::refusal;
use crate::screen::parse::{
    Enumeration, EnumerationView, extend_strings, push_string,
};
use crate::screen::cmd::{
    Run, SessionAction,
};
use crate::screen::{
    Error, ErrorView, error_text,
};
use vstd::prelude::*;

verus! {

/// The longest time that the loop waits for a key, in milliseconds, so that a
/// signal is noticed.
pub const POLL_CAP: u64 = 200;

#[derive(Debug, Clone, Copy, PartialEq, Eq, Structural)]
pub enum Stage {
    Draw,
    Input,
    Tick,
    Windows,
    Attach,
    Action,
    Rename,
    Preview,
    Restart,
    Wide,
}

/// What the outside looks like at a stage.
#[derive(Debug, Clone, Copy, PartialEq, Eq, Structural)]
pub struct Frame {
    pub width: u16,
    pub height: u16,
    pub now: u64,
    /// A signal asked the program to end.
    pub shutdown: bool,
}

/// What is to be done at a stage.
#[derive(Debug)]
pub enum LoopAction {
    Nothing,
    Draw,
    /// Wait for a key, this long at most.
    Poll(u64),
    Refresh,
    /// Ask a session for its windows.
    CountWindows(String),
    /// Connect, after showing how to leave again.
    Attach { request: AttachRequest, hint: String },
    /// List the sessions, check the action and carry it out.
    Perform(ConfirmAction),
    Rename(RenameRequest),
    Preview(PreviewRequest),
    Restart(RestartRequest),
    Stop,
}

/// The model of a [`LoopAction`].
pub enum LoopModel {
    Nothing,
    Draw,
    Poll(u64),
    Refresh,
    CountWindows(Seq<char>),
    Attach { request: AttachModel, hint: Seq<char> },
    Perform(ConfirmModel),
    Rename(RenameRequestModel),
    Preview(PreviewRequestModel),
    Restart(RestartModel),
    Stop,
}

impl View for LoopAction {
    type V = LoopModel;

    open spec fn view(&self) -> LoopModel {
        match *self {
            LoopAction::Nothing => LoopModel::Nothing,
            LoopAction::Draw => LoopModel::Draw,
            LoopAction::Poll(ms) => LoopModel::Poll(ms),
            LoopAction::Refresh => LoopModel::Refresh,
            LoopAction::CountWindows(full) => LoopModel::CountWindows(full@),
            LoopAction::Attach { request, hint } => LoopModel::Attach {
                request: request@,
                hint: hint@,
            },
            LoopAction::Perform(action) => LoopModel::Perform(action@),
            LoopAction::Rename(request) => LoopModel::Rename(request@),
            LoopAction::Preview(request) => LoopModel::Preview(request@),
            LoopAction::Restart(request) => LoopModel::Restart(request@),
            LoopAction::Stop => LoopModel::Stop,
        }
    }
}

pub open spec fn stage_after(stage: Stage) -> Stage {
    match stage {
        Stage::Draw => Stage::Input,
        Stage::Input => Stage::Tick,
        Stage::Tick => Stage::Windows,
        Stage::Windows => Stage::Attach,
        Stage::Attach => Stage::Action,
        Stage::Action => Stage::Rename,
        Stage::Rename => Stage::Preview,
        Stage::Preview => Stage::Restart,
        Stage::Restart => Stage::Wide,
        Stage::Wide => Stage::Draw,
    }
}

/// The details of the selected session are on display.
pub open spec fn detail_shown(m: AppModel, frame: Frame) -> bool {
    let tier = tier_of(
        frame.width,
        frame.height,
        m.config.ui.narrow_cols,
        m.config.ui.wide_cols,
    );
    m.mode == Mode::Detail || tier == Tier::Wide || tier == Tier::Mid
}

/// The second pane is on display.
pub open spec fn is_wide(m: AppModel, frame: Frame) -> bool {
    tier_of(frame.width, frame.height, m.config.ui.narrow_cols, m.config.ui.wide_cols)
        == Tier::Wide
}

/// What is to be done at a stage.
pub open spec fn stage_action(m: AppModel, stage: Stage, frame: Frame) -> LoopModel {
    match stage {
        Stage::Draw => if m.should_quit {
            LoopModel::Stop
        } else {
            LoopModel::Draw
        },
        Stage::Input => LoopModel::Poll(
            if next_tick(m, frame.now) < POLL_CAP {
                next_tick(m, frame.now)
            } else {
                POLL_CAP
            },
        ),
        Stage::Tick => if frame.shutdown {
            LoopModel::Stop
        } else if next_tick(m, frame.now) == 0 {
            LoopModel::Refresh
        } else {
            LoopModel::Nothing
        },
        Stage::Windows => match count_due(m, detail_shown(m, frame), frame.now) {
            Some(full) => LoopModel::CountWindows(full),
            None => LoopModel::Nothing,
        },
        Stage::Attach => match m.attach_request {
            Some(request) => LoopModel::Attach {
                request,
                hint: detach_hint_of(m.escape_prefix, m.lang),
            },
            None => LoopModel::Nothing,
        },
        Stage::Action => match m.action_request {
            Some(action) => LoopModel::Perform(action),
            None => LoopModel::Nothing,
        },
        Stage::Rename => match m.rename_request {
            Some(request) => LoopModel::Rename(request),
            None => LoopModel::Nothing,
        },
        Stage::Preview => match m.preview_request {
            Some(request) => LoopModel::Preview(request),
            None => LoopModel::Nothing,
        },
        Stage::Restart => match m.restart_request {
            Some(request) => LoopModel::Restart(request),
            None => LoopModel::Nothing,
        },
        Stage::Wide => match wide_due(m, is_wide(m, frame)) {
            Some(request) => LoopModel::Preview(request),
            None => LoopModel::Nothing,
        },
    }
}

/// The state after a stage: a request that is handed out is gone.
pub open spec fn stage_state(m: AppModel, stage: Stage, frame: Frame) -> AppModel {
    match stage {
        Stage::Windows => count_shown(m, frame.now),
        Stage::Attach => AppModel { attach_request: None, ..m },
        Stage::Action => AppModel { action_request: None, ..m },
        Stage::Rename => AppModel { rename_request: None, ..m },
        Stage::Preview => AppModel { preview_request: None, ..m },
        Stage::Restart => AppModel { restart_request: None, ..m },
        Stage::Wide => wide_asked(m, is_wide(m, frame)),
        _ => m,
    }
}

impl App {
    /// Goes through one stage of the loop.
    pub fn advance(&mut self, stage: Stage, frame: Frame) -> (r: (LoopAction, Stage))
        ensures
            final(self)@ == stage_state(old(self)@, stage, frame),
            r.0@ == stage_action(old(self)@, stage, frame),
            r.1 == stage_after(stage),
    {
        match stage {
            Stage::Draw => {
                if self.should_quit {
                    (LoopAction::Stop, Stage::Input)
                } else {
                    (LoopAction::Draw, Stage::Input)
                }
            },
            Stage::Input => {
                let wait: u64 = self.next_tick_in(frame.now);
                let capped: u64 = if wait < POLL_CAP {
                    wait
                } else {
                    POLL_CAP
                };
                (LoopAction::Poll(capped), Stage::Tick)
            },
            Stage::Tick => {
                if frame.shutdown {
                    (LoopAction::Stop, Stage::Windows)
                } else if self.tick_due(frame.now) {
                    (LoopAction::Refresh, Stage::Windows)
                } else {
                    (LoopAction::Nothing, Stage::Windows)
                }
            },
            Stage::Windows => {
                let visible_detail: bool = match self.mode {
                    Mode::Detail => true,
                    _ => match Tier::from_size_with(
                        frame.width,
                        frame.height,
                        self.config.ui.narrow_cols,
                        self.config.ui.wide_cols,
                    ) {
                        Tier::Wide => true,
                        Tier::Mid => true,
                        _ => false,
                    },
                };
                match self.ensure_window_count(visible_detail, frame.now) {
                    Some(full) => (LoopAction::CountWindows(full), Stage::Attach),
                    None => (LoopAction::Nothing, Stage::Attach),
                }
            },
            Stage::Attach => match self.take_attach_request() {
                Some(request) => {
                    let prefix: Option<&str> = match &self.escape_prefix {
                        Some(p) => Some(p.as_str()),
                        None => None,
                    };
                    let hint: String = detach_hint_text(prefix, self.lang);
                    (LoopAction::Attach { request, hint }, Stage::Action)
                },
                None => (LoopAction::Nothing, Stage::Action),
            },
            Stage::Action => match self.take_action() {
                Some(action) => (LoopAction::Perform(action), Stage::Rename),
                None => (LoopAction::Nothing, Stage::Rename),
            },
            Stage::Rename => match self.take_rename_request() {
                Some(request) => (LoopAction::Rename(request), Stage::Preview),
                None => (LoopAction::Nothing, Stage::Preview),
            },
            Stage::Preview => match self.take_preview_request() {
                Some(request) => (LoopAction::Preview(request), Stage::Restart),
                None => (LoopAction::Nothing, Stage::Restart),
            },
            Stage::Restart => match self.take_restart_request() {
                Some(request) => (LoopAction::Restart(request), Stage::Wide),
                None => (LoopAction::Nothing, Stage::Wide),
            },
            Stage::Wide => {
                let tier: Tier = Tier::from_size_with(
                    frame.width,
                    frame.height,
                    self.config.ui.narrow_cols,
                    self.config.ui.wide_cols,
                );
                let wide: bool = match tier {
                    Tier::Wide => true,
                    _ => false,
                };
                match self.wide_preview_due(wide) {
                    Some(request) => (LoopAction::Preview(request), Stage::Draw),
                    None => (LoopAction::Nothing, Stage::Draw),
                }
            },
        }
    }
}

// ---------------------------------------------------------------------------
// Carrying out an action
// ---------------------------------------------------------------------------
/// What follows from checking an action.
#[derive(Debug, Clone, Copy, PartialEq, Eq, Structural)]
pub enum ActionStep {
    /// Run it, refresh, and tell how it went.
    Run(SessionAction),
    /// It was refused: refresh and tell why.
    Refused,
    /// There is nothing to run, which was told.
    Nothing,
}

/// Why an action is not carried out, by the outcome of listing the sessions again.
pub open spec fn objection(
    lang: Lang,
    own: Option<Seq<char>>,
    outcome: Result<EnumerationView, ErrorView>,
    action: ConfirmModel,
) -> Option<Seq<char>> {
    match outcome {
        Ok(fresh) => refusal(lang, own, fresh, action),
        Err(err) => Some(
            fmt_of(
                dict_of(lang).verify_failed_action@,
                seq![action_label(action.kind, lang), error_text(err)],
            ),
        ),
    }
}

/// The state once an action was checked: the fresh list is taken over.
pub open spec fn action_checked(
    m: AppModel,
    outcome: Result<EnumerationView, ErrorView>,
    action: ConfirmModel,
) -> AppModel {
    let n = match outcome {
        Ok(fresh) => with_list(m, fresh),
        Err(_) => m,
    };
    if objection(m.lang, m.own, outcome, action) is None && action_command(action.kind) is None {
        telling(n, dict_of(m.lang).nothing_to_do@)
    } else {
        n
    }
}

pub open spec fn action_step(
    m: AppModel,
    outcome: Result<EnumerationView, ErrorView>,
    action: ConfirmModel,
) -> ActionStep {
    if objection(m.lang, m.own, outcome, action) is Some {
        ActionStep::Refused
    } else {
        match action_command(action.kind) {
            Some(command) => ActionStep::Run(command),
            None => ActionStep::Nothing,
        }
    }
}

impl App {
    /// Checks a confirmed action against a fresh listing, right before it would be
    /// carried out. The second part says why it was refused.
    pub fn begin_action(
        &mut self,
        outcome: Result<Enumeration, Error>,
        action: &ConfirmAction,
    ) -> (r: (ActionStep, Option<String>))
        ensures
            final(self)@ == action_checked(old(self)@, outcome_view(outcome), action@),
            r.0 == action_step(old(self)@, outcome_view(outcome), action@),
            opt_view(r.1) == objection(
                old(self)@.lang,
                old(self)@.own,
                outcome_view(outcome),
                action@,
            ),
    {
        match self.check_action(outcome, action) {
            Err(reason) => (ActionStep::Refused, Some(reason)),
            Ok(_) => match action.kind.to_cmd() {
                Some(command) => (ActionStep::Run(command), None),
                None => {
                    let t = dict(self.lang);
                    self.status = Some(t.nothing_to_do.to_owned());
                    (ActionStep::Nothing, None)
                },
            },
        }
    }
}

// ---------------------------------------------------------------------------
// Starting
// ---------------------------------------------------------------------------
/// The interface needs a terminal on both ends.
pub open spec fn terminal_missing(stdin_tty: bool, stdout_tty: bool) -> bool {
    !stdin_tty || !stdout_tty
}

/// Why the interface cannot start without a terminal.
pub fn startup_error(stdin_tty: bool, stdout_tty: bool) -> (r: Option<&'static str>)
    ensures
        r is Some <==> terminal_missing(stdin_tty, stdout_tty),
        r matches Some(s) ==> s@
            == "no interactive terminal attached; use `stui ls` for non-interactive use"@,
{
    if !stdin_tty || !stdout_tty {
        Some("no interactive terminal attached; use `stui ls` for non-interactive use")
    } else {
        None
    }
}

/// The state at the start: the prefix of the configuration goes before the one
/// that was found, and `$STY` is the session that the program runs in.
pub open spec fn started(
    caps: CapsView,
    loaded: LoadedModel,
    lang: Lang,
    auto_refresh: Seq<char>,
    found_prefix: Option<Seq<char>>,
    sty: Option<Seq<char>>,
) -> AppModel {
    AppModel {
        own: non_empty(sty),
        refresh_interval: interval_of(auto_refresh),
        escape_prefix: match loaded.config.defaults.escape_prefix {
            Some(p) => Some(p),
            None => found_prefix,
        },
        config_read_only: loaded.read_only,
        ..initial(caps, loaded.config, lang)
    }
}

/// What there is to say at the start: that this is running inside a session, unless
/// the first refresh failed, and the warnings of the configuration.
pub open spec fn start_remarks(m: AppModel, warnings: Seq<Seq<char>>) -> Seq<Seq<char>> {
    (if m.status is None && m.own is Some {
        seq![dict_of(m.lang).inside_sty@]
    } else {
        Seq::empty()
    }) + warnings
}

pub open spec fn warned(m: AppModel, warnings: Seq<Seq<char>>) -> AppModel {
    let remarks = start_remarks(m, warnings);
    if remarks.len() == 0 {
        m
    } else {
        telling(m, join_of(remarks, "; "@))
    }
}

impl App {
    /// The state at the start of the interface.
    pub fn start(
        caps: Caps,
        config: Config,
        read_only: bool,
        lang: Lang,
        auto_refresh: &str,
        found_prefix: Option<String>,
        sty: Option<String>,
    ) -> (r: App)
        ensures
            r@ == started(
                caps@,
                LoadedModel { config: config@, warnings: Seq::empty(), read_only },
                lang,
                auto_refresh@,
                opt_view(found_prefix),
                opt_view(sty),
            ),
    {
        let explicit: Option<String> = clone_opt(&config.defaults.escape_prefix);
        let mut app = App::with_config(caps, config, lang);
        app.config_read_only = read_only;
        app.own = keep_non_empty(sty);
        app.refresh_interval = auto_refresh_interval(auto_refresh);
        app.escape_prefix = match explicit {
            Some(p) => Some(p),
            None => found_prefix,
        };
        app
    }

    /// Shows what there is to say at the start, after the first refresh.
    pub fn show_warnings(&mut self, warnings: &Vec<String>)
        ensures
            final(self)@ == warned(old(self)@, views(warnings@)),
    {
        let t = dict(self.lang);
        let mut remarks: Vec<String> = Vec::new();
        assert(views(remarks@) =~= Seq::empty());
        if self.status.is_none() && self.own.is_some() {
            push_string(&mut remarks, t.inside_sty.to_owned());
        }
        extend_strings(&mut remarks, warnings);
        assert(views(remarks@) =~= start_remarks(self@, views(warnings@)));
        assert(views(remarks@).len() == remarks@.len());
        if remarks.len() > 0 {
            self.status = Some(join(&remarks, "; "));
        }
    }
}

} // verus!
