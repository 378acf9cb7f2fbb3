//! What the loop hands on, and when the list is refreshed.

use crate::app::actions::refusal;
use crate::app::event_loop::{
    ActionStep, Frame, LoopModel, Stage, action_checked, action_step, objection, stage_action,
    stage_after, started, terminal_missing, warned,
};
use crate::app::names::detach_hint_of;
use crate::app::state::{
    AppModel, all_of, count_due, count_shown, interval_of, probe_after_refresh, refreshed,
    visible, with_list,
};
use crate::app::types::{
    ActionKind, ConfirmModel, Mode, WindowCountModel, action_label,
};
use crate::config::LoadedModel;
use crate::i18n::{
    Lang, dict_of, fmt_of,
};
use crate::screen::caps::{
    CapsView, Support,
};
use crate::screen::cmd::SessionAction;
use crate::screen::parse::EnumerationView;
use crate::screen::{
    ErrorView, error_text,
};
use crate::text_laws::separators_stand_between;
use crate::text::join_of;
use vstd::prelude::*;

verus! {

/// Whatever was asked for is handed on as it was asked for, at its place in the round, and
/// nothing is where nothing was asked for.
pub proof fn requests_are_handed_on(m: AppModel, frame: Frame)
    ensures
        m.attach_request matches Some(r) ==> (stage_action(m, Stage::Attach, frame) matches LoopModel::Attach {
            request,
            hint,
        } && request == r && hint == detach_hint_of(m.escape_prefix, m.lang)),
        m.action_request matches Some(r) ==> stage_action(m, Stage::Action, frame)
            == LoopModel::Perform(r),
        m.rename_request matches Some(r) ==> stage_action(m, Stage::Rename, frame)
            == LoopModel::Rename(r),
        m.preview_request matches Some(r) ==> stage_action(m, Stage::Preview, frame)
            == LoopModel::Preview(r),
        m.restart_request matches Some(r) ==> stage_action(m, Stage::Restart, frame)
            == LoopModel::Restart(r),
        m.attach_request is None ==> stage_action(m, Stage::Attach, frame) == LoopModel::Nothing,
        m.action_request is None ==> stage_action(m, Stage::Action, frame) == LoopModel::Nothing,
        m.rename_request is None ==> stage_action(m, Stage::Rename, frame) == LoopModel::Nothing,
        m.preview_request is None ==> stage_action(m, Stage::Preview, frame) == LoopModel::Nothing,
        m.restart_request is None ==> stage_action(m, Stage::Restart, frame) == LoopModel::Nothing,
{
}

/// A round goes through all of its stages and begins again with drawing.
pub proof fn rounds_go_through_every_stage()
    ensures
        stage_after(Stage::Draw) == Stage::Input,
        stage_after(Stage::Input) == Stage::Tick,
        stage_after(Stage::Tick) == Stage::Windows,
        stage_after(Stage::Windows) == Stage::Attach,
        stage_after(Stage::Attach) == Stage::Action,
        stage_after(Stage::Action) == Stage::Rename,
        stage_after(Stage::Rename) == Stage::Preview,
        stage_after(Stage::Preview) == Stage::Restart,
        stage_after(Stage::Restart) == Stage::Wide,
        stage_after(Stage::Wide) == Stage::Draw,
{
}

/// Where refreshing by itself is asked for, the list is refreshed once the interval has
/// gone by since the last time, and not before; a key is waited for no longer than that.
pub proof fn refreshes_come_when_they_are_due(m: AppModel, frame: Frame, interval: u64, at: u64)
    requires
        m.refresh_interval == Some(interval),
        m.last_refresh == Some(at),
        !frame.shutdown,
    ensures
        ({
            let gone = if frame.now >= at {
                frame.now - at
            } else {
                0
            };
            &&& gone >= interval ==> stage_action(m, Stage::Tick, frame) == LoopModel::Refresh
            &&& gone < interval ==> stage_action(m, Stage::Tick, frame) == LoopModel::Nothing
            &&& stage_action(m, Stage::Input, frame) matches LoopModel::Poll(wait) && wait <= 200
                && (gone < interval ==> wait <= interval - gone)
        }),
{
}

/// A refresh takes the new listing over and clears the message; one that failed keeps the
/// old listing and says why. Either way the time is noted, and what is known of the
/// selected session is looked up again.
pub proof fn refreshes_take_the_listing_over(
    m: AppModel,
    e: EnumerationView,
    err: ErrorView,
    now: u64,
)
    ensures
        ({
            let good = refreshed(m, Ok(e), now);
            let bad = refreshed(m, Err(err), now);
            &&& good.enumeration == Some(e) && good.status is None && good.last_refresh == Some(now)
                && good.meta is None && good.window_count is None
            &&& all_of(good) == e.list.sessions
            &&& bad.enumeration == m.enumeration && bad.last_refresh == Some(now) && bad.selected
                == m.selected
            &&& bad.status == Some(
                fmt_of(dict_of(m.lang).refresh_failed@, seq![error_text(err)]),
            )
            &&& good.filter == m.filter && good.mode == m.mode && good.config == m.config
            &&& m.selected < visible(AppModel { enumeration: Some(e), ..m }).len() ==> good.selected
                == m.selected
        }),
{
}

/// After a refresh the process of the selected session is looked up, if it has one.
pub proof fn the_selected_process_is_looked_up(m: AppModel, e: EnumerationView, pid: i32)
    requires
        ({
            let n = with_list(m, e);
            &&& n.selected < visible(n).len()
            &&& visible(n)[n.selected as int].pid == Some(pid)
            &&& pid >= 0
        }),
    ensures
        probe_after_refresh(m, Ok(e)) == Some(pid as u32),
        !refreshed(m, Ok(e), 0).meta_cache.contains_key(pid as u32),
{
    let n = with_list(m, e);
    let k = AppModel { status: None, ..n };
    assert(visible(k) == visible(n));
    let r = AppModel { last_refresh: Some(0u64), meta: None, window_count: None, ..k };
    assert(visible(r) == visible(n));
}

/// Windows are counted for the selected session while its details are in view, if screen
/// answers queries and the last count is of another session or too old.
pub proof fn windows_are_counted_when_they_are_shown(
    m: AppModel,
    now: u64,
    at: u64,
    count: Option<usize>,
)
    requires
        m.selected < visible(m).len(),
        m.caps.query == Support::Yes,
        now >= at,
    ensures
        ({
            let s = visible(m)[m.selected as int];
            let kept = AppModel {
                window_count_cache: Some(
                    WindowCountModel { full: s.full, count, fetched_at: at },
                ),
                ..m
            };
            let none = AppModel { window_count_cache: None, ..m };
            &&& count_due(none, true, now) == Some(s.full)
            &&& count_due(none, false, now) is None
            &&& now - at < 10_000 ==> count_due(kept, true, now) is None && count_shown(
                kept,
                now,
            ).window_count == count
            &&& now - at >= 10_000 ==> count_due(kept, true, now) == Some(s.full)
                && count_shown(kept, now).window_count is None
            &&& count_shown(none, now).window_count is None
        }),
{
    let s = visible(m)[m.selected as int];
    let kept = AppModel {
        window_count_cache: Some(WindowCountModel { full: s.full, count, fetched_at: at }),
        ..m
    };
    let none = AppModel { window_count_cache: None, ..m };
    assert(visible(kept) == visible(m) && visible(none) == visible(m));
}

/// An action is carried out exactly if a fresh listing was had and does not speak against
/// it, and then it is the command of its kind. The fresh listing is taken over.
pub proof fn actions_run_when_nothing_speaks_against_them(
    m: AppModel,
    fresh: EnumerationView,
    err: ErrorView,
    action: ConfirmModel,
)
    requires
        action.kind != ActionKind::Cleanup,
    ensures
        ({
            let step = action_step(m, Ok(fresh), action);
            let command = match action.kind {
                ActionKind::Detach => SessionAction::Detach,
                ActionKind::Kill => SessionAction::Kill,
                _ => SessionAction::Wipe,
            };
            &&& refusal(m.lang, m.own, fresh, action) is None ==> step == ActionStep::Run(command)
            &&& refusal(m.lang, m.own, fresh, action) is Some ==> step == ActionStep::Refused
            &&& action_checked(m, Ok(fresh), action).enumeration == Some(fresh)
            &&& action_step(m, Err(err), action) == ActionStep::Refused
            &&& objection(m.lang, m.own, Err(err), action) == Some(
                fmt_of(
                    dict_of(m.lang).verify_failed_action@,
                    seq![action_label(action.kind, m.lang), error_text(err)],
                ),
            )
            &&& action_checked(m, Err(err), action).enumeration == m.enumeration
        }),
{
}

/// The program starts in the list with nothing selected, filtered or asked for, with the
/// configuration as it was loaded; the key that was configured goes before the one that was found.
pub proof fn the_program_starts_in_the_list(
    caps: CapsView,
    loaded: LoadedModel,
    lang: Lang,
    auto_refresh: Seq<char>,
    found: Option<Seq<char>>,
    sty: Option<Seq<char>>,
)
    ensures
        ({
            let m = started(caps, loaded, lang, auto_refresh, found, sty);
            &&& m.mode == Mode::List && m.selected == 0 && m.filter.len() == 0 && !m.should_quit
            &&& m.config == loaded.config && m.config_read_only == loaded.read_only
            &&& m.caps == caps && m.lang == lang
            &&& m.attach_request is None && m.action_request is None && m.rename_request is None
                && m.restart_request is None && m.preview_request is None && m.draft is None
                && m.confirm is None
            &&& m.own == match sty {
                Some(s) => if s.len() > 0 {
                    Some(s)
                } else {
                    None
                },
                None => None,
            }
            &&& loaded.config.defaults.escape_prefix matches Some(p) ==> m.escape_prefix == Some(p)
            &&& loaded.config.defaults.escape_prefix is None ==> m.escape_prefix == found
            &&& m.refresh_interval == interval_of(auto_refresh)
        }),
{
}

/// Warnings at the start are shown, all of them; without any, nothing is.
pub proof fn warnings_are_shown_at_the_start(
    m: AppModel,
    warnings: Seq<Seq<char>>,
    first: Seq<char>,
    second: Seq<char>,
)
    requires
        m.own is None,
        warnings.len() > 0,
    ensures
        warned(m, warnings) == (AppModel { status: Some(join_of(warnings, "; "@)), ..m }),
        warned(m, Seq::empty()) == m,
        warned(m, seq![first]) == (AppModel { status: Some(first), ..m }),
        warned(m, seq![first, second]) == (AppModel {
            status: Some(first + "; "@ + second),
            ..m
        }),
{
    let none = Seq::<Seq<char>>::empty();
    assert(none + none =~= none);
    assert(none + warnings =~= warnings);
    assert(none + seq![first] =~= seq![first]);
    assert(none + seq![first, second] =~= seq![first, second]);
    assert(seq![first].push(second) =~= seq![first, second]);
    separators_stand_between(seq![first], "; "@, second);
    separators_stand_between(seq![first], "; "@, first);
}

/// Windows are counted while the details are open, and on a terminal that shows them
/// beside or below the list.
pub proof fn counts_are_due_where_details_are_in_view(m: AppModel, frame: Frame)
    requires
        m.selected < visible(m).len(),
        m.caps.query == Support::Yes,
        m.window_count_cache is None,
        50 <= m.config.ui.narrow_cols < m.config.ui.wide_cols,
        frame.height >= 15,
        frame.width >= 50,
    ensures
        ({
            let s = visible(m)[m.selected as int];
            let in_view = m.mode == Mode::Detail || frame.width >= m.config.ui.narrow_cols;
            stage_action(m, Stage::Windows, frame) == if in_view {
                LoopModel::CountWindows(s.full)
            } else {
                LoopModel::Nothing
            }
        }),
{
}

/// The interface starts only with a terminal on both ends.
pub proof fn a_terminal_is_needed(stdin_tty: bool, stdout_tty: bool)
    ensures
        terminal_missing(stdin_tty, stdout_tty) <==> !(stdin_tty && stdout_tty),
{
}

} // verus!
