//! How the selected session is connected to, given what a fresh listing says.

use crate::app::connect::{
    attach_noted, connected, save_path, shared,
};
use crate::app::key_laws::press;
use crate::app::keys::{
    key_work, keyed,
};
use crate::app::names::{
    address_of, count_named, detach_hint_of, first_named, found_again, index_at, index_named,
    lemma_index_at, name_at, session_at, solid_lines, target_of,
};
use crate::app::previews::{
    preview_noted, wide_due,
};
use crate::app::state::{
    AppModel, all_of, count_noted, filtered, passes, telling, visible, with_list,
};
use crate::app::types::{
    AttachModel, ChoiceModel, DraftModel, KeyCode, Mode, PreviewModel, PreviewRequestModel,
    WindowCountModel, WorkModel,
};
use crate::app::wizard::{
    announced, created_message,
};
use crate::i18n::{
    Lang, dict_of, fmt_of,
};
use crate::screen::caps::{
    Support, support_label,
};
use crate::screen::cmd::{
    AttachKind, RunView, attach_args_of,
};
use crate::screen::parse::{
    EnumerationView, SessionView, StatusView,
};
use crate::screen::probe::MetaView;
use crate::screen::{
    ErrorView, error_text,
};
use crate::text::{
    all_digits, is_digit, lines_of,
};
use crate::text_laws::{
    all_space, texts_fall_apart_when_trimmed, the_first_one_counts,
};
use vstd::prelude::*;

verus! {

/// The first session with that address.
pub open spec fn is_first_at(sessions: Seq<SessionView>, full: Seq<char>, i: int) -> bool {
    &&& 0 <= i < sessions.len()
    &&& sessions[i].full == full
    &&& forall|k: int| 0 <= k < i ==> (#[trigger] sessions[k]).full != full
}

/// The first session with that name, and none with that address.
pub open spec fn is_first_namesake(
    sessions: Seq<SessionView>,
    name: Seq<char>,
    full: Seq<char>,
    i: int,
) -> bool {
    &&& 0 <= i < sessions.len()
    &&& sessions[i].name == name
    &&& forall|k: int| 0 <= k < i ==> (#[trigger] sessions[k]).name != name
    &&& forall|k: int| 0 <= k < sessions.len() ==> (#[trigger] sessions[k]).full != full
}

/// Neither the address nor the name is listed.
pub open spec fn is_gone(sessions: Seq<SessionView>, name: Seq<char>, full: Seq<char>) -> bool {
    forall|k: int|
        0 <= k < sessions.len() ==> (#[trigger] sessions[k]).full != full && sessions[k].name != name
}

proof fn lemma_at(sessions: Seq<SessionView>, full: Seq<char>, i: int)
    requires
        is_first_at(sessions, full, i),
    ensures
        session_at(sessions, full) == Some(sessions[i]),
        index_at(sessions, full) == i,
    decreases sessions.len(),
{
    if i > 0 {
        assert(sessions[0].full != full);
        let rest = sessions.drop_first();
        assert forall|k: int| 0 <= k < i - 1 implies (#[trigger] rest[k]).full != full by {
            assert(rest[k] == sessions[k + 1]);
        }
        lemma_at(rest, full, i - 1);
    }
}

proof fn lemma_not_at(sessions: Seq<SessionView>, full: Seq<char>)
    requires
        forall|k: int| 0 <= k < sessions.len() ==> (#[trigger] sessions[k]).full != full,
    ensures
        session_at(sessions, full) is None,
        index_at(sessions, full) == sessions.len(),
    decreases sessions.len(),
{
    if sessions.len() > 0 {
        assert(sessions[0].full != full);
        let rest = sessions.drop_first();
        assert forall|k: int| 0 <= k < rest.len() implies (#[trigger] rest[k]).full != full by {
            assert(rest[k] == sessions[k + 1]);
        }
        lemma_not_at(rest, full);
    }
}

proof fn lemma_named(sessions: Seq<SessionView>, name: Seq<char>, i: int)
    requires
        0 <= i <= sessions.len(),
        i < sessions.len() ==> sessions[i].name == name,
        forall|k: int| 0 <= k < i ==> (#[trigger] sessions[k]).name != name,
    ensures
        index_named(sessions, name) == i,
    decreases sessions.len(),
{
    if i > 0 {
        assert(sessions[0].name != name);
        let rest = sessions.drop_first();
        assert forall|k: int| 0 <= k < i - 1 implies (#[trigger] rest[k]).name != name by {
            assert(rest[k] == sessions[k + 1]);
        }
        lemma_named(rest, name, i - 1);
    }
}

/// A session is found again by its address; where that is gone, by its name.
pub proof fn sessions_are_found_again(
    sessions: Seq<SessionView>,
    name: Seq<char>,
    full: Seq<char>,
    i: int,
)
    ensures
        is_first_at(sessions, full, i) ==> found_again(sessions, name, full) == Some(sessions[i]),
        is_first_namesake(sessions, name, full, i) ==> found_again(sessions, name, full) == Some(
            sessions[i],
        ),
        is_gone(sessions, name, full) ==> found_again(sessions, name, full) is None,
{
    if is_first_at(sessions, full, i) {
        lemma_at(sessions, full, i);
    }
    if is_first_namesake(sessions, name, full, i) {
        lemma_not_at(sessions, full);
        lemma_named(sessions, name, i);
    }
    if is_gone(sessions, name, full) {
        lemma_not_at(sessions, full);
        lemma_named(sessions, name, sessions.len() as int);
    }
}

/// No other session has that name, and none has it as its address.
pub open spec fn name_is_enough(sessions: Seq<SessionView>, name: Seq<char>) -> bool {
    &&& forall|i: int, j: int|
        0 <= i < sessions.len() && 0 <= j < sessions.len() && (#[trigger] sessions[i]).name == name
            && (#[trigger] sessions[j]).name == name ==> i == j
    &&& forall|i: int| 0 <= i < sessions.len() ==> (#[trigger] sessions[i]).full != name
}

proof fn lemma_count_two(sessions: Seq<SessionView>, name: Seq<char>)
    ensures
        count_named(sessions, name) > 1 <==> exists|i: int, j: int|
            0 <= i < j < sessions.len() && (#[trigger] sessions[i]).name == name && (
            #[trigger] sessions[j]).name == name,
        count_named(sessions, name) > 0 <==> exists|i: int|
            0 <= i < sessions.len() && (#[trigger] sessions[i]).name == name,
    decreases sessions.len(),
{
    if sessions.len() > 0 {
        let front = sessions.drop_last();
        let n = front.len() as int;
        lemma_count_two(front, name);
        if count_named(front, name) > 1 {
            let (i, j) = choose|i: int, j: int|
                0 <= i < j < front.len() && (#[trigger] front[i]).name == name && (
                #[trigger] front[j]).name == name;
            assert(sessions[i].name == name && sessions[j].name == name);
        }
        if count_named(front, name) > 0 {
            let i = choose|i: int| 0 <= i < front.len() && (#[trigger] front[i]).name == name;
            assert(sessions[i].name == name);
            assert(sessions[n] == sessions.last());
        }
        if sessions.last().name == name {
            assert(sessions[n].name == name);
        }
        if exists|i: int, j: int|
            0 <= i < j < sessions.len() && (#[trigger] sessions[i]).name == name && (
            #[trigger] sessions[j]).name == name {
            let (i, j) = choose|i: int, j: int|
                0 <= i < j < sessions.len() && (#[trigger] sessions[i]).name == name && (
                #[trigger] sessions[j]).name == name;
            assert(front[i] == sessions[i]);
            if j < n {
                assert(front[j] == sessions[j]);
            }
        }
        if exists|i: int| 0 <= i < sessions.len() && (#[trigger] sessions[i]).name == name {
            let i = choose|i: int| 0 <= i < sessions.len() && (#[trigger] sessions[i]).name == name;
            if i < n {
                assert(front[i] == sessions[i]);
            }
        }
    }
}

/// A session is addressed by its name where that is enough, and in full where it is not.
pub proof fn names_are_used_where_they_are_enough(
    sessions: Seq<SessionView>,
    name: Seq<char>,
    full: Seq<char>,
)
    ensures
        address_of(sessions, name, full) == if name_is_enough(sessions, name) {
            name
        } else {
            full
        },
{
    lemma_count_two(sessions, name);
    if name_is_enough(sessions, name) {
        lemma_not_at(sessions, name);
        if count_named(sessions, name) > 1 {
            let (i, j) = choose|i: int, j: int|
                0 <= i < j < sessions.len() && (#[trigger] sessions[i]).name == name && (
                #[trigger] sessions[j]).name == name;
            assert(i == j);
        }
    } else if session_at(sessions, name) is None && !(count_named(sessions, name) > 1) {
        assert forall|i: int| 0 <= i < sessions.len() implies (
        #[trigger] sessions[i]).full != name by {
            if sessions[i].full == name {
                lemma_index_at(sessions, i);
            }
        }
        assert forall|i: int, j: int|
            0 <= i < sessions.len() && 0 <= j < sessions.len() && (#[trigger] sessions[i]).name
                == name && (#[trigger] sessions[j]).name == name implies i == j by {
            if i < j {
                assert(sessions[i].name == name && sessions[j].name == name);
            } else if j < i {
                assert(sessions[j].name == name && sessions[i].name == name);
            }
        }
    }
}

/// Connecting goes by the fresh state of the selected session: a detached one is
/// resumed, for one in use there is a choice, and for one that cannot be connected to the
/// user is told. The fresh listing is taken over in any case.
pub proof fn connecting_goes_by_the_fresh_state(m: AppModel, fresh: EnumerationView, i: int)
    requires
        m.selected < visible(m).len(),
        ({
            let s = visible(m)[m.selected as int];
            is_first_at(fresh.list.sessions, s.full, i) || is_first_namesake(
                fresh.list.sessions,
                s.name,
                s.full,
                i,
            )
        }),
    ensures
        ({
            let f = fresh.list.sessions[i];
            let n = connected(m, Ok(fresh));
            let target = if name_is_enough(fresh.list.sessions, f.name) {
                f.name
            } else {
                f.full
            };
            &&& n.enumeration == Some(fresh)
            &&& m.own == Some(f.full) ==> n.attach_request == m.attach_request && n.mode == m.mode
                && n.status is Some
            &&& m.own != Some(f.full) ==> match f.status {
                StatusView::Detached => n.attach_request == Some(
                    AttachModel { kind: AttachKind::Resume, target },
                ) && n.mode == m.mode,
                StatusView::Attached => n.mode == Mode::AttachChoice && n.attach == Some(
                    ChoiceModel { name: f.name, full: f.full, note: None },
                ) && n.attach_request == m.attach_request,
                StatusView::Multi => n.mode == Mode::AttachChoice && (n.attach matches Some(c)
                    && c.name == f.name && c.full == f.full && c.note is Some) && n.attach_request
                    == m.attach_request,
                _ => n.attach_request == m.attach_request && n.mode == m.mode && n.status == Some(
                    match f.status {
                        StatusView::Dead => fmt_of(dict_of(m.lang).dead_wipe_hint@, seq![f.name]),
                        StatusView::Unknown(raw) => fmt_of(
                            dict_of(m.lang).unknown_state@,
                            seq![f.name, raw],
                        ),
                        _ => fmt_of(dict_of(m.lang).unreachable_hint@, seq![f.name]),
                    },
                ),
            }
        }),
{
    let s = visible(m)[m.selected as int];
    sessions_are_found_again(fresh.list.sessions, s.name, s.full, i);
    let f = fresh.list.sessions[i];
    names_are_used_where_they_are_enough(fresh.list.sessions, f.name, f.full);
}

/// Sharing connects to the selected session beside whoever uses it, if it can be
/// connected to at all.
pub proof fn sharing_goes_by_the_fresh_state(m: AppModel, fresh: EnumerationView, i: int)
    requires
        m.selected < visible(m).len(),
        ({
            let s = visible(m)[m.selected as int];
            is_first_at(fresh.list.sessions, s.full, i) || is_first_namesake(
                fresh.list.sessions,
                s.name,
                s.full,
                i,
            )
        }),
    ensures
        ({
            let f = fresh.list.sessions[i];
            let n = shared(m, Ok(fresh));
            let target = if name_is_enough(fresh.list.sessions, f.name) {
                f.name
            } else {
                f.full
            };
            let can = f.status is Detached || f.status is Attached || f.status is Multi;
            &&& n.enumeration == Some(fresh) && n.mode == m.mode
            &&& can && m.own != Some(f.full) ==> n.attach_request == Some(
                AttachModel { kind: AttachKind::Share, target },
            )
            &&& !can || m.own == Some(f.full) ==> n.attach_request == m.attach_request && n.status
                is Some
        }),
{
    let s = visible(m)[m.selected as int];
    sessions_are_found_again(fresh.list.sessions, s.name, s.full, i);
    let f = fresh.list.sessions[i];
    names_are_used_where_they_are_enough(fresh.list.sessions, f.name, f.full);
}

/// A session that is gone is not connected to: the user is told, by its name, and sees
/// the fresh listing. Without a fresh listing the user is told why, and the old one stays.
pub proof fn what_is_gone_is_not_connected_to(
    m: AppModel,
    fresh: EnumerationView,
    err: ErrorView,
)
    requires
        m.selected < visible(m).len(),
        ({
            let s = visible(m)[m.selected as int];
            is_gone(fresh.list.sessions, s.name, s.full)
        }),
    ensures
        ({
            let s = visible(m)[m.selected as int];
            let told = Some(fmt_of(dict_of(m.lang).session_gone@, seq![s.name]));
            let a = connected(m, Ok(fresh));
            let b = shared(m, Ok(fresh));
            let c = connected(m, Err(err));
            let d = shared(m, Err(err));
            let why = Some(fmt_of(dict_of(m.lang).verify_failed@, seq![error_text(err)]));
            &&& a.status == told && a.enumeration == Some(fresh) && a.attach_request
                == m.attach_request && a.mode == m.mode
            &&& b.status == told && b.enumeration == Some(fresh) && b.attach_request
                == m.attach_request && b.mode == m.mode
            &&& c == AppModel { status: why, ..m }
            &&& d == AppModel { status: why, ..m }
        }),
{
    let s = visible(m)[m.selected as int];
    sessions_are_found_again(fresh.list.sessions, s.name, s.full, 0);
}

/// In the choice, `1` shares and `2` takes over, the session that was chosen; `q` and
/// Escape give up; no other key does anything.
pub proof fn choices_are_made(m: AppModel, c: ChoiceModel, code: KeyCode)
    requires
        m.mode == Mode::AttachChoice,
        m.attach == Some(c),
    ensures
        ({
            let n = keyed(m, press(code));
            let target = if name_is_enough(all_of(m), c.name) {
                c.name
            } else {
                c.full
            };
            let closed = AppModel { attach: None, mode: Mode::List, ..m };
            &&& code == KeyCode::Char('1') ==> n == AppModel {
                attach_request: Some(AttachModel { kind: AttachKind::Share, target }),
                ..closed
            }
            &&& code == KeyCode::Char('2') ==> n == AppModel {
                attach_request: Some(AttachModel { kind: AttachKind::Takeover, target }),
                ..closed
            }
            &&& code == KeyCode::Char('q') || code == KeyCode::Esc ==> n == closed
            &&& code != KeyCode::Char('1') && code != KeyCode::Char('2') && code != KeyCode::Char(
                'q',
            ) && code != KeyCode::Esc ==> n == m
            &&& key_work(m, press(code)) == WorkModel::Done
        }),
{
    names_are_used_where_they_are_enough(all_of(m), c.name, c.full);
}

/// Resuming runs `-r`, sharing `-x`, taking over `-d -r`, on the session.
pub proof fn each_way_to_connect_has_its_switches(target: Seq<char>)
    ensures
        attach_args_of(AttachKind::Resume, target) == seq!["-U"@, "-r"@, target],
        attach_args_of(AttachKind::Share, target) == seq!["-U"@, "-x"@, target],
        attach_args_of(AttachKind::Takeover, target) == seq!["-U"@, "-d"@, "-r"@, target],
{
}

/// A new session that is on display and alone with its name is entered like a selected
/// one, if that is wished for; otherwise the list is shown with the message that it was
/// created.
pub proof fn new_sessions_are_entered_when_wished(m: AppModel, d: DraftModel, i: int)
    requires
        m.draft == Some(d),
        0 <= i < all_of(m).len(),
        all_of(m)[i].name == d.name,
        all_of(m)[i].status is Detached,
        is_first_at(all_of(m), all_of(m)[i].full, i),
        name_is_enough(all_of(m), d.name),
        passes(m.filter, m.meta_cache, all_of(m)[i]),
        m.own != Some(all_of(m)[i].full),
    ensures
        ({
            let n = announced(m);
            &&& n.draft is None && n.mode == Mode::List
            &&& m.config.defaults.attach_after_create ==> n.attach_request == Some(
                AttachModel { kind: AttachKind::Resume, target: d.name },
            )
            &&& !m.config.defaults.attach_after_create ==> n.attach_request == m.attach_request
            &&& n.status == Some(
                match d.note {
                    Some(hint) => fmt_of(dict_of(m.lang).created_with_hint@, seq![d.name, hint]),
                    None => fmt_of(dict_of(m.lang).created@, seq![d.name]),
                },
            )
        }),
{
    let told = AppModel {
        draft: None,
        mode: Mode::List,
        ..telling(m, created_message(d, m.lang))
    };
    let all = all_of(m);
    assert(all_of(told) == all && visible(told) == visible(m));
    lemma_count_two(all, d.name);
    assert(count_named(all, d.name) == 1) by {
        if count_named(all, d.name) > 1 {
            let (a, b) = choose|a: int, b: int|
                0 <= a < b < all.len() && (#[trigger] all[a]).name == d.name && (
                #[trigger] all[b]).name == d.name;
            assert(a == b);
        }
    }
    lemma_passing_shown(all, m.filter, m.meta_cache, i);
    let k = choose|k: int| 0 <= k < visible(m).len() && visible(m)[k] == all[i];
    assert(visible(m)[k].name == d.name);
    lemma_count_two(visible(m), d.name);
    assert forall|k: int| 0 <= k < i implies (#[trigger] all[k]).name != d.name by {
        if all[k].name == d.name {
            assert(k == i);
        }
    }
    lemma_named(all, d.name, i);
    assert(first_named(all, d.name) == Some(all[i]));
    sessions_are_found_again(all, d.name, all[i].full, i);
    names_are_used_where_they_are_enough(all, d.name, all[i].full);
}

proof fn lemma_passing_shown(
    sessions: Seq<SessionView>,
    filter: Seq<char>,
    cache: Map<u32, MetaView>,
    i: int,
)
    requires
        0 <= i < sessions.len(),
        passes(filter, cache, sessions[i]),
    ensures
        filtered(sessions, filter, cache).contains(sessions[i]),
    decreases sessions.len(),
{
    let front = sessions.drop_last();
    let shown = filtered(sessions, filter, cache);
    if i < front.len() {
        assert(front[i] == sessions[i]);
        lemma_passing_shown(front, filter, cache, i);
        let before = filtered(front, filter, cache);
        let k = choose|k: int| 0 <= k < before.len() && before[k] == sessions[i];
        assert(shown[k] == sessions[i]);
    } else {
        assert(shown.last() == sessions[i]);
        assert(shown[shown.len() - 1] == sessions[i]);
    }
}

// ---------------------------------------------------------------------------
// Snapshots and counts
// ---------------------------------------------------------------------------
/// `p` asks for a snapshot of the selected session by its full address, if it runs and
/// screen is known to take snapshots; otherwise it says why not.
pub proof fn snapshots_are_asked_for_the_selected_session(m: AppModel)
    requires
        m.mode == Mode::List,
        m.selected < visible(m).len(),
    ensures
        ({
            let s = visible(m)[m.selected as int];
            let n = keyed(m, press(KeyCode::Char('p')));
            let runs = !(s.status is Dead) && !(s.status is Unreachable);
            if runs && m.caps.hardcopy == Support::Yes {
                n == AppModel {
                    last_preview_target: Some(s.full),
                    preview_request: Some(
                        PreviewRequestModel { full: s.full, name: s.name, manual: true },
                    ),
                    ..m
                }
            } else {
                n.preview_request == m.preview_request && n.mode == m.mode && n.status == Some(
                    if runs {
                        fmt_of(
                            dict_of(m.lang).preview_unavailable@,
                            seq![support_label(m.caps.hardcopy)],
                        )
                    } else {
                        fmt_of(dict_of(m.lang).preview_not_running@, seq![s.name])
                    },
                )
            }
        }),
{
}

/// On a wide screen a snapshot of the selected session is due in the list whenever it
/// is not of the session that was asked for last.
pub proof fn wide_screens_follow_the_selection(m: AppModel)
    requires
        m.selected < visible(m).len(),
        m.mode == Mode::List,
        m.caps.hardcopy == Support::Yes,
        m.preview_request is None,
    ensures
        ({
            let s = visible(m)[m.selected as int];
            &&& m.last_preview_target != Some(s.full) ==> wide_due(m, true) == Some(
                PreviewRequestModel { full: s.full, name: s.name, manual: false },
            )
            &&& m.last_preview_target == Some(s.full) ==> wide_due(m, true) is None
            &&& wide_due(m, false) is None
        }),
{
}

/// A snapshot that was taken is kept with the session it is of, its lines and the
/// time; it is opened only if it was asked for by key.
pub proof fn snapshots_are_kept(
    m: AppModel,
    request: PreviewRequestModel,
    lines: Seq<Seq<char>>,
    stamp: Seq<char>,
)
    ensures
        ({
            let n = preview_noted(m, request, lines, stamp);
            &&& n.preview == Some(
                PreviewModel { full: request.full, name: request.name, fetched: stamp, lines },
            )
            &&& request.manual ==> n.mode == Mode::Preview
            &&& !request.manual ==> n.mode == m.mode
        }),
{
}

proof fn lemma_solid_lines(lines: Seq<Seq<char>>)
    ensures
        solid_lines(lines) == lines.filter(|line: Seq<char>| !all_space(line)).len(),
    decreases lines.len(),
{
    reveal(Seq::filter);
    if lines.len() > 0 {
        lemma_solid_lines(lines.drop_last());
        texts_fall_apart_when_trimmed(lines.last());
    }
}

/// A session has as many windows as there are lines in the answer that hold something;
/// without an answer the number is not known. The count stays for that session.
pub proof fn windows_are_counted_by_lines(
    m: AppModel,
    full: Seq<char>,
    text: Seq<char>,
    now: u64,
)
    requires
        lines_of(text).len() <= usize::MAX,
    ensures
        ({
            let n = count_noted(m, full, Some(text), now);
            let none = count_noted(m, full, None, now);
            &&& n.window_count matches Some(count) && count == lines_of(text).filter(
                |line: Seq<char>| !all_space(line),
            ).len()
            &&& n.window_count_cache == Some(
                WindowCountModel { full, count: n.window_count, fetched_at: now },
            )
            &&& none.window_count is None
        }),
{
    lemma_solid_lines(lines_of(text));
    lines_of(text).lemma_filter_len(|line: Seq<char>| !all_space(line));
}

/// A name leads to the only session that has it; where several have it, to the first of
/// them by its full address; where none has, it is used as it is.
pub proof fn names_lead_to_their_session(sessions: Seq<SessionView>, name: Seq<char>, i: int)
    requires
        0 <= i <= sessions.len(),
        i < sessions.len() ==> sessions[i].name == name,
        forall|k: int| 0 <= k < i ==> (#[trigger] sessions[k]).name != name,
    ensures
        ({
            let several = exists|a: int, b: int|
                0 <= a < b < sessions.len() && (#[trigger] sessions[a]).name == name && (
                #[trigger] sessions[b]).name == name;
            target_of(sessions, name) == if several {
                sessions[i].full
            } else {
                name
            }
        }),
{
    lemma_count_two(sessions, name);
    lemma_named(sessions, name, i);
    if i < sessions.len() {
        assert(sessions[i].name == name);
    } else {
        if exists|a: int, b: int|
            0 <= a < b < sessions.len() && (#[trigger] sessions[a]).name == name && (
            #[trigger] sessions[b]).name == name {
            let (a, b) = choose|a: int, b: int|
                0 <= a < b < sessions.len() && (#[trigger] sessions[a]).name == name && (
                #[trigger] sessions[b]).name == name;
            assert(sessions[a].name != name);
        }
    }
}

/// Coming back from a session whose directory is known counts as using that directory, if
/// it went well.
pub proof fn coming_back_notes_the_directory(
    m: AppModel,
    request: AttachModel,
    run: RunView,
    stamp: Seq<char>,
    i: int,
    cwd: Seq<char>,
)
    requires
        is_first_at(all_of(m), request.target, i),
        all_of(m)[i].pid matches Some(pid) && pid >= 0 && m.meta_cache.contains_key(pid as u32)
            && m.meta_cache[pid as u32].cwd == Some(cwd),
        m.config.max_recent_dirs > 0,
    ensures
        ({
            let n = attach_noted(m, request, run, stamp);
            &&& run.code == 0 ==> n.config.dirs.len() > 0 && n.config.dirs[0].path == cwd
                && n.config.dirs[0].last_used == stamp
            &&& run.code != 0 ==> n.config.dirs == m.config.dirs
        }),
{
    lemma_at(all_of(m), request.target, i);
}

/// A new session that is not on display, or that shares its name, is not entered, and the
/// message that it was created says why.
pub proof fn new_sessions_are_entered_only_when_they_are_clear(m: AppModel, d: DraftModel)
    requires
        m.draft == Some(d),
        m.config.defaults.attach_after_create,
        d.note is None,
    ensures
        ({
            let n = announced(m);
            let t = dict_of(m.lang);
            let shown = exists|i: int|
                0 <= i < visible(m).len() && (#[trigger] visible(m)[i]).name == d.name;
            let several = exists|i: int, j: int|
                0 <= i < j < all_of(m).len() && (#[trigger] all_of(m)[i]).name == d.name && (
                #[trigger] all_of(m)[j]).name == d.name;
            let created = fmt_of(t.created@, seq![d.name]);
            &&& !shown ==> n.attach_request == m.attach_request && n.status == Some(
                fmt_of(t.not_entering@, seq![created, t.skip_not_listed@]),
            )
            &&& shown && several ==> n.attach_request == m.attach_request && n.status == Some(
                fmt_of(t.not_entering@, seq![created, t.skip_not_unique@]),
            )
        }),
{
    let told = AppModel {
        draft: None,
        mode: Mode::List,
        ..telling(m, created_message(d, m.lang))
    };
    assert(all_of(told) == all_of(m) && visible(told) == visible(m));
    lemma_count_two(visible(m), d.name);
    lemma_count_two(all_of(m), d.name);
    let created = fmt_of(dict_of(m.lang).created@, seq![d.name]);
    assert(created.subrange(0, created.len() as int) =~= created);
}

/// A listing that leaves the selected row behind moves the cursor to its last row.
pub proof fn the_cursor_falls_back_to_the_last_row(m: AppModel, e: EnumerationView)
    requires
        ({
            let n = visible(AppModel { enumeration: Some(e), ..m }).len();
            0 < n <= m.selected
        }),
    ensures
        with_list(m, e).selected + 1 == visible(with_list(m, e)).len(),
        with_list(m, e).enumeration == Some(e),
{
    let n = AppModel { enumeration: Some(e), ..m };
    assert(visible(with_list(m, e)) == visible(n));
}

/// The hint how to come back names the key that is set; without one it names the usual key.
pub proof fn the_hint_names_the_key(prefix: Seq<char>, lang: Lang)
    ensures
        detach_hint_of(Some(prefix), lang) == fmt_of(
            dict_of(lang).detach_hint_some@,
            seq![prefix],
        ),
        detach_hint_of(None, lang) == dict_of(lang).detach_hint_default@,
{
}

/// The configuration is written to the place that was set for it, else to its usual place,
/// unless it may not be written at all.
pub proof fn the_configuration_is_written_to_its_place(m: AppModel, usual: Option<Seq<char>>)
    ensures
        m.config_read_only || m.config.version > 1 ==> save_path(m, usual) is None,
        !m.config_read_only && m.config.version <= 1 ==> save_path(m, usual)
            == match m.config_path_override {
            Some(path) => Some(path),
            None => usual,
        },
{
}

/// A session that is no longer listed is known by the name in its address; a name that is
/// no address is itself.
pub proof fn addresses_hold_the_name(sessions: Seq<SessionView>, pid: Seq<char>, name: Seq<char>)
    requires
        pid.len() > 0,
        all_digits(pid),
        is_gone(sessions, pid + seq!['.'] + name, pid + seq!['.'] + name),
        is_gone(sessions, name, name),
        !name.contains('.'),
    ensures
        name_at(sessions, pid + seq!['.'] + name) == name,
        name_at(sessions, name) == name,
{
    let full = pid + seq!['.'] + name;
    assert(!pid.contains('.')) by {
        assert forall|i: int| 0 <= i < pid.len() implies pid[i] != '.' by {
            assert(is_digit(pid[i]));
        }
    }
    the_first_one_counts(pid, '.', name);
    the_first_one_counts(name, '.', name);
    assert(full.take(pid.len() as int) =~= pid);
    assert(full.skip(pid.len() as int + 1) =~= name);
    lemma_not_at(sessions, full);
    lemma_not_at(sessions, name);
    lemma_count_two(sessions, full);
    lemma_count_two(sessions, name);
    assert(count_named(sessions, full) == 0) by {
        if count_named(sessions, full) > 0 {
            let i = choose|i: int| 0 <= i < sessions.len() && (#[trigger] sessions[i]).name == full;
            assert(sessions[i].name != full);
        }
    }
}

/// Where entering is not wished for, the list is shown with the message that the session
/// was created, and nothing is asked for.
pub proof fn created_sessions_are_announced(m: AppModel, d: DraftModel)
    requires
        m.draft == Some(d),
        !m.config.defaults.attach_after_create,
    ensures
        announced(m) == (AppModel {
            draft: None,
            mode: Mode::List,
            status: Some(
                match d.note {
                    Some(hint) => fmt_of(dict_of(m.lang).created_with_hint@, seq![d.name, hint]),
                    None => fmt_of(dict_of(m.lang).created@, seq![d.name]),
                },
            ),
            ..m
        }),
{
}

} // verus!
