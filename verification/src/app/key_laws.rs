//! What each key is for, key by key.

use crate::app::keys::{
    key_work, keyed, unknown_pids,
};
use crate::app::state::{
    AppModel, all_of, cache_pid, filtered, known_of, lowercase_text, opt_lower_matches, passes,
    passes_ascii, selection_ok, visible,
};
use crate::app::types::{
    KeyCode, KeyEvent, KeyEventKind, Mode, WorkModel,
};
use crate::screen::parse::SessionView;
use crate::screen::probe::MetaView;
use crate::text::{
    decimal_of, is_ctrl, is_digit, lower, occurs_at, popped, signed_decimal_of,
};
use crate::text_laws::{
    taking_back_undoes_typing, texts_are_found_where_they_stand_first,
};
use vstd::prelude::*;

verus! {

/// A key that is pressed.
pub open spec fn press(code: KeyCode) -> KeyEvent {
    KeyEvent { code, kind: KeyEventKind::Press }
}

// ---------------------------------------------------------------------------
// The list
// ---------------------------------------------------------------------------
/// The digit `n` selects the session in row `n` and asks to connect to it; a digit
/// without a row, and zero, does nothing.
pub proof fn digits_connect_to_their_row(m: AppModel, n: int)
    requires
        m.mode == Mode::List,
        0 <= n <= 9,
    ensures
        ({
            let key = press(KeyCode::Char((0x30 + n) as char));
            if 1 <= n <= visible(m).len() {
                &&& keyed(m, key) == AppModel { selected: (n - 1) as usize, ..m }
                &&& keyed(m, key).selected == n - 1
                &&& key_work(m, key) == WorkModel::VerifyConnect
            } else {
                &&& keyed(m, key) == m
                &&& key_work(m, key) == WorkModel::Done
            }
        }),
{
}

/// `j` and the arrow down go to the next row, `k` and the arrow up to the previous one;
/// at either end the selection stays. Nothing else changes and nothing is asked for.
pub proof fn arrows_move_by_one_row(m: AppModel)
    requires
        m.mode == Mode::List,
        selection_ok(m),
        visible(m).len() <= usize::MAX,
    ensures
        ({
            let down = keyed(m, press(KeyCode::Down));
            let up = keyed(m, press(KeyCode::Up));
            &&& keyed(m, press(KeyCode::Char('j'))) == down
            &&& keyed(m, press(KeyCode::Char('k'))) == up
            &&& m.selected + 1 < visible(m).len() ==> down.selected == m.selected + 1
            &&& m.selected + 1 >= visible(m).len() ==> down.selected == m.selected
            &&& m.selected > 0 ==> up.selected == m.selected - 1
            &&& m.selected == 0 ==> up.selected == 0
            &&& down == AppModel { selected: down.selected, ..m }
            &&& up == AppModel { selected: up.selected, ..m }
            &&& key_work(m, press(KeyCode::Down)) == WorkModel::Done
            &&& key_work(m, press(KeyCode::Up)) == WorkModel::Done
            &&& key_work(m, press(KeyCode::Char('j'))) == WorkModel::Done
            &&& key_work(m, press(KeyCode::Char('k'))) == WorkModel::Done
        }),
{
}

/// Going down and up again leads back to the row, wherever there is a next one.
pub proof fn up_undoes_down(m: AppModel)
    requires
        m.mode == Mode::List,
        m.selected + 1 < visible(m).len() <= usize::MAX,
    ensures
        keyed(keyed(m, press(KeyCode::Down)), press(KeyCode::Up)) == m,
{
    let n = keyed(m, press(KeyCode::Down));
    assert(visible(n) == visible(m));
}

/// Enter asks to connect to the selected session and `x` to share it, as long as there
/// is one; `n` opens the form, `R` lists again and forgets what was counted, `?` shows
/// the help, `/` opens the filter, `i` shows the details, `q` ends the program. None of them
/// does anything else.
pub proof fn list_keys_do_what_the_help_says(m: AppModel)
    requires
        m.mode == Mode::List,
    ensures
        ({
            let some = visible(m).len() > 0;
            let done = |code: KeyCode| keyed(m, press(code));
            let work = |code: KeyCode| key_work(m, press(code));
            &&& done(KeyCode::Enter) == m && work(KeyCode::Enter) == if some {
                WorkModel::VerifyConnect
            } else {
                WorkModel::Done
            }
            &&& done(KeyCode::Char('x')) == m && work(KeyCode::Char('x')) == if some {
                WorkModel::VerifyShare
            } else {
                WorkModel::Done
            }
            &&& done(KeyCode::Char('n')) == m && work(KeyCode::Char('n')) == WorkModel::OpenForm
            &&& done(KeyCode::Char('R')) == AppModel { window_count_cache: None, ..m } && work(
                KeyCode::Char('R'),
            ) == WorkModel::Refresh
            &&& done(KeyCode::Char('?')) == AppModel { mode: Mode::Help, ..m } && work(
                KeyCode::Char('?'),
            ) == WorkModel::Done
            &&& done(KeyCode::Char('/')) == AppModel { mode: Mode::Filter, ..m } && work(
                KeyCode::Char('/'),
            ) is Probe
            &&& done(KeyCode::Char('i')) == if some {
                AppModel { mode: Mode::Detail, ..m }
            } else {
                m
            }
            &&& done(KeyCode::Char('q')) == AppModel { should_quit: true, ..m } && work(
                KeyCode::Char('q'),
            ) == WorkModel::Done
            &&& done(KeyCode::Esc) == m && work(KeyCode::Esc) == WorkModel::Done
        }),
{
}

proof fn lemma_unknown_pids(sessions: Seq<SessionView>, cache: Map<u32, MetaView>, pid: u32)
    ensures
        unknown_pids(sessions, cache).contains(pid) <==> !cache.contains_key(pid) && exists|i: int|
            0 <= i < sessions.len() && (#[trigger] sessions[i]).pid == Some(pid as i32) && pid
                <= i32::MAX,
    decreases sessions.len(),
{
    let all = unknown_pids(sessions, cache);
    if sessions.len() > 0 {
        let front = sessions.drop_last();
        let rest = unknown_pids(front, cache);
        lemma_unknown_pids(front, cache, pid);
        let last = sessions.last();
        if rest.contains(pid) {
            let i = choose|i: int|
                0 <= i < front.len() && (#[trigger] front[i]).pid == Some(pid as i32) && pid
                    <= i32::MAX;
            assert(sessions[i] == front[i]);
            let k = choose|k: int| 0 <= k < rest.len() && rest[k] == pid;
            assert(all[k] == pid);
        }
        if all.contains(pid) && !rest.contains(pid) {
            let k = choose|k: int| 0 <= k < all.len() && all[k] == pid;
            if k < rest.len() {
                assert(rest[k] == pid);
            }
            assert(cache_pid(last) == Some(pid));
            assert(sessions[sessions.len() - 1].pid == Some(pid as i32));
        }
        if !cache.contains_key(pid) && exists|i: int|
            0 <= i < sessions.len() && (#[trigger] sessions[i]).pid == Some(pid as i32) && pid
                <= i32::MAX {
            let i = choose|i: int|
                0 <= i < sessions.len() && (#[trigger] sessions[i]).pid == Some(pid as i32) && pid
                    <= i32::MAX;
            if i < front.len() {
                assert(front[i] == sessions[i]);
            } else {
                assert(cache_pid(last) == Some(pid));
                assert(all.last() == pid);
            }
        }
    }
}

/// Opening the filter looks up what runs in the sessions of which nothing is known yet:
/// in all of those, and in no others.
pub proof fn the_filter_looks_up_what_is_unknown(m: AppModel, pid: u32)
    requires
        m.mode == Mode::List,
    ensures
        key_work(m, press(KeyCode::Char('/'))) matches WorkModel::Probe(pids) && (pids.contains(
            pid,
        ) <==> !m.meta_cache.contains_key(pid) && exists|i: int|
            0 <= i < all_of(m).len() && (#[trigger] all_of(m)[i]).pid == Some(pid as i32) && pid
                <= i32::MAX),
{
    lemma_unknown_pids(all_of(m), m.meta_cache, pid);
}

// ---------------------------------------------------------------------------
// Filtering
// ---------------------------------------------------------------------------
proof fn lemma_filtered(sessions: Seq<SessionView>, filter: Seq<char>, cache: Map<u32, MetaView>)
    ensures
        filtered(sessions, filter, cache) == sessions.filter(
            |s: SessionView| passes(filter, cache, s),
        ),
    decreases sessions.len(),
{
    reveal(Seq::filter);
    if sessions.len() > 0 {
        lemma_filtered(sessions.drop_last(), filter, cache);
    }
}

/// The rows are the listed sessions that pass the filter, in the order of the listing;
/// without a filter they are all of them.
pub proof fn the_rows_are_what_passes(m: AppModel)
    ensures
        visible(m) == all_of(m).filter(|s: SessionView| passes(m.filter, m.meta_cache, s)),
        m.filter.len() == 0 ==> visible(m) == all_of(m),
        m.enumeration is None ==> visible(m).len() == 0,
        m.enumeration matches Some(e) ==> all_of(m) == e.list.sessions,
{
    lemma_filtered(all_of(m), m.filter, m.meta_cache);
    if m.filter.len() == 0 {
        lemma_all_pass(all_of(m), m.filter, m.meta_cache);
    }
}

proof fn lemma_all_pass(sessions: Seq<SessionView>, filter: Seq<char>, cache: Map<u32, MetaView>)
    requires
        filter.len() == 0,
    ensures
        filtered(sessions, filter, cache) == sessions,
    decreases sessions.len(),
{
    if sessions.len() > 0 {
        lemma_all_pass(sessions.drop_last(), filter, cache);
        assert(sessions.drop_last().push(sessions.last()) =~= sessions);
    }
}

/// Somewhere in the text, in capitals or not, the other one stands.
pub open spec fn holds(text: Seq<char>, part: Seq<char>) -> bool {
    exists|i: int| #[trigger] occurs_at(lowercase_text(text), lowercase_text(part), i)
}

/// A session passes a filter if its name holds it, its number does, or what is known of
/// its command or its directory does, and for no other reason.
pub proof fn filters_look_at_name_number_command_and_directory(
    filter: Seq<char>,
    cache: Map<u32, MetaView>,
    s: SessionView,
    pid: i32,
)
    requires
        filter.len() > 0,
        s.pid == Some(pid),
        pid >= 0,
    ensures
        ({
            let number = exists|i: int| #[trigger]
                occurs_at(decimal_of(pid as nat), lowercase_text(filter), i);
            let known = cache.contains_key(pid as u32);
            let command = known && (cache[pid as u32].command matches Some(c) && holds(c, filter));
            let cwd = known && (cache[pid as u32].cwd matches Some(d) && holds(d, filter));
            passes(filter, cache, s) <==> holds(s.name, filter) || number || command || cwd
        }),
{
    let query = lowercase_text(filter);
    texts_are_found_where_they_stand_first(lowercase_text(s.name), query);
    texts_are_found_where_they_stand_first(decimal_of(pid as nat), query);
    if cache.contains_key(pid as u32) {
        let meta = cache[pid as u32];
        if let Some(c) = meta.command {
            texts_are_found_where_they_stand_first(lowercase_text(c), query);
        }
        if let Some(d) = meta.cwd {
            texts_are_found_where_they_stand_first(lowercase_text(d), query);
        }
    }
}

/// In the filter a character is added at the end and taken away from there; Enter
/// keeps what was typed and leads back to the list, Escape drops it. The selection stays
/// on the list.
pub proof fn filters_are_typed(m: AppModel, c: char)
    requires
        m.mode == Mode::Filter,
        !is_ctrl(c),
    ensures
        ({
            let typed = keyed(m, press(KeyCode::Char(c)));
            let back = keyed(typed, press(KeyCode::Backspace));
            let kept = keyed(m, press(KeyCode::Enter));
            let dropped = keyed(m, press(KeyCode::Esc));
            &&& typed.filter == m.filter + seq![c] && typed.mode == Mode::Filter
            &&& back.filter == m.filter && back.mode == Mode::Filter
            &&& kept.filter == m.filter && kept.mode == Mode::List
            &&& dropped.filter.len() == 0 && dropped.mode == Mode::List
            &&& visible(dropped) == all_of(m)
            &&& selection_ok(typed) && selection_ok(back) && selection_ok(kept) && selection_ok(
                dropped,
            )
            &&& typed.enumeration == m.enumeration && dropped.enumeration == m.enumeration
            &&& m.selected < visible(typed).len() ==> typed.selected == m.selected
        }),
{
    let typed = keyed(m, press(KeyCode::Char(c)));
    let back = keyed(typed, press(KeyCode::Backspace));
    let kept = keyed(m, press(KeyCode::Enter));
    let dropped = keyed(m, press(KeyCode::Esc));
    taking_back_undoes_typing(m.filter, c);
    assert(typed.filter =~= m.filter + seq![c]);
    let a = AppModel { filter: m.filter.push(c), ..m };
    assert(visible(typed) == visible(a));
    assert(visible(back) == visible(AppModel { filter: popped(typed.filter), ..typed }));
    assert(visible(kept) == visible(AppModel { mode: Mode::List, ..m }));
    let d = AppModel { filter: Seq::empty(), mode: Mode::List, ..m };
    assert(visible(dropped) == visible(d));
    lemma_all_pass(all_of(m), Seq::empty(), m.meta_cache);
}

/// The part stands in the text, where both are ASCII and capitals do not count.
pub open spec fn holds_ascii(text: Option<Seq<char>>, part: Seq<char>) -> bool {
    text matches Some(t) && exists|i: int| #[trigger] occurs_at(lower(t), lower(part), i)
}

/// In ASCII, capitals do not count: a session passes if its name, its number, or what is
/// known of its command or directory holds the filter with all letters made small.
pub proof fn capitals_do_not_count_in_filters(
    filter: Seq<char>,
    cache: Map<u32, MetaView>,
    s: SessionView,
    pid: i32,
)
    requires
        filter.len() > 0,
        s.pid == Some(pid),
        pid >= 0,
    ensures
        ({
            let number = exists|i: int| #[trigger]
                occurs_at(decimal_of(pid as nat), lower(filter), i);
            let known = cache.contains_key(pid as u32);
            passes_ascii(filter, cache, s) <==> holds_ascii(Some(s.name), filter) || number || (
            known && (holds_ascii(cache[pid as u32].command, filter) || holds_ascii(
                cache[pid as u32].cwd,
                filter,
            )))
        }),
{
    let query = lower(filter);
    texts_are_found_where_they_stand_first(lower(s.name), query);
    texts_are_found_where_they_stand_first(decimal_of(pid as nat), query);
    assert(signed_decimal_of(pid as int) == decimal_of(pid as nat));
    lemma_holds_ascii(Some(s.name), filter);
    assert(cache_pid(s) == Some(pid as u32));
    let known = known_of(cache, s);
    lemma_holds_ascii(known.command, filter);
    lemma_holds_ascii(known.cwd, filter);
    if cache.contains_key(pid as u32) {
        assert(known == cache[pid as u32]);
    } else {
        assert(known.command is None && known.cwd is None);
    }
}

proof fn lemma_holds_ascii(text: Option<Seq<char>>, part: Seq<char>)
    ensures
        opt_lower_matches(text, lower(part)) == holds_ascii(text, part),
{
    if let Some(t) = text {
        texts_are_found_where_they_stand_first(lower(t), lower(part));
    }
}

// ---------------------------------------------------------------------------
// What lies over the list
// ---------------------------------------------------------------------------
/// The help and a snapshot are closed by `q`, Escape, `i` and `?`, the details by the first
/// three of them; no other key does anything there, but for the two that open the notes.
pub proof fn overlays_are_closed(m: AppModel, code: KeyCode)
    ensures
        ({
            let n = keyed(m, press(code));
            let closed = AppModel { mode: Mode::List, ..m };
            let closes = code == KeyCode::Char('q') || code == KeyCode::Esc || code
                == KeyCode::Char('i');
            let notes = code == KeyCode::Char('a') || code == KeyCode::Char('t');
            &&& m.mode == Mode::Help || m.mode == Mode::Preview ==> n == if closes || code
                == KeyCode::Char('?') {
                closed
            } else {
                m
            }
            &&& m.mode == Mode::Detail && closes ==> n == closed
            &&& m.mode == Mode::Detail && !closes && !notes ==> n == m
            &&& m.mode == Mode::Help || m.mode == Mode::Preview || m.mode == Mode::Detail
                ==> key_work(m, press(code)) == WorkModel::Done
        }),
{
}

/// Keys that mean nothing in the list do nothing there.
pub proof fn other_keys_do_nothing_in_the_list(m: AppModel, code: KeyCode)
    requires
        m.mode == Mode::List,
        match code {
            KeyCode::Char(c) => !is_digit(c) && !"q?jkR/iDKWrxpsXn"@.contains(c),
            KeyCode::Enter => false,
            KeyCode::Up => false,
            KeyCode::Down => false,
            _ => true,
        },
    ensures
        keyed(m, press(code)) == m,
        key_work(m, press(code)) == WorkModel::Done,
{
    reveal_strlit("q?jkR/iDKWrxpsXn");
    let keys = "q?jkR/iDKWrxpsXn"@;
    if let KeyCode::Char(c) = code {
        assert(keys[0] == 'q' && keys[1] == '?' && keys[2] == 'j' && keys[3] == 'k' && keys[4] == 'R'
            && keys[5] == '/' && keys[6] == 'i' && keys[7] == 'D' && keys[8] == 'K' && keys[9] == 'W'
            && keys[10] == 'r' && keys[11] == 'x' && keys[12] == 'p' && keys[13] == 's' && keys[14]
            == 'X' && keys[15] == 'n');
    }
}

} // verus!
