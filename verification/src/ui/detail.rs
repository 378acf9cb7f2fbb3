//! The details of a session. What is not known has no line.

use crate::app::state::{
    App, AppModel, selected_of,
};
use crate::config::{
    MetaModel, SessionMeta, keep_non_empty, non_empty, table_get,
};
use crate::i18n::{
    Lang, dict, dict_of,
};
use crate::screen::parse::{
    SessionRecord, SessionView, push_string, status_label,
};
use crate::screen::probe::{
    Meta, MetaView,
};
use crate::text::{
    clone_opt, decimal, decimal_of, opt_view, signed_decimal, signed_decimal_of, views,
};
use crate::ui::piece::{
    Piece, PieceModel, block_view, plain_piece, push_line, single,
};
use crate::util::width::{
    pad_of, pad_right,
};
use vstd::prelude::*;

verus! {

/// The columns of the labels.
pub const LABEL_COLS: usize = 10;

/// A line with a label.
pub open spec fn field_of(label: Seq<char>, value: Seq<char>) -> Seq<char> {
    pad_of(label, LABEL_COLS as nat) + value
}

/// A line for a value, if there is one.
pub open spec fn optional(label: Seq<char>, value: Option<Seq<char>>) -> Seq<Seq<char>> {
    match value {
        Some(v) => seq![field_of(label, v)],
        None => Seq::empty(),
    }
}

/// A line for a text, unless it is missing or empty.
pub open spec fn filled(label: Seq<char>, value: Option<Seq<char>>) -> Seq<Seq<char>> {
    optional(label, non_empty(value))
}

/// Everything that is known of a session: what is listed, how many windows it
/// has, what runs in it, and what the user noted.
pub open spec fn detail_of(
    s: SessionView,
    meta: Option<MetaView>,
    windows: Option<usize>,
    record: Option<MetaModel>,
    lang: Lang,
) -> Seq<Seq<char>> {
    let t = dict_of(lang);
    let pid = match s.pid {
        Some(p) => Some(signed_decimal_of(p as int)),
        None => None,
    };
    let count = match windows {
        Some(n) => Some(decimal_of(n as nat)),
        None => None,
    };
    let running = match meta {
        Some(m) => optional(t.dl_cwd@, m.cwd) + optional(t.dl_command@, m.command),
        None => Seq::empty(),
    };
    let noted = match record {
        Some(r) => filled(t.dl_alias@, r.alias) + filled(t.dl_note@, r.note) + if r.managed {
            seq![field_of(t.dl_managed@, t.dl_managed_yes@)]
        } else {
            Seq::empty()
        },
        None => Seq::empty(),
    };
    seq![field_of(t.dl_name@, s.name), field_of(t.dl_address@, s.full)] + optional(t.dl_pid@, pid)
        + seq![field_of(t.dl_status@, status_label(s.status))] + optional(t.dl_created@, s.created)
        + optional(t.dl_windows@, count) + running + noted
}

fn push_field(lines: &mut Vec<String>, label: &str, value: &str)
    ensures
        views(final(lines)@) == views(old(lines)@) + seq![field_of(label@, value@)],
{
    let ghost before = views(lines@);
    let mut line: String = pad_right(label, LABEL_COLS);
    line.append(value);
    push_string(lines, line);
    assert(views(lines@) =~= before + seq![field_of(label@, value@)]);
}

fn push_optional(lines: &mut Vec<String>, label: &str, value: &Option<String>)
    ensures
        views(final(lines)@) == views(old(lines)@) + optional(label@, opt_view(*value)),
{
    match value {
        Some(v) => {
            push_field(lines, label, v.as_str());
        },
        None => {
            assert(views(lines@) + Seq::<Seq<char>>::empty() =~= views(lines@));
        },
    }
}

/// Everything that is known of a session.
pub fn session_lines(
    session: &SessionRecord,
    meta: &Option<Meta>,
    windows: Option<usize>,
    record: Option<&SessionMeta>,
    lang: Lang,
) -> (r: Vec<String>)
    ensures
        views(r@) == detail_of(
            session@,
            match *meta {
                Some(m) => Some(m@),
                None => None,
            },
            windows,
            match record {
                Some(m) => Some(m@),
                None => None,
            },
            lang,
        ),
{
    let t = dict(lang);
    let mut lines: Vec<String> = Vec::new();
    assert(views(lines@) =~= Seq::empty());
    push_field(&mut lines, t.dl_name, session.name.as_str());
    push_field(&mut lines, t.dl_address, session.full.as_str());
    assert(views(lines@) =~= seq![
        field_of(t.dl_name@, session@.name),
        field_of(t.dl_address@, session@.full),
    ]);
    let pid: Option<String> = match session.pid {
        Some(p) => Some(signed_decimal(p as i64)),
        None => None,
    };
    push_optional(&mut lines, t.dl_pid, &pid);
    let status: String = session.status.label();
    push_field(&mut lines, t.dl_status, status.as_str());
    push_optional(&mut lines, t.dl_created, &session.created);
    let count: Option<String> = match windows {
        Some(n) => Some(decimal(n as u64)),
        None => None,
    };
    push_optional(&mut lines, t.dl_windows, &count);
    let ghost listed = views(lines@);
    match meta {
        Some(m) => {
            push_optional(&mut lines, t.dl_cwd, &m.cwd);
            push_optional(&mut lines, t.dl_command, &m.command);
            assert(views(lines@) =~= listed + (optional(t.dl_cwd@, m@.cwd) + optional(
                t.dl_command@,
                m@.command,
            )));
        },
        None => {
            assert(views(lines@) =~= listed + Seq::<Seq<char>>::empty());
        },
    }
    let ghost running = views(lines@);
    match record {
        Some(m) => {
            push_optional(&mut lines, t.dl_alias, &keep_non_empty(clone_opt(&m.alias)));
            push_optional(&mut lines, t.dl_note, &keep_non_empty(clone_opt(&m.note)));
            if m.managed {
                push_field(&mut lines, t.dl_managed, t.dl_managed_yes);
            }
            assert(views(lines@) =~= running + (filled(t.dl_alias@, m@.alias) + filled(
                t.dl_note@,
                m@.note,
            ) + if m@.managed {
                seq![field_of(t.dl_managed@, t.dl_managed_yes@)]
            } else {
                Seq::empty()
            }));
        },
        None => {
            assert(views(lines@) =~= running + Seq::<Seq<char>>::empty());
        },
    }
    lines
}

/// The details of the selected session.
pub open spec fn selected_detail(m: AppModel) -> Option<Seq<Seq<char>>> {
    match selected_of(m) {
        Some(s) => Some(
            detail_of(s, m.meta, m.window_count, table_get(m.config.sessions, s.name), m.lang),
        ),
        None => None,
    }
}

/// The details of the selected session.
pub fn selected_lines(app: &App) -> (r: Option<Vec<String>>)
    ensures
        match selected_detail(app@) {
            Some(lines) => r matches Some(v) && views(v@) == lines,
            None => r is None,
        },
{
    match app.selected_session() {
        Some(s) => {
            let record = app.config.sessions.get(s.name.as_str());
            Some(session_lines(&s, &app.meta, app.window_count, record, app.lang))
        },
        None => None,
    }
}

/// A line of plain text for each text.
pub open spec fn plain_lines(texts: Seq<Seq<char>>) -> Seq<Seq<PieceModel>> {
    texts.map_values(|s: Seq<char>| seq![plain_piece(s)])
}

/// A line of plain text for each text.
pub fn as_lines(texts: &Vec<String>) -> (r: Vec<Vec<Piece>>)
    ensures
        block_view(r@) == plain_lines(views(texts@)),
        r@.len() == texts@.len(),
{
    let mut lines: Vec<Vec<Piece>> = Vec::new();
    let mut i: usize = 0;
    while i < texts.len()
        invariant
            i <= texts@.len(),
            lines@.len() == i,
            block_view(lines@) == plain_lines(views(texts@)).take(i as int),
        decreases texts.len() - i,
    {
        push_line(&mut lines, single(Piece::plain(texts[i].as_str())));
        i += 1;
        assert(block_view(lines@) =~= plain_lines(views(texts@)).take(i as int));
    }
    assert(block_view(lines@) =~= plain_lines(views(texts@)));
    lines
}

/// The panel: the details, or that nothing is selected.
pub open spec fn panel_of(m: AppModel) -> Seq<Seq<PieceModel>> {
    match selected_detail(m) {
        Some(lines) => plain_lines(lines),
        None => seq![seq![plain_piece(dict_of(m.lang).detail_nothing@)]],
    }
}

/// The panel with the details.
pub fn render_panel(app: &App) -> (r: Vec<Vec<Piece>>)
    ensures
        block_view(r@) == panel_of(app@),
{
    match selected_lines(app) {
        Some(lines) => as_lines(&lines),
        None => {
            let t = dict(app.lang);
            let mut lines: Vec<Vec<Piece>> = Vec::new();
            push_line(&mut lines, single(Piece::plain(t.detail_nothing)));
            assert(block_view(lines@) =~= panel_of(app@));
            lines
        },
    }
}

/// A session of which nothing but the listing is known has no line for anything
/// else; the first two lines always say which session it is.
pub proof fn details_are_not_made_up(s: SessionView, lang: Lang)
    ensures
        ({
            let t = dict_of(lang);
            let lines = detail_of(s, None, None, None, lang);
            &&& lines.len() == 3 + (if s.pid is Some {
                1int
            } else {
                0
            }) + (if s.created is Some {
                1int
            } else {
                0
            })
            &&& lines[0] == field_of(t.dl_name@, s.name)
            &&& lines[1] == field_of(t.dl_address@, s.full)
        }),
{
}

} // verus!
