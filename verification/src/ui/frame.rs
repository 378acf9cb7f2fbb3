//! The line at the top and the lines at the bottom.

use crate::app::state::{
    App, AppModel, all_of, fmt1, fmt2, visible,
};
use crate::i18n::{
    dict, dict_of, fmt_of,
};
use crate::screen::parse::{
    SessionRecord, SessionView, Status, session_views,
};
use crate::text::{
    decimal, decimal_of,
};
use crate::app::names::{
    addressed_name, name_at,
};
use crate::util::width::{
    sanitize, sanitize_of,
};
use crate::ui::layout::Tier;
use crate::ui::piece::{
    Piece, PieceModel, Shade, Tone, block_view, bold_tone, line_view, one, pair, plain_piece,
    push_line, push_piece, shaded, single, toned,
};
use crate::ui::theme::{
    dim, dimmed,
};
use vstd::prelude::*;

verus! {

/// How many sessions are in use.
pub open spec fn attached_count(sessions: Seq<SessionView>) -> nat
    decreases sessions.len(),
{
    if sessions.len() == 0 {
        0
    } else {
        attached_count(sessions.drop_last()) + if sessions.last().status is Attached
            || sessions.last().status is Multi {
            1nat
        } else {
            0
        }
    }
}

/// How many sessions are dead.
pub open spec fn dead_count(sessions: Seq<SessionView>) -> nat
    decreases sessions.len(),
{
    if sessions.len() == 0 {
        0
    } else {
        dead_count(sessions.drop_last()) + if sessions.last().status is Dead {
            1nat
        } else {
            0
        }
    }
}

/// How many sessions are in use, and how many are dead.
pub fn status_counts(sessions: &Vec<SessionRecord>) -> (r: (usize, usize))
    ensures
        r.0 == attached_count(session_views(sessions@)),
        r.1 == dead_count(session_views(sessions@)),
{
    let ghost all = session_views(sessions@);
    let mut attached: usize = 0;
    let mut dead: usize = 0;
    let mut i: usize = 0;
    while i < sessions.len()
        invariant
            all == session_views(sessions@),
            i <= sessions@.len(),
            attached <= i,
            dead <= i,
            attached == attached_count(all.take(i as int)),
            dead == dead_count(all.take(i as int)),
        decreases sessions.len() - i,
    {
        assert(all.take(i + 1).drop_last() =~= all.take(i as int));
        assert(all.take(i + 1).last() == sessions@[i as int]@);
        match sessions[i].status {
            Status::Attached | Status::Multi => {
                attached += 1;
            },
            Status::Dead => {
                dead += 1;
            },
            _ => {},
        }
        i += 1;
    }
    assert(all.take(i as int) =~= all);
    (attached, dead)
}

/// The line at the top: how many sessions there are, the version of screen if it is
/// known, and the session that the program itself runs in.
pub open spec fn header_of(m: AppModel) -> Seq<PieceModel> {
    let t = dict_of(m.lang);
    let all = visible(m);
    let counts = seq![
        toned(" stui"@, bold_tone()),
        plain_piece(
            fmt_of(
                t.header_sessions@,
                seq![decimal_of(all.len()), decimal_of(attached_count(all))],
            ),
        ),
    ];
    let dead = if dead_count(all) > 0 {
        seq![
            toned(
                fmt_of(t.header_dead@, seq![decimal_of(dead_count(all))]),
                shaded(Shade::Red),
            ),
        ]
    } else {
        Seq::empty()
    };
    let version = match m.caps.version_text {
        Some(v) => seq![toned("  ·  screen "@ + v, dim())],
        None => Seq::empty(),
    };
    let own = match m.own {
        Some(full) => seq![
            toned(
                fmt_of(t.header_self@, seq![sanitize_of(name_at(all_of(m), full))]),
                shaded(Shade::Green),
            ),
        ],
        None => Seq::empty(),
    };
    counts + dead + version + own
}

/// The line at the top.
pub fn header(app: &App) -> (r: Vec<Piece>)
    ensures
        line_view(r@) == header_of(app@),
{
    let t = dict(app.lang);
    let sessions: Vec<SessionRecord> = app.sessions();
    assert(session_views(sessions@).len() == sessions@.len());
    let (attached, dead) = status_counts(&sessions);
    let counts: String = fmt2(
        t.header_sessions,
        decimal(sessions.len() as u64).as_str(),
        decimal(attached as u64).as_str(),
    );
    let mut line: Vec<Piece> = pair(Piece::bold(" stui"), Piece::plain(counts.as_str()));
    if dead > 0 {
        let text: String = fmt1(t.header_dead, decimal(dead as u64).as_str());
        push_piece(&mut line, Piece::colored(text.as_str(), Shade::Red));
    }
    if let Some(version) = &app.caps.version_text {
        let mut text: String = "  ·  screen ".to_owned();
        text.append(version.as_str());
        push_piece(&mut line, Piece { text, tone: dimmed() });
    }
    if let Some(full) = &app.own {
        let name: String = addressed_name(app.all_sessions(), full.as_str());
        let text: String = fmt1(t.header_self, sanitize(name.as_str()).as_str());
        push_piece(&mut line, Piece::colored(text.as_str(), Shade::Green));
    }
    assert(line_view(line@) =~= header_of(app@));
    line
}

/// How the list is refreshed, and where the sockets are.
pub open spec fn refresh_info(m: AppModel) -> Seq<char> {
    let t = dict_of(m.lang);
    let mode = match m.refresh_interval {
        Some(ms) => fmt_of(t.footer_refresh@, seq![decimal_of((ms / 1000) as nat)]),
        None => t.footer_manual@,
    };
    match m.enumeration {
        Some(e) => match e.list.socket_dir {
            Some(dir) => mode + (" · socket "@ + dir),
            None => mode,
        },
        None => mode,
    }
}

fn info_line(app: &App) -> (r: String)
    ensures
        r@ == refresh_info(app@),
{
    let t = dict(app.lang);
    let mut info: String = match app.refresh_interval {
        Some(ms) => fmt1(t.footer_refresh, decimal(ms / 1000).as_str()),
        None => t.footer_manual.to_owned(),
    };
    if let Some(dir) = app.socket_dir() {
        let mut text: String = " · socket ".to_owned();
        text.append(dir);
        info.append(text.as_str());
    }
    info
}

/// The keys that are named at the bottom.
pub open spec fn key_hints(m: AppModel, tier: Tier) -> Seq<Seq<PieceModel>> {
    let t = dict_of(m.lang);
    let dead = dead_count(visible(m)) > 0;
    match tier {
        Tier::Wide => seq![
            if dead {
                seq![toned(t.footer_wide_1@, dim()), toned(t.footer_wipe_dead@, dim())]
            } else {
                seq![toned(t.footer_wide_1@, dim())]
            },
            seq![toned(t.footer_wide_2@, dim()), toned(refresh_info(m), dim())],
        ],
        Tier::Tiny => seq![seq![toned(t.footer_tiny@, dim())]],
        _ => seq![
            if dead && tier == Tier::Mid {
                seq![toned(t.footer_mid@, dim()), toned(t.footer_wipe@, dim())]
            } else {
                seq![toned(t.footer_mid@, dim())]
            },
        ],
    }
}

/// The filter in force, and how much it lets through.
pub open spec fn filter_mark(m: AppModel) -> PieceModel {
    toned(
        " /"@ + m.filter + " "@ + decimal_of(visible(m).len()) + "/"@ + decimal_of(all_of(m).len()),
        shaded(Shade::Cyan),
    )
}

/// The lines at the bottom: a message if there is one, else the keys, with the
/// filter before them while one is in force.
pub open spec fn footer_of(m: AppModel, tier: Tier) -> Seq<Seq<PieceModel>> {
    match m.status {
        Some(message) => seq![one(message, shaded(Shade::Red))],
        None => {
            let rows = key_hints(m, tier);
            if m.filter.len() == 0 {
                rows
            } else {
                rows.update(0, seq![filter_mark(m)] + rows[0])
            }
        },
    }
}

fn first_hint(app: &App, tier: Tier) -> (r: Vec<Piece>)
    ensures
        line_view(r@) == key_hints(app@, tier)[0],
{
    let t = dict(app.lang);
    let sessions: Vec<SessionRecord> = app.sessions();
    let (attached, dead) = status_counts(&sessions);
    match tier {
        Tier::Wide => {
            if dead > 0 {
                pair(
                    Piece::new(t.footer_wide_1, dimmed()),
                    Piece::new(t.footer_wipe_dead, dimmed()),
                )
            } else {
                single(Piece::new(t.footer_wide_1, dimmed()))
            }
        },
        Tier::Tiny => single(Piece::new(t.footer_tiny, dimmed())),
        Tier::Mid => {
            if dead > 0 {
                pair(Piece::new(t.footer_mid, dimmed()), Piece::new(t.footer_wipe, dimmed()))
            } else {
                single(Piece::new(t.footer_mid, dimmed()))
            }
        },
        Tier::Narrow => single(Piece::new(t.footer_mid, dimmed())),
    }
}

fn filter_piece(app: &App) -> (r: Piece)
    ensures
        r@ == filter_mark(app@),
{
    let sessions: Vec<SessionRecord> = app.sessions();
    assert(session_views(sessions@).len() == sessions@.len());
    let all = app.all_sessions();
    assert(session_views(all@).len() == all@.len());
    let mut text: String = " /".to_owned();
    text.append(app.filter.as_str());
    text.append(" ");
    text.append(decimal(sessions.len() as u64).as_str());
    text.append("/");
    text.append(decimal(all.len() as u64).as_str());
    Piece { text, tone: Tone { shade: Shade::Cyan, bold: false, reversed: false } }
}

/// The lines at the bottom.
pub fn footer(app: &App, tier: Tier) -> (r: Vec<Vec<Piece>>)
    ensures
        block_view(r@) == footer_of(app@, tier),
{
    let t = dict(app.lang);
    let mut lines: Vec<Vec<Piece>> = Vec::new();
    if let Some(message) = &app.status {
        push_line(&mut lines, single(Piece::colored(message.as_str(), Shade::Red)));
        assert(block_view(lines@) =~= footer_of(app@, tier));
        return lines;
    }
    let hint: Vec<Piece> = first_hint(app, tier);
    let ghost plain_first = line_view(hint@);
    let mut first: Vec<Piece> = Vec::new();
    assert(line_view(first@) =~= Seq::empty());
    if !app.filter.as_str().is_empty() {
        push_piece(&mut first, filter_piece(app));
    }
    let ghost mark = line_view(first@);
    let mut rest: Vec<Piece> = hint;
    first.append(&mut rest);
    assert(line_view(first@) =~= mark + plain_first);
    push_line(&mut lines, first);
    match tier {
        Tier::Wide => {
            let info: String = info_line(app);
            push_line(
                &mut lines,
                pair(Piece::new(t.footer_wide_2, dimmed()), Piece { text: info, tone: dimmed() }),
            );
        },
        _ => {},
    }
    assert(app@.filter.len() == 0 ==> mark + plain_first =~= plain_first);
    assert(app@.filter.len() != 0 ==> mark =~= seq![filter_mark(app@)]);
    assert(block_view(lines@) =~= footer_of(app@, tier));
    lines
}

/// The bottom has as many lines as the layout leaves room for, unless it shows a
/// message, which takes one.
pub proof fn footers_fit(m: AppModel, tier: Tier)
    ensures
        footer_of(m, tier).len() == if m.status is None && tier == Tier::Wide {
            2int
        } else {
            1
        },
{
}

} // verus!
