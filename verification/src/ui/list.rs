//! The rows of the list.
//!
//! Where there is little room the name is cut first; the number and the icon of
//! the state always stay.

use crate::app::state::{
    App, AppModel, fmt1, visible,
};
use crate::config::table_get;
use crate::i18n::{
    dict, dict_of, fmt_of,
};
use crate::screen::parse::{
    SessionRecord, SessionView, session_views, status_label,
};
use crate::text::{
    chars_of, clone_opt, decimal, decimal_of, opt_view, signed_decimal, signed_decimal_of,
    string_of,
};
use crate::ui::layout::{
    RowCols, Tier, columns_for,
};
use crate::ui::piece::{
    Piece, PieceModel, Shade, Tone, block_view, line_view, one, plain_piece, plain_tone,
    push_line, push_piece, shaded, single, toned,
};
use crate::ui::theme::{
    color_of, dim, dimmed, icon_of, selected_row, selected_tone, status_color, status_icon,
};
use crate::util::width::{
    clip_with_ellipsis, ellipsis_of, pad_of, pad_right, push_spaces, sanitize, sanitize_of,
    spaces,
};
use vstd::prelude::*;

verus! {

/// The cursor, the number, the icon and the spaces behind them.
pub const PREFIX_COLS: usize = 7;

/// The word for the state, with the space before it.
pub const STATUS_SUFFIX_COLS: usize = 13;

/// The process number and a space.
pub const PID_COLS: usize = 8;

/// The time of creation, with the space before it.
pub const CREATED_COLS: usize = 17;

/// The columns that are not for the name.
pub open spec fn fixed_cols(cols: RowCols) -> int {
    PREFIX_COLS + (if cols.status_text {
        STATUS_SUFFIX_COLS
    } else {
        0
    }) + (if cols.pid {
        PID_COLS
    } else {
        0
    }) + (if cols.created {
        CREATED_COLS
    } else {
        0
    })
}

/// The columns for the name: what the others leave.
pub open spec fn budget_of(width: u16, cols: RowCols) -> nat {
    if width > fixed_cols(cols) {
        (width - fixed_cols(cols)) as nat
    } else {
        0
    }
}

/// The columns for the name.
pub fn name_budget(width: u16, cols: RowCols) -> (r: usize)
    ensures
        r == budget_of(width, cols),
{
    let mut used: usize = PREFIX_COLS;
    if cols.status_text {
        used += STATUS_SUFFIX_COLS;
    }
    if cols.pid {
        used += PID_COLS;
    }
    if cols.created {
        used += CREATED_COLS;
    }
    if width as usize > used {
        width as usize - used
    } else {
        0
    }
}

/// A time of creation, down to the minute.
pub open spec fn created_of(created: Seq<char>) -> Seq<char> {
    let clean = sanitize_of(created);
    clean.take(
        if clean.len() <= 16 {
            clean.len() as int
        } else {
            16
        },
    )
}

/// A time of creation, down to the minute.
pub fn created_display(created: &str) -> (r: String)
    ensures
        r@ == created_of(created@),
{
    let clean: String = sanitize(created);
    let chars: Vec<char> = chars_of(clean.as_str());
    let n: usize = if chars.len() <= 16 {
        chars.len()
    } else {
        16
    };
    let kept: &[char] = vstd::slice::slice_subrange(chars.as_slice(), 0, n);
    assert(kept@ =~= created_of(created@));
    string_of(kept)
}

/// The name, with the alias behind it if there is one.
pub open spec fn shown_name(s: SessionView, alias: Option<Seq<char>>) -> Seq<char> {
    match alias {
        Some(a) if a.len() > 0 => sanitize_of(s.name) + " · "@ + sanitize_of(a),
        _ => sanitize_of(s.name),
    }
}

/// The style of a row's fixed columns.
pub open spec fn row_tone(selected: bool) -> Tone {
    if selected {
        selected_tone()
    } else {
        plain_tone()
    }
}

/// The cursor of the selected row, and a space in the others.
pub open spec fn cursor_of(selected: bool) -> Seq<char> {
    if selected {
        ">"@
    } else {
        " "@
    }
}

/// The cursor, the number and the icon.
pub open spec fn row_prefix(i: nat, s: SessionView, selected: bool) -> Seq<PieceModel> {
    let number = decimal_of(i + 1);
    seq![
        toned(cursor_of(selected) + " "@, row_tone(selected)),
        toned(spaces(2 - number.len()) + number + " "@, row_tone(selected)),
        toned(
            icon_of(s.status) + " "@,
            if selected {
                selected_tone()
            } else {
                shaded(color_of(s.status))
            },
        ),
    ]
}

/// The name in its columns.
pub open spec fn row_name(s: SessionView, budget: nat, alias: Option<Seq<char>>) -> PieceModel {
    plain_piece(pad_of(ellipsis_of(shown_name(s, alias), budget), budget))
}

/// The word for the state, the process number and the time of creation, as far as
/// they have a column.
pub open spec fn row_suffix(s: SessionView, selected: bool, cols: RowCols) -> Seq<PieceModel> {
    let status = if cols.status_text {
        seq![
            toned(
                " "@ + ellipsis_of(status_label(s.status), (STATUS_SUFFIX_COLS - 1) as nat),
                row_tone(selected),
            ),
        ]
    } else {
        Seq::empty()
    };
    let pid = if cols.pid {
        let shown = match s.pid {
            Some(p) => signed_decimal_of(p as int),
            None => Seq::empty(),
        };
        seq![
            plain_piece(
                pad_of(ellipsis_of(shown, (PID_COLS - 1) as nat), (PID_COLS - 1) as nat),
            ),
            plain_piece(" "@),
        ]
    } else {
        Seq::empty()
    };
    let created = if cols.created {
        let shown = match s.created {
            Some(c) => created_of(c),
            None => Seq::empty(),
        };
        seq![
            toned(" "@ + ellipsis_of(shown, (CREATED_COLS - 1) as nat), row_tone(selected)),
        ]
    } else {
        Seq::empty()
    };
    status + pid + created
}

/// A row of the list.
pub open spec fn row_of(
    i: nat,
    s: SessionView,
    selected: bool,
    budget: nat,
    cols: RowCols,
    alias: Option<Seq<char>>,
) -> Seq<PieceModel> {
    row_prefix(i, s, selected).push(row_name(s, budget, alias)) + row_suffix(s, selected, cols)
}

/// A row of the list.
pub fn row_line(
    i: usize,
    session: &SessionRecord,
    selected: bool,
    budget: usize,
    cols: RowCols,
    alias: Option<&str>,
) -> (r: Vec<Piece>)
    requires
        i < usize::MAX,
    ensures
        line_view(r@) == row_of(
            i as nat,
            session@,
            selected,
            budget as nat,
            cols,
            match alias {
                Some(a) => Some(a@),
                None => None,
            },
        ),
{
    let ghost alias_text = match alias {
        Some(a) => Some(a@),
        None => None,
    };
    let base: Tone = if selected {
        selected_row()
    } else {
        Tone { shade: Shade::Default, bold: false, reversed: false }
    };
    let mut line: Vec<Piece> = Vec::new();
    let mut cursor: String = if selected {
        ">".to_owned()
    } else {
        " ".to_owned()
    };
    cursor.append(" ");
    line.push(Piece { text: cursor, tone: base });
    let digits: String = decimal(i as u64 + 1);
    let count: usize = digits.as_str().unicode_len();
    let mut number: String = String::new();
    if count < 2 {
        push_spaces(&mut number, 2 - count);
    }
    assert(number@ =~= spaces(2 - digits@.len()));
    number.append(digits.as_str());
    number.append(" ");
    line.push(Piece { text: number, tone: base });
    let mut icon: String = status_icon(&session.status).to_owned();
    icon.append(" ");
    let icon_tone: Tone = if selected {
        base
    } else {
        Tone { shade: status_color(&session.status), bold: false, reversed: false }
    };
    line.push(Piece { text: icon, tone: icon_tone });
    assert(line_view(line@) =~= row_prefix(i as nat, session@, selected));
    let name: String = name_shown(session, alias);
    let clipped: String = clip_with_ellipsis(name.as_str(), budget);
    push_piece(&mut line, Piece::plain(pad_right(clipped.as_str(), budget).as_str()));
    let ghost upper = line_view(line@);
    assert(upper == row_prefix(i as nat, session@, selected).push(
        row_name(session@, budget as nat, alias_text),
    ));
    if cols.status_text {
        let mut text: String = " ".to_owned();
        let label: String = session.status.label();
        text.append(clip_with_ellipsis(label.as_str(), STATUS_SUFFIX_COLS - 1).as_str());
        push_piece(&mut line, Piece { text, tone: base });
    }
    if cols.pid {
        let shown: String = match session.pid {
            Some(p) => signed_decimal(p as i64),
            None => String::new(),
        };
        assert(session@.pid is None ==> shown@ =~= Seq::empty());
        let clipped: String = clip_with_ellipsis(shown.as_str(), PID_COLS - 1);
        push_piece(
            &mut line,
            Piece::plain(pad_right(clipped.as_str(), PID_COLS - 1).as_str()),
        );
        push_piece(&mut line, Piece::plain(" "));
    }
    if cols.created {
        let shown: String = match &session.created {
            Some(c) => created_display(c.as_str()),
            None => String::new(),
        };
        assert(session@.created is None ==> shown@ =~= Seq::empty());
        let mut text: String = " ".to_owned();
        text.append(clip_with_ellipsis(shown.as_str(), CREATED_COLS - 1).as_str());
        push_piece(&mut line, Piece { text, tone: base });
    }
    assert(line_view(line@) =~= upper + row_suffix(session@, selected, cols));
    line
}

fn name_shown(session: &SessionRecord, alias: Option<&str>) -> (r: String)
    ensures
        r@ == shown_name(
            session@,
            match alias {
                Some(a) => Some(a@),
                None => None,
            },
        ),
{
    let mut name: String = sanitize(session.name.as_str());
    if let Some(a) = alias {
        if !a.is_empty() {
            name.append(" · ");
            name.append(sanitize(a).as_str());
        }
    }
    name
}

/// Number, cursor and icon do not depend on the room there is, and the name never
/// takes more columns than the others leave, as long as there is room for those.
pub proof fn only_the_name_is_cut(
    i: nat,
    s: SessionView,
    selected: bool,
    width: u16,
    cols: RowCols,
    alias: Option<Seq<char>>,
)
    ensures
        row_of(i, s, selected, budget_of(width, cols), cols, alias).take(3) == row_prefix(
            i,
            s,
            selected,
        ),
        row_of(i, s, selected, budget_of(width, cols), cols, alias).skip(4) == row_suffix(
            s,
            selected,
            cols,
        ),
        fixed_cols(cols) <= width ==> fixed_cols(cols) + budget_of(width, cols) == width,
{
    let row = row_of(i, s, selected, budget_of(width, cols), cols, alias);
    assert(row.take(3) =~= row_prefix(i, s, selected));
    assert(row.skip(4) =~= row_suffix(s, selected, cols));
}

/// A row with the mark of the session that the program itself runs in, beside the
/// cursor.
pub open spec fn marked(row: Seq<PieceModel>, selected: bool, own: bool) -> Seq<PieceModel> {
    if own {
        row.update(0, toned(cursor_of(selected) + "@"@, row_tone(selected)))
    } else {
        row
    }
}

/// The alias that is shown for a session: only where there is room for it.
pub open spec fn alias_of(m: AppModel, name: Seq<char>, tier: Tier) -> Option<Seq<char>> {
    if tier == Tier::Wide || tier == Tier::Mid {
        match table_get(m.config.sessions, name) {
            Some(meta) => meta.alias,
            None => None,
        }
    } else {
        None
    }
}

/// The list: its rows, or a hint where there are none.
pub open spec fn list_lines(m: AppModel, width: u16, tier: Tier) -> Seq<Seq<PieceModel>> {
    let t = dict_of(m.lang);
    let all = visible(m);
    let cols = columns_for(tier);
    if all.len() == 0 {
        seq![
            one(
                if m.filter.len() == 0 {
                    t.list_empty@
                } else {
                    fmt_of(t.list_filter_empty@, seq![m.filter])
                },
                dim(),
            ),
        ]
    } else {
        Seq::new(
            all.len(),
            |i: int|
                marked(
                    row_of(
                        i as nat,
                        all[i],
                        i == m.selected,
                        budget_of(width, cols),
                        cols,
                        alias_of(m, all[i].name, tier),
                    ),
                    i == m.selected,
                    m.own == Some(all[i].full),
                ),
        )
    }
}

fn alias_shown(app: &App, name: &str, tier: Tier) -> (r: Option<String>)
    ensures
        opt_view(r) == alias_of(app@, name@, tier),
{
    match tier {
        Tier::Wide | Tier::Mid => match app.config.sessions.get(name) {
            Some(meta) => clone_opt(&meta.alias),
            None => None,
        },
        _ => None,
    }
}

/// Puts the mark beside the cursor.
fn mark(row: &mut Vec<Piece>, selected: bool)
    requires
        old(row)@.len() > 0,
    ensures
        line_view(final(row)@) == marked(line_view(old(row)@), selected, true),
{
    let mut text: String = if selected {
        ">".to_owned()
    } else {
        " ".to_owned()
    };
    text.append("@");
    let tone: Tone = if selected {
        selected_row()
    } else {
        Tone { shade: Shade::Default, bold: false, reversed: false }
    };
    row.set(0, Piece { text, tone });
    assert(line_view(row@) =~= marked(line_view(old(row)@), selected, true));
}

/// The list in a given width.
pub fn render(app: &App, width: u16, tier: Tier) -> (r: Vec<Vec<Piece>>)
    ensures
        block_view(r@) == list_lines(app@, width, tier),
{
    let t = dict(app.lang);
    let sessions: Vec<SessionRecord> = app.sessions();
    let ghost all = session_views(sessions@);
    let mut lines: Vec<Vec<Piece>> = Vec::new();
    if sessions.len() == 0 {
        let hint: String = if app.filter.as_str().is_empty() {
            t.list_empty.to_owned()
        } else {
            fmt1(t.list_filter_empty, app.filter.as_str())
        };
        push_line(&mut lines, single(Piece { text: hint, tone: dimmed() }));
        assert(block_view(lines@) =~= list_lines(app@, width, tier));
        return lines;
    }
    let cols: RowCols = RowCols::for_tier(tier);
    let budget: usize = name_budget(width, cols);
    let mut i: usize = 0;
    while i < sessions.len()
        invariant
            all == session_views(sessions@),
            all == visible(app@),
            all.len() > 0,
            cols == columns_for(tier),
            budget == budget_of(width, cols),
            i <= sessions@.len(),
            block_view(lines@).len() == i,
            forall|k: int|
                0 <= k < i ==> #[trigger] block_view(lines@)[k] == list_lines(
                    app@,
                    width,
                    tier,
                )[k],
        decreases sessions.len() - i,
    {
        let ghost before = block_view(lines@);
        assert(all[i as int] == sessions@[i as int]@);
        let alias: Option<String> = alias_shown(app, sessions[i].name.as_str(), tier);
        let shown: Option<&str> = match &alias {
            Some(a) => Some(a.as_str()),
            None => None,
        };
        let mut row: Vec<Piece> = row_line(
            i,
            &sessions[i],
            i == app.selected,
            budget,
            cols,
            shown,
        );
        assert(line_view(row@).len() == row@.len());
        if app.is_own(sessions[i].full.as_str()) {
            mark(&mut row, i == app.selected);
        }
        push_line(&mut lines, row);
        assert forall|k: int| 0 <= k < i + 1 implies #[trigger] block_view(lines@)[k]
            == list_lines(app@, width, tier)[k] by {
            if k < i {
                assert(block_view(lines@)[k] == before[k]);
            }
        }
        i += 1;
    }
    assert(block_view(lines@) =~= list_lines(app@, width, tier));
    lines
}

/// The cursor marks exactly the selected row, and an `@` beside it exactly the session
/// that the program itself runs in.
pub proof fn the_cursor_marks_the_selection(m: AppModel, width: u16, tier: Tier, i: int)
    requires
        0 <= i < visible(m).len(),
    ensures
        list_lines(m, width, tier).len() == visible(m).len(),
        list_lines(m, width, tier)[i][0].text == cursor_of(i == m.selected) + if m.own == Some(
            visible(m)[i].full,
        ) {
            "@"@
        } else {
            " "@
        },
        list_lines(m, width, tier)[i][0].tone.reversed == (i == m.selected),
{
    let cols = columns_for(tier);
    let row = row_of(
        i as nat,
        visible(m)[i],
        i == m.selected,
        budget_of(width, cols),
        cols,
        alias_of(m, visible(m)[i].name, tier),
    );
    assert(row[0] == row_prefix(i as nat, visible(m)[i], i == m.selected)[0]);
}

} // verus!
