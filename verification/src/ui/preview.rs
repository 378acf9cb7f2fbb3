//! The picture of a session.
//!
//! An old picture is never shown in place of a session's own.

use crate::app::state::{
    App, AppModel, fmt2, selected_of,
};
use crate::app::types::{
    PreviewModel, PreviewView,
};
use crate::i18n::{
    Lang, dict, dict_of, fmt_of,
};
use crate::text::{
    same_str, views,
};
use crate::ui::detail::plain_lines;
use crate::ui::piece::{
    Piece, PieceModel, block_view, one, plain_piece, push_line, single,
};
use crate::ui::theme::{
    dim, dimmed,
};
use crate::util::width::{
    clip_with_ellipsis, ellipsis_of, sanitize, sanitize_of,
};
use vstd::prelude::*;

verus! {

/// The lines of a picture, below a line that says when it was taken.
pub open spec fn picture(view: PreviewModel, lang: Lang) -> Seq<Seq<PieceModel>> {
    let t = dict_of(lang);
    let head = one(fmt_of(t.preview_fetched@, seq![view.fetched, view.name]), dim());
    if view.lines.len() == 0 {
        seq![head, seq![plain_piece(t.preview_empty@)]]
    } else {
        seq![head] + plain_lines(view.lines)
    }
}

/// The lines of a picture.
pub fn view_lines(view: &PreviewView, lang: Lang) -> (r: Vec<Vec<Piece>>)
    ensures
        block_view(r@) == picture(view@, lang),
{
    let t = dict(lang);
    let mut lines: Vec<Vec<Piece>> = Vec::new();
    let head: String = fmt2(t.preview_fetched, view.fetched.as_str(), view.name.as_str());
    push_line(&mut lines, single(Piece { text: head, tone: dimmed() }));
    let ghost first = block_view(lines@);
    assert(first =~= seq![one(fmt_of(t.preview_fetched@, seq![view@.fetched, view@.name]), dim())]);
    assert(view@.lines.len() == view.lines@.len());
    if view.lines.len() == 0 {
        push_line(&mut lines, single(Piece::plain(t.preview_empty)));
        assert(block_view(lines@) =~= picture(view@, lang));
        return lines;
    }
    let mut i: usize = 0;
    while i < view.lines.len()
        invariant
            i <= view.lines@.len(),
            block_view(lines@) == first + plain_lines(view@.lines).take(i as int),
            view@.lines == views(view.lines@),
        decreases view.lines.len() - i,
    {
        push_line(&mut lines, single(Piece::plain(view.lines[i].as_str())));
        i += 1;
        assert(block_view(lines@) =~= first + plain_lines(view@.lines).take(i as int));
    }
    assert(block_view(lines@) =~= picture(view@, lang));
    lines
}

/// The picture that the pane shows: only that of the selected session.
pub open spec fn pane_view(m: AppModel) -> Option<PreviewModel> {
    match (m.preview, selected_of(m)) {
        (Some(view), Some(s)) => if s.full == view.full {
            Some(view)
        } else {
            None
        },
        _ => None,
    }
}

/// The picture of the selected session, if there is one.
pub fn pane_lines(app: &App) -> (r: Option<Vec<Vec<Piece>>>)
    ensures
        match pane_view(app@) {
            Some(view) => r matches Some(lines) && block_view(lines@) == picture(view, app@.lang),
            None => r is None,
        },
{
    match &app.preview {
        None => None,
        Some(view) => match app.selected_session() {
            None => None,
            Some(s) => {
                if same_str(s.full.as_str(), view.full.as_str()) {
                    Some(view_lines(view, app.lang))
                } else {
                    None
                }
            },
        },
    }
}

/// The pane: the picture, or how to get one.
pub open spec fn pane_of(m: AppModel) -> Seq<Seq<PieceModel>> {
    match pane_view(m) {
        Some(view) => picture(view, m.lang),
        None => seq![one(dict_of(m.lang).preview_pane_hint@, dim())],
    }
}

/// The pane beside the list.
pub fn render_pane(app: &App) -> (r: Vec<Vec<Piece>>)
    ensures
        block_view(r@) == pane_of(app@),
{
    match pane_lines(app) {
        Some(lines) => lines,
        None => {
            let t = dict(app.lang);
            let mut lines: Vec<Vec<Piece>> = Vec::new();
            push_line(&mut lines, single(Piece::new(t.preview_pane_hint, dimmed())));
            assert(block_view(lines@) =~= pane_of(app@));
            lines
        },
    }
}

/// The pane never shows the picture of a session that is not selected.
pub proof fn the_pane_shows_the_selected_session(m: AppModel)
    ensures
        pane_view(m) matches Some(view) ==> (m.preview == Some(view) && (selected_of(m) matches Some(
            s,
        ) && s.full == view.full)),
        m.preview is None ==> pane_of(m) == seq![one(dict_of(m.lang).preview_pane_hint@, dim())],
{
}

/// A line made safe to show and cut to a width.
pub fn clamp_line(line: &str, max: usize) -> (r: String)
    ensures
        r@ == ellipsis_of(sanitize_of(line@), max as nat),
{
    clip_with_ellipsis(sanitize(line).as_str(), max)
}

} // verus!
