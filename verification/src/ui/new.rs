//! The form for a new session.

use crate::app::types::{
    DraftModel, NewDraft, NewField, field_index, field_label,
};
use crate::i18n::{
    Lang, dict, dict_of,
};
use crate::text::{
    decimal, decimal_of, lines, lines_of, views,
};
use crate::ui::dialog::{
    Dialog, DialogModel, blank, cap, capped,
};
use crate::ui::piece::{
    Piece, PieceModel, Shade, block_view, bold_tone, line_view, one, plain_piece, push_line,
    shaded, single, toned,
};
use crate::ui::theme::{
    dim, dimmed,
};
use crate::util::width::{
    clip_with_ellipsis, display_width, ellipsis_of, push_spaces, spaces, text_columns,
};
use vstd::prelude::*;

verus! {

pub const BOX_WIDTH: u16 = 58;

/// The columns inside the border.
pub const INNER_WIDTH: usize = 56;

/// The columns of the longest label.
pub const FIELD_COLS: usize = 9;

/// The lines of the form without messages and directories.
pub const BASE_CONTENT: usize = 8;

/// The number and the name of a field; in brackets where the focus is.
pub open spec fn focus_mark(d: DraftModel, field: NewField, lang: Lang) -> PieceModel {
    let text = decimal_of(field_index(field) + 1) + " "@ + field_label(field, lang);
    if field == d.focus {
        toned("["@ + text + "]"@, bold_tone())
    } else {
        toned(text + " "@, dim())
    }
}

/// The line that says where the focus is.
pub open spec fn focus_line(d: DraftModel, lang: Lang) -> Seq<PieceModel> {
    seq![
        focus_mark(d, NewField::Name, lang),
        focus_mark(d, NewField::Dir, lang),
        focus_mark(d, NewField::Command, lang),
    ]
}

pub open spec fn value_of(d: DraftModel, field: NewField) -> Seq<char> {
    match field {
        NewField::Name => d.name,
        NewField::Dir => d.dir,
        NewField::Command => d.command,
    }
}

/// A label, with its colon in the same column as every other.
pub open spec fn label_of(field: NewField, lang: Lang) -> Seq<char> {
    let label = field_label(field, lang);
    spaces(FIELD_COLS - text_columns(label)) + label + ":"@
}

/// A field: with a cursor behind it where the focus is, dimmed elsewhere.
pub open spec fn field_line(d: DraftModel, field: NewField, lang: Lang) -> Seq<PieceModel> {
    let label = label_of(field, lang);
    if field == d.focus {
        seq![
            toned(" "@ + label + " "@, bold_tone()),
            plain_piece(
                ellipsis_of(value_of(d, field), (INNER_WIDTH - FIELD_COLS - 4) as nat),
            ),
            toned("▏"@, bold_tone()),
        ]
    } else {
        one(ellipsis_of(" "@ + label + " "@ + value_of(d, field), INNER_WIDTH as nat), dim())
    }
}

/// The lines of a text, each cut to the form.
pub open spec fn message_lines(text: Seq<char>, shade: Shade) -> Seq<Seq<PieceModel>> {
    lines_of(text).map_values(
        |line: Seq<char>| one(ellipsis_of(line, INNER_WIDTH as nat), shaded(shade)),
    )
}

/// The error in red, or else the remark in yellow, or else an empty line.
pub open spec fn message_of(d: DraftModel) -> Seq<Seq<PieceModel>> {
    match d.error {
        Some(error) => message_lines(error, Shade::Red),
        None => match d.note {
            Some(note) => message_lines(note, Shade::Yellow),
            None => seq![seq![plain_piece(Seq::empty())]],
        },
    }
}

/// The directories that a digit picks, while the focus is on the directory.
pub open spec fn recent_lines(d: DraftModel, lang: Lang) -> Seq<Seq<PieceModel>> {
    if d.focus == NewField::Dir && d.recent.len() > 0 {
        seq![one(dict_of(lang).new_recent@, dim())] + Seq::new(
            d.recent.len(),
            |i: int|
                one(
                    ellipsis_of(
                        "  "@ + decimal_of((i + 1) as nat) + " "@ + d.recent[i],
                        INNER_WIDTH as nat,
                    ),
                    dim(),
                ),
        )
    } else {
        Seq::empty()
    }
}

/// The lines of the form.
pub open spec fn form_lines(d: DraftModel, lang: Lang) -> Seq<Seq<PieceModel>> {
    let t = dict_of(lang);
    let empty = seq![plain_piece(Seq::empty())];
    seq![
        focus_line(d, lang),
        empty,
        field_line(d, NewField::Name, lang),
        field_line(d, NewField::Dir, lang),
        field_line(d, NewField::Command, lang),
    ] + recent_lines(d, lang) + message_of(d) + seq![
        empty,
        one(ellipsis_of(t.new_hint@, INNER_WIDTH as nat), dim()),
    ]
}

/// How many lines the message takes beyond the one that is always there.
pub open spec fn message_height(d: DraftModel) -> nat {
    match d.error {
        Some(error) => lines_of(error).len(),
        None => match d.note {
            Some(note) => lines_of(note).len(),
            None => 0,
        },
    }
}

/// The height of the form with its border.
pub open spec fn form_height(d: DraftModel, lang: Lang) -> u16 {
    capped(BASE_CONTENT + message_height(d) + recent_lines(d, lang).len() + 2)
}

pub open spec fn form_of(d: DraftModel, lang: Lang) -> DialogModel {
    DialogModel {
        title: dict_of(lang).new_title@,
        lines: form_lines(d, lang),
        width: BOX_WIDTH,
        height: form_height(d, lang),
    }
}

fn mark(draft: &NewDraft, field: NewField, lang: Lang) -> (r: Piece)
    ensures
        r@ == focus_mark(draft@, field, lang),
{
    let mut text: String = decimal(field.index() as u64 + 1);
    text.append(" ");
    text.append(field.label(lang));
    if field == draft.focus {
        let mut framed: String = "[".to_owned();
        framed.append(text.as_str());
        framed.append("]");
        Piece::bold(framed.as_str())
    } else {
        text.append(" ");
        Piece { text, tone: dimmed() }
    }
}

fn focus_indicator(draft: &NewDraft, lang: Lang) -> (r: Vec<Piece>)
    ensures
        line_view(r@) == focus_line(draft@, lang),
{
    let mut line: Vec<Piece> = Vec::new();
    line.push(mark(draft, NewField::Name, lang));
    line.push(mark(draft, NewField::Dir, lang));
    line.push(mark(draft, NewField::Command, lang));
    assert(line_view(line@) =~= focus_line(draft@, lang));
    line
}

fn field_shown(draft: &NewDraft, field: NewField, lang: Lang) -> (r: Vec<Piece>)
    ensures
        line_view(r@) == field_line(draft@, field, lang),
{
    let value: &str = match field {
        NewField::Name => draft.name.as_str(),
        NewField::Dir => draft.dir.as_str(),
        NewField::Command => draft.command.as_str(),
    };
    let name: &str = field.label(lang);
    let cols: usize = display_width(name);
    let mut label: String = " ".to_owned();
    if cols < FIELD_COLS {
        push_spaces(&mut label, FIELD_COLS - cols);
    }
    assert(label@ =~= " "@ + spaces(FIELD_COLS - cols));
    label.append(name);
    label.append(":");
    label.append(" ");
    assert(label@ =~= " "@ + label_of(field, lang) + " "@);
    if field == draft.focus {
        let clipped: String = clip_with_ellipsis(value, INNER_WIDTH - FIELD_COLS - 4);
        let mut line: Vec<Piece> = Vec::new();
        line.push(Piece::bold(label.as_str()));
        line.push(Piece::plain(clipped.as_str()));
        line.push(Piece::bold("▏"));
        assert(line_view(line@) =~= field_line(draft@, field, lang));
        line
    } else {
        label.append(value);
        let text: String = clip_with_ellipsis(label.as_str(), INNER_WIDTH);
        single(Piece { text, tone: dimmed() })
    }
}

fn push_message(block: &mut Vec<Vec<Piece>>, text: &str, shade: Shade) -> (r: usize)
    ensures
        block_view(final(block)@) == block_view(old(block)@) + message_lines(text@, shade),
        r == lines_of(text@).len(),
{
    let parts: Vec<String> = lines(text);
    let ghost want = message_lines(text@, shade);
    let ghost before = block_view(block@);
    let mut i: usize = 0;
    assert(block_view(block@) =~= before + want.take(0));
    while i < parts.len()
        invariant
            views(parts@) == lines_of(text@),
            want == message_lines(text@, shade),
            i <= parts@.len(),
            block_view(block@) == before + want.take(i as int),
        decreases parts.len() - i,
    {
        assert(views(parts@)[i as int] == parts@[i as int]@);
        let clipped: String = clip_with_ellipsis(parts[i].as_str(), INNER_WIDTH);
        push_line(block, single(Piece::colored(clipped.as_str(), shade)));
        i += 1;
        assert(block_view(block@) =~= before + want.take(i as int));
    }
    assert(views(parts@).len() == parts@.len());
    assert(want.take(i as int) =~= want);
    parts.len()
}

fn push_recent(block: &mut Vec<Vec<Piece>>, draft: &NewDraft, lang: Lang)
    ensures
        block_view(final(block)@) == block_view(old(block)@) + recent_lines(draft@, lang),
{
    let ghost want = recent_lines(draft@, lang);
    let ghost before = block_view(block@);
    assert(draft@.recent.len() == draft.recent@.len());
    let shown: bool = match draft.focus {
        NewField::Dir => draft.recent.len() > 0,
        _ => false,
    };
    if !shown {
        assert(block_view(block@) =~= before + want);
        return;
    }
    let t = dict(lang);
    push_line(block, single(Piece::new(t.new_recent, dimmed())));
    assert(block_view(block@) =~= before + want.take(1));
    let mut i: usize = 0;
    while i < draft.recent.len()
        invariant
            want == recent_lines(draft@, lang),
            draft@.focus == NewField::Dir,
            draft@.recent == views(draft.recent@),
            draft@.recent.len() > 0,
            i <= draft.recent@.len(),
            block_view(block@) == before + want.take(i + 1),
        decreases draft.recent.len() - i,
    {
        assert(draft@.recent[i as int] == draft.recent@[i as int]@);
        let mut text: String = "  ".to_owned();
        text.append(decimal(i as u64 + 1).as_str());
        text.append(" ");
        text.append(draft.recent[i].as_str());
        let clipped: String = clip_with_ellipsis(text.as_str(), INNER_WIDTH);
        let ghost line = one(clipped@, dim());
        assert(want[i + 1] == line);
        push_line(block, single(Piece { text: clipped, tone: dimmed() }));
        i += 1;
        assert(block_view(block@) =~= before + want.take(i + 1));
    }
    assert(want.take(i + 1) =~= want);
}

/// The form for a new session.
pub fn render_overlay(draft: &NewDraft, lang: Lang) -> (r: Dialog)
    ensures
        r@ == form_of(draft@, lang),
{
    let t = dict(lang);
    let mut block: Vec<Vec<Piece>> = Vec::new();
    push_line(&mut block, focus_indicator(draft, lang));
    push_line(&mut block, blank());
    push_line(&mut block, field_shown(draft, NewField::Name, lang));
    push_line(&mut block, field_shown(draft, NewField::Dir, lang));
    push_line(&mut block, field_shown(draft, NewField::Command, lang));
    let ghost upper = block_view(block@);
    assert(upper.len() == 5);
    push_recent(&mut block, draft, lang);
    let ghost middle = block_view(block@);
    assert(middle.len() == block@.len());
    let directories: usize = block.len() - 5;
    let messages: usize = match &draft.error {
        Some(error) => push_message(&mut block, error.as_str(), Shade::Red),
        None => match &draft.note {
            Some(note) => push_message(&mut block, note.as_str(), Shade::Yellow),
            None => {
                push_line(&mut block, blank());
                0
            },
        },
    };
    assert(block_view(block@) =~= middle + message_of(draft@));
    push_line(&mut block, blank());
    let hint: String = clip_with_ellipsis(t.new_hint, INNER_WIDTH);
    push_line(&mut block, single(Piece { text: hint, tone: dimmed() }));
    assert(block_view(block@) =~= form_lines(draft@, lang));
    let height: u16 = cap_sum(BASE_CONTENT, messages, directories);
    Dialog { title: t.new_title.to_owned(), lines: block, width: BOX_WIDTH, height }
}

fn cap_sum(a: usize, b: usize, c: usize) -> (r: u16)
    requires
        a <= 100,
    ensures
        r == capped(a + b + c + 2),
{
    if b > 0xffff || c > 0xffff {
        return u16::MAX;
    }
    cap(a + b + c + 2)
}

/// The form has a mark on exactly one field, and shows every value.
pub proof fn the_focus_is_marked_once(d: DraftModel, field: NewField, lang: Lang)
    ensures
        focus_mark(d, field, lang).tone.bold <==> field == d.focus,
        focus_line(d, lang).len() == 3,
        form_lines(d, lang)[0] == focus_line(d, lang),
        form_lines(d, lang)[2] == field_line(d, NewField::Name, lang),
        form_lines(d, lang)[3] == field_line(d, NewField::Dir, lang),
        form_lines(d, lang)[4] == field_line(d, NewField::Command, lang),
{
}

} // verus!
