//! The boxes that open over the list.

use crate::app::state::{
    App, AppModel, all_of, fmt1, fmt2, visible,
};
use crate::app::types::{
    AttachChoice, ChoiceModel, ConfirmAction, ConfirmModel, MetaEdit, MetaEditModel, Mode,
    PreviewModel, PreviewView, RenameDraft, RenameModel, action_consequence, action_label,
    meta_key,
};
use crate::i18n::{
    Lang, dict, dict_of, fmt_of,
};
use crate::text::{
    decimal, decimal_of, opt_view, views,
};
use crate::ui::detail::{
    as_lines, plain_lines, selected_detail, selected_lines,
};
use crate::ui::new::{
    form_of, render_overlay,
};
use crate::ui::piece::{
    Piece, PieceModel, Shade, Tone, block_view, bold_tone, line_view, one, pair, plain_piece,
    plain_tone, push_line, shaded, single, toned,
};
use crate::ui::preview::{
    picture, view_lines,
};
use crate::ui::theme::{
    dim, dimmed, selected_row, selected_tone,
};
use crate::util::width::{
    display_width, push_spaces, spaces, text_columns,
};
use vstd::prelude::*;

verus! {

/// A box with a title. It is shown in the middle of the screen, and cut to it.
#[derive(Debug)]
pub struct Dialog {
    pub title: String,
    pub lines: Vec<Vec<Piece>>,
    pub width: u16,
    pub height: u16,
}

/// The model of a [`Dialog`].
#[verifier::ext_equal]
pub struct DialogModel {
    pub title: Seq<char>,
    pub lines: Seq<Seq<PieceModel>>,
    pub width: u16,
    pub height: u16,
}

impl View for Dialog {
    type V = DialogModel;

    open spec fn view(&self) -> DialogModel {
        DialogModel {
            title: self.title@,
            lines: block_view(self.lines@),
            width: self.width,
            height: self.height,
        }
    }
}

/// A size as far as a screen can have it.
pub open spec fn capped(n: int) -> u16 {
    if n <= u16::MAX {
        n as u16
    } else {
        u16::MAX
    }
}

pub fn cap(n: usize) -> (r: u16)
    ensures
        r == capped(n as int),
{
    if n <= u16::MAX as usize {
        n as u16
    } else {
        u16::MAX
    }
}

/// A box that is as high as its lines and its border.
pub open spec fn boxed(title: Seq<char>, lines: Seq<Seq<PieceModel>>, width: u16) -> DialogModel {
    DialogModel { title, lines, width, height: capped((lines.len() + 2) as int) }
}

fn box_of(title: &str, lines: Vec<Vec<Piece>>, width: u16) -> (r: Dialog)
    ensures
        r@ == boxed(title@, block_view(lines@), width),
{
    assert(block_view(lines@).len() == lines@.len());
    let n: usize = lines.len();
    let height: u16 = if n <= 0xfffd {
        cap(n + 2)
    } else {
        u16::MAX
    };
    Dialog { title: title.to_owned(), lines, width, height }
}

/// An empty line.
pub fn blank() -> (r: Vec<Piece>)
    ensures
        line_view(r@) == seq![plain_piece(Seq::empty())],
{
    proof {
        reveal_strlit("");
        assert(""@ =~= Seq::empty());
    }
    single(Piece::plain(""))
}

pub open spec fn blank_line() -> Seq<PieceModel> {
    seq![plain_piece(Seq::empty())]
}

/// An error in red, if there is one.
pub open spec fn error_lines(error: Option<Seq<char>>) -> Seq<Seq<PieceModel>> {
    match error {
        Some(e) => seq![one(e, shaded(Shade::Red))],
        None => Seq::empty(),
    }
}

fn push_error(lines: &mut Vec<Vec<Piece>>, error: &Option<String>)
    ensures
        block_view(final(lines)@) == block_view(old(lines)@) + error_lines(opt_view(*error)),
{
    let ghost before = block_view(lines@);
    if let Some(e) = error {
        push_line(lines, single(Piece::colored(e.as_str(), Shade::Red)));
    }
    assert(block_view(lines@) =~= before + error_lines(opt_view(*error)));
}

fn push_bold(lines: &mut Vec<Vec<Piece>>, mark: &str, text: &str)
    ensures
        block_view(final(lines)@) == block_view(old(lines)@).push(one(mark@ + text@, bold_tone())),
{
    let mut shown: String = mark.to_owned();
    shown.append(text);
    push_line(lines, single(Piece::bold(shown.as_str())));
}

fn push_dimmed(lines: &mut Vec<Vec<Piece>>, text: &str)
    ensures
        block_view(final(lines)@) == block_view(old(lines)@).push(one(text@, dim())),
{
    push_line(lines, single(Piece::new(text, dimmed())));
}

fn push_plain(lines: &mut Vec<Vec<Piece>>, text: &str)
    ensures
        block_view(final(lines)@) == block_view(old(lines)@).push(seq![plain_piece(text@)]),
{
    push_line(lines, single(Piece::plain(text)));
}

// ---------------------------------------------------------------------------
// Fields to type in
// ---------------------------------------------------------------------------
/// The field for an alias or a note.
pub open spec fn meta_edit_of(e: MetaEditModel, lang: Lang) -> DialogModel {
    let t = dict_of(lang);
    boxed(
        t.meta_title@,
        seq![
            seq![plain_piece(fmt_of(t.meta_line@, seq![meta_key(e.field, lang), e.session]))],
            one(" "@ + e.value, bold_tone()),
            blank_line(),
        ] + error_lines(e.error) + seq![one(t.meta_hint@, dim())],
        52,
    )
}

pub fn meta_edit_dialog(edit: &MetaEdit, lang: Lang) -> (r: Dialog)
    ensures
        r@ == meta_edit_of(edit@, lang),
{
    let t = dict(lang);
    let mut lines: Vec<Vec<Piece>> = Vec::new();
    let line: String = fmt2(t.meta_line, edit.field.key(lang), edit.session.as_str());
    push_plain(&mut lines, line.as_str());
    push_bold(&mut lines, " ", edit.value.as_str());
    push_line(&mut lines, blank());
    push_error(&mut lines, &edit.error);
    push_dimmed(&mut lines, t.meta_hint);
    let ghost want = meta_edit_of(edit@, lang);
    assert(block_view(lines@) =~= want.lines);
    box_of(t.meta_title, lines, 52)
}

/// The field for a filter, and how many sessions it lets through.
pub open spec fn filter_input_of(m: AppModel) -> DialogModel {
    let t = dict_of(m.lang);
    boxed(
        t.filter_title@,
        seq![
            one(" /"@ + m.filter, bold_tone()),
            blank_line(),
            one(
                fmt_of(
                    t.filter_match@,
                    seq![decimal_of(visible(m).len()), decimal_of(all_of(m).len())],
                ),
                dim(),
            ),
            one(t.filter_hint@, dim()),
        ],
        40,
    )
}

pub fn filter_dialog(app: &App) -> (r: Dialog)
    ensures
        r@ == filter_input_of(app@),
{
    let t = dict(app.lang);
    let sessions = app.sessions();
    assert(visible(app@).len() == sessions@.len());
    let all = app.all_sessions();
    assert(all_of(app@).len() == all@.len());
    let count: String = fmt2(
        t.filter_match,
        decimal(sessions.len() as u64).as_str(),
        decimal(all.len() as u64).as_str(),
    );
    let mut lines: Vec<Vec<Piece>> = Vec::new();
    push_bold(&mut lines, " /", app.filter.as_str());
    push_line(&mut lines, blank());
    push_dimmed(&mut lines, count.as_str());
    push_dimmed(&mut lines, t.filter_hint);
    assert(block_view(lines@) =~= filter_input_of(app@).lines);
    box_of(t.filter_title, lines, 40)
}

/// The field for a new name.
pub open spec fn rename_of(d: RenameModel, lang: Lang) -> DialogModel {
    let t = dict_of(lang);
    boxed(
        t.rename_title@,
        seq![
            seq![plain_piece(t.rename_new_name@)],
            one(" "@ + d.name, bold_tone()),
            blank_line(),
        ] + error_lines(d.error) + seq![one(t.rename_hint@, dim())],
        46,
    )
}

pub fn rename_dialog(draft: &RenameDraft, lang: Lang) -> (r: Dialog)
    ensures
        r@ == rename_of(draft@, lang),
{
    let t = dict(lang);
    let mut lines: Vec<Vec<Piece>> = Vec::new();
    push_plain(&mut lines, t.rename_new_name);
    push_bold(&mut lines, " ", draft.name.as_str());
    push_line(&mut lines, blank());
    push_error(&mut lines, &draft.error);
    push_dimmed(&mut lines, t.rename_hint);
    assert(block_view(lines@) =~= rename_of(draft@, lang).lines);
    box_of(t.rename_title, lines, 46)
}

// ---------------------------------------------------------------------------
// Questions
// ---------------------------------------------------------------------------
/// What `str::to_uppercase` gives.
pub uninterp spec fn uppercase_text(s: Seq<char>) -> Seq<char>;

/// `str::to_uppercase`: the text in capital letters, as Unicode has them. Which
/// letters become which is only named.
#[verifier::external_body]
fn to_uppercase(s: &str) -> (r: String)
    ensures
        r@ == uppercase_text(s@),
{
    s.to_uppercase()
}

/// The question before a dangerous action: what it does, to which session, and
/// what runs there. What Enter would choose is marked.
pub open spec fn confirm_of(c: ConfirmModel, lang: Lang) -> DialogModel {
    let t = dict_of(lang);
    let red_bold = Tone { shade: Shade::Red, bold: true, reversed: false };
    let command = match c.command {
        Some(text) => seq![seq![plain_piece(fmt_of(t.confirm_command@, seq![text]))]],
        None => Seq::empty(),
    };
    boxed(
        " "@ + uppercase_text(action_label(c.kind, lang)) + " "@,
        seq![
            one(
                fmt_of(t.confirm_title@, seq![action_consequence(c.kind, lang)]),
                red_bold,
            ),
            blank_line(),
            seq![plain_piece(fmt_of(t.confirm_session@, seq![c.display]))],
        ] + command + seq![
            blank_line(),
            seq![
                toned(
                    t.confirm_yes@,
                    if c.focus_yes {
                        selected_tone()
                    } else {
                        plain_tone()
                    },
                ),
                toned(
                    t.confirm_cancel@,
                    if c.focus_yes {
                        plain_tone()
                    } else {
                        selected_tone()
                    },
                ),
            ],
            one(t.confirm_hint@, dim()),
        ],
        62,
    )
}

pub fn confirm_dialog(confirm: &ConfirmAction, lang: Lang) -> (r: Dialog)
    ensures
        r@ == confirm_of(confirm@, lang),
{
    let t = dict(lang);
    let mut lines: Vec<Vec<Piece>> = Vec::new();
    let title: String = fmt1(t.confirm_title, confirm.kind.consequence(lang));
    push_line(
        &mut lines,
        single(
            Piece {
                text: title,
                tone: Tone { shade: Shade::Red, bold: true, reversed: false },
            },
        ),
    );
    push_line(&mut lines, blank());
    push_plain(&mut lines, fmt1(t.confirm_session, confirm.display.as_str()).as_str());
    if let Some(command) = &confirm.command {
        push_plain(&mut lines, fmt1(t.confirm_command, command.as_str()).as_str());
    }
    push_line(&mut lines, blank());
    let plain: Tone = Tone { shade: Shade::Default, bold: false, reversed: false };
    let (yes, no): (Tone, Tone) = if confirm.focus_yes {
        (selected_row(), plain)
    } else {
        (plain, selected_row())
    };
    push_line(
        &mut lines,
        pair(Piece::new(t.confirm_yes, yes), Piece::new(t.confirm_cancel, no)),
    );
    push_dimmed(&mut lines, t.confirm_hint);
    assert(block_view(lines@) =~= confirm_of(confirm@, lang).lines);
    let mut heading: String = " ".to_owned();
    heading.append(to_uppercase(confirm.kind.label(lang)).as_str());
    heading.append(" ");
    box_of(heading.as_str(), lines, 62)
}

/// The choice between sharing and taking over.
pub open spec fn choice_of(c: ChoiceModel, lang: Lang) -> DialogModel {
    let t = dict_of(lang);
    let note = match c.note {
        Some(text) => seq![one(text, shaded(Shade::Yellow))],
        None => Seq::empty(),
    };
    boxed(
        t.attach_title@,
        seq![
            one(fmt_of(t.attach_line@, seq![c.name]), bold_tone()),
            blank_line(),
            seq![toned(" 1 "@, bold_tone()), plain_piece(t.attach_share@)],
            seq![toned(" 2 "@, bold_tone()), plain_piece(t.attach_takeover@)],
            blank_line(),
        ] + note + seq![one(t.attach_hint@, dim())],
        44,
    )
}

pub fn attach_dialog(choice: &AttachChoice, lang: Lang) -> (r: Dialog)
    ensures
        r@ == choice_of(choice@, lang),
{
    let t = dict(lang);
    let mut lines: Vec<Vec<Piece>> = Vec::new();
    push_line(
        &mut lines,
        single(Piece::bold(fmt1(t.attach_line, choice.name.as_str()).as_str())),
    );
    push_line(&mut lines, blank());
    push_line(&mut lines, pair(Piece::bold(" 1 "), Piece::plain(t.attach_share)));
    push_line(&mut lines, pair(Piece::bold(" 2 "), Piece::plain(t.attach_takeover)));
    push_line(&mut lines, blank());
    if let Some(note) = &choice.note {
        push_line(&mut lines, single(Piece::colored(note.as_str(), Shade::Yellow)));
    }
    push_dimmed(&mut lines, t.attach_hint);
    assert(block_view(lines@) =~= choice_of(choice@, lang).lines);
    box_of(t.attach_title, lines, 44)
}

// ---------------------------------------------------------------------------
// Texts to read
// ---------------------------------------------------------------------------
/// A key and what it does.
pub open spec fn help_line(key: Seq<char>, what: Seq<char>) -> Seq<PieceModel> {
    seq![toned(" "@ + key + spaces(8 - key.len()), bold_tone()), plain_piece(what)]
}

/// What the mark in the list says, while there is one.
pub open spec fn mark_help(m: AppModel) -> Seq<Seq<PieceModel>> {
    if m.own is Some {
        seq![help_line("@"@, dict_of(m.lang).desc_self_marker@)]
    } else {
        Seq::empty()
    }
}

/// The keys, and the version of screen.
pub open spec fn help_of(m: AppModel) -> DialogModel {
    let t = dict_of(m.lang);
    let version = match m.caps.version_text {
        Some(v) => v,
        None => t.version_unknown@,
    };
    DialogModel {
        title: t.help_title@,
        lines: mark_help(m) + seq![
            help_line("j/k / ↑/↓"@, t.desc_move@),
            help_line("Enter"@, t.desc_attach@),
            help_line("1-9"@, t.desc_quick@),
            help_line("x"@, t.desc_share@),
            help_line("p"@, t.desc_preview@),
            help_line("n"@, t.desc_new@),
            help_line("i"@, t.desc_detail@),
            help_line("/"@, t.desc_filter@),
            help_line("D"@, t.desc_detach@),
            help_line("K"@, t.desc_kill@),
            help_line("r"@, t.desc_rename@),
            help_line("W"@, t.desc_wipe@),
            help_line("R"@, t.desc_refresh@),
            help_line("q / Esc"@, t.desc_quit@),
            blank_line(),
            one("screen "@ + version, dim()),
        ],
        width: 52,
        height: if m.own is Some {
            16
        } else {
            15
        },
    }
}

fn push_help(lines: &mut Vec<Vec<Piece>>, key: &str, what: &str)
    ensures
        block_view(final(lines)@) == block_view(old(lines)@).push(help_line(key@, what@)),
{
    let n: usize = key.unicode_len();
    let mut shown: String = " ".to_owned();
    shown.append(key);
    if n < 8 {
        push_spaces(&mut shown, 8 - n);
    }
    assert(shown@ =~= " "@ + key@ + spaces(8 - key@.len()));
    push_line(lines, pair(Piece::bold(shown.as_str()), Piece::plain(what)));
}

pub fn help_dialog(app: &App) -> (r: Dialog)
    ensures
        r@ == help_of(app@),
{
    let t = dict(app.lang);
    let mut lines: Vec<Vec<Piece>> = Vec::new();
    assert(block_view(lines@) =~= Seq::empty());
    if app.own.is_some() {
        push_help(&mut lines, "@", t.desc_self_marker);
    }
    push_help(&mut lines, "j/k / ↑/↓", t.desc_move);
    push_help(&mut lines, "Enter", t.desc_attach);
    push_help(&mut lines, "1-9", t.desc_quick);
    push_help(&mut lines, "x", t.desc_share);
    push_help(&mut lines, "p", t.desc_preview);
    push_help(&mut lines, "n", t.desc_new);
    push_help(&mut lines, "i", t.desc_detail);
    push_help(&mut lines, "/", t.desc_filter);
    push_help(&mut lines, "D", t.desc_detach);
    push_help(&mut lines, "K", t.desc_kill);
    push_help(&mut lines, "r", t.desc_rename);
    push_help(&mut lines, "W", t.desc_wipe);
    push_help(&mut lines, "R", t.desc_refresh);
    push_help(&mut lines, "q / Esc", t.desc_quit);
    push_line(&mut lines, blank());
    let version: &str = match &app.caps.version_text {
        Some(v) => v.as_str(),
        None => t.version_unknown,
    };
    let mut text: String = "screen ".to_owned();
    text.append(version);
    push_dimmed(&mut lines, text.as_str());
    assert(block_view(lines@) =~= help_of(app@).lines);
    let height: u16 = if app.own.is_some() {
        16
    } else {
        15
    };
    Dialog { title: t.help_title.to_owned(), lines, width: 52, height }
}

/// The widest of some texts.
pub open spec fn widest_text(texts: Seq<Seq<char>>) -> nat
    decreases texts.len(),
{
    if texts.len() == 0 {
        0
    } else {
        let rest = widest_text(texts.drop_last());
        let last = text_columns(texts.last());
        if last > rest {
            last
        } else {
            rest
        }
    }
}

fn widest(texts: &Vec<String>) -> (r: usize)
    ensures
        r == widest_text(views(texts@)),
{
    let ghost all = views(texts@);
    let mut max: usize = 0;
    let mut i: usize = 0;
    while i < texts.len()
        invariant
            all == views(texts@),
            i <= texts@.len(),
            max == widest_text(all.take(i as int)),
        decreases texts.len() - i,
    {
        assert(all.take(i + 1).drop_last() =~= all.take(i as int));
        let w: usize = display_width(texts[i].as_str());
        if w > max {
            max = w;
        }
        i += 1;
    }
    assert(all.take(i as int) =~= all);
    max
}

/// The details of the selected session, in a box that is as large as they are,
/// with the keys that edit what was noted.
pub open spec fn detail_dialog_of(m: AppModel) -> Option<DialogModel> {
    let t = dict_of(m.lang);
    match selected_detail(m) {
        Some(lines) => Some(
            DialogModel {
                title: t.detail_title@,
                lines: plain_lines(lines) + seq![blank_line(), one(t.detail_hint@, dim())],
                width: capped((widest_text(lines) + 2) as int),
                height: capped((lines.len() + 2) as int),
            },
        ),
        None => None,
    }
}

pub fn detail_dialog(app: &App) -> (r: Option<Dialog>)
    ensures
        match detail_dialog_of(app@) {
            Some(d) => r matches Some(x) && x@ == d,
            None => r is None,
        },
{
    match selected_lines(app) {
        None => None,
        Some(texts) => {
            let t = dict(app.lang);
            let w: usize = widest(&texts);
            let width: u16 = if w <= 0xfffd {
                cap(w + 2)
            } else {
                u16::MAX
            };
            assert(views(texts@).len() == texts@.len());
            let n: usize = texts.len();
            let height: u16 = if n <= 0xfffd {
                cap(n + 2)
            } else {
                u16::MAX
            };
            let mut lines: Vec<Vec<Piece>> = as_lines(&texts);
            push_line(&mut lines, blank());
            push_dimmed(&mut lines, t.detail_hint);
            assert(block_view(lines@) =~= plain_lines(views(texts@)) + seq![
                blank_line(),
                one(t.detail_hint@, dim()),
            ]);
            Some(Dialog { title: t.detail_title.to_owned(), lines, width, height })
        },
    }
}

/// A picture in a box.
pub open spec fn preview_dialog_of(view: PreviewModel, lang: Lang) -> DialogModel {
    boxed(
        fmt_of(dict_of(lang).preview_overlay_title@, seq![view.name, view.fetched]),
        picture(view, lang),
        72,
    )
}

pub fn preview_dialog(view: &PreviewView, lang: Lang) -> (r: Dialog)
    ensures
        r@ == preview_dialog_of(view@, lang),
{
    let t = dict(lang);
    let title: String = fmt2(
        t.preview_overlay_title,
        view.name.as_str(),
        view.fetched.as_str(),
    );
    box_of(title.as_str(), view_lines(view, lang), 72)
}

// ---------------------------------------------------------------------------
// Which one is open
// ---------------------------------------------------------------------------
/// The box that is open over the list, by the mode. Without what it would show
/// there is none.
pub open spec fn dialog_of(m: AppModel) -> Option<DialogModel> {
    match m.mode {
        Mode::List => None,
        Mode::Help => Some(help_of(m)),
        Mode::Detail => detail_dialog_of(m),
        Mode::NewSession => match m.draft {
            Some(d) => Some(form_of(d, m.lang)),
            None => None,
        },
        Mode::AttachChoice => match m.attach {
            Some(c) => Some(choice_of(c, m.lang)),
            None => None,
        },
        Mode::Confirm => match m.confirm {
            Some(c) => Some(confirm_of(c, m.lang)),
            None => None,
        },
        Mode::Rename => match m.rename {
            Some(d) => Some(rename_of(d, m.lang)),
            None => None,
        },
        Mode::Filter => Some(filter_input_of(m)),
        Mode::Preview => match m.preview {
            Some(view) => Some(preview_dialog_of(view, m.lang)),
            None => None,
        },
        Mode::MetaEdit => match m.meta_edit {
            Some(e) => Some(meta_edit_of(e, m.lang)),
            None => None,
        },
    }
}

/// The box that is open over the list.
pub fn open_dialog(app: &App) -> (r: Option<Dialog>)
    ensures
        match dialog_of(app@) {
            Some(d) => r matches Some(x) && x@ == d,
            None => r is None,
        },
{
    match app.mode {
        Mode::List => None,
        Mode::Help => Some(help_dialog(app)),
        Mode::Detail => detail_dialog(app),
        Mode::NewSession => match &app.draft {
            Some(d) => Some(render_overlay(d, app.lang)),
            None => None,
        },
        Mode::AttachChoice => match &app.attach {
            Some(c) => Some(attach_dialog(c, app.lang)),
            None => None,
        },
        Mode::Confirm => match &app.confirm {
            Some(c) => Some(confirm_dialog(c, app.lang)),
            None => None,
        },
        Mode::Rename => match &app.rename {
            Some(d) => Some(rename_dialog(d, app.lang)),
            None => None,
        },
        Mode::Filter => Some(filter_dialog(app)),
        Mode::Preview => match &app.preview {
            Some(view) => Some(preview_dialog(view, app.lang)),
            None => None,
        },
        Mode::MetaEdit => match &app.meta_edit {
            Some(e) => Some(meta_edit_dialog(e, app.lang)),
            None => None,
        },
    }
}

/// Nothing opens over the list while it has the keys, and a question shows which
/// answer Enter would give.
pub proof fn dialogs_follow_the_mode(m: AppModel)
    ensures
        m.mode == Mode::List ==> dialog_of(m) is None,
        m.mode == Mode::Preview && m.preview is None ==> dialog_of(m) is None,
        (m.mode == Mode::Confirm && m.confirm is Some) ==> (dialog_of(m) matches Some(d) && {
            let answers = d.lines[d.lines.len() - 2];
            answers[0].tone.reversed == m.confirm->0.focus_yes && answers[1].tone.reversed
                != m.confirm->0.focus_yes
        }),
{
}

} // verus!
