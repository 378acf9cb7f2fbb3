//! What is on the screen, piece by piece.

use crate::app::state::{
    AppModel, all_of, visible,
};
use crate::app::types::{
    ChoiceModel, ConfirmModel, DraftModel, MetaEditModel, Mode, NewField, PreviewModel,
    RenameModel, action_consequence, meta_key,
};
use crate::config::{
    MetaModel, table_get,
};
use crate::i18n::{
    Lang, dict_of, fmt_of,
};
use crate::screen::parse::{
    SessionView, StatusView, status_label,
};
use crate::screen::probe::MetaView;
use crate::text::{
    decimal_of, lines_of,
};
use crate::ui::dialog::{
    choice_of, confirm_of, dialog_of, filter_input_of, help_of, mark_help, meta_edit_of,
    rename_of,
};
use crate::ui::frame::{
    attached_count, dead_count, footer_of, header_of, key_hints,
};
use crate::ui::layout::{
    Tier, columns_for, tier_of,
};
use crate::ui::list::{
    alias_of, budget_of, list_lines,
};
use crate::ui::new::{
    FIELD_COLS, INNER_WIDTH, form_lines, form_of, label_of, message_of, recent_lines,
};
use crate::ui::piece::{
    PieceModel, Shade, plain_piece,
};
use crate::ui::preview::{
    pane_of, picture,
};
use crate::ui::regions::{
    Area, arranged, centered, has_room,
};
use crate::ui::theme::{
    color_of, icon_of,
};
use crate::util::width::{
    sanitize_of, spaces, text_columns,
};
use vstd::prelude::*;

verus! {

// ---------------------------------------------------------------------------
// Sizes
// ---------------------------------------------------------------------------
/// A terminal below fifty columns or fifteen rows is tiny. Otherwise it is wide from the one
/// configured width on, of middle size from the other on, and narrow below.
pub proof fn sizes_are_told_apart(width: u16, height: u16, narrow: u16, wide: u16)
    requires
        50 <= narrow < wide,
    ensures
        width < 50 || height < 15 ==> tier_of(width, height, narrow, wide) == Tier::Tiny,
        width >= 50 && height >= 15 ==> {
            &&& width >= wide ==> tier_of(width, height, narrow, wide) == Tier::Wide
            &&& narrow <= width < wide ==> tier_of(width, height, narrow, wide) == Tier::Mid
            &&& width < narrow ==> tier_of(width, height, narrow, wide) == Tier::Narrow
        },
{
}

/// A wide terminal shows the state, the number and the date of a session, one of middle
/// size the number, a smaller one none of them.
pub proof fn columns_follow_the_size(tier: Tier)
    ensures
        columns_for(tier).status_text <==> tier == Tier::Wide,
        columns_for(tier).created <==> tier == Tier::Wide,
        columns_for(tier).pid <==> tier == Tier::Wide || tier == Tier::Mid,
{
}

/// The screen is a line for the heading, the body, and the hints at the bottom; on a wide
/// one the list has the left of the body and the details and the snapshot the right, on one
/// of middle size the details are below the list, otherwise the list has it all.
pub proof fn the_screen_is_filled(screen: Area, tier: Tier)
    requires
        has_room(screen, tier),
    ensures
        ({
            let r = arranged(screen, tier);
            let hints = if tier == Tier::Wide {
                2int
            } else {
                1
            };
            let left = (55 * screen.width + 50) / 100;
            &&& r.header == Area { height: 1, ..screen }
            &&& r.footer.y + r.footer.height == screen.y + screen.height && r.footer.height == hints
                && r.footer.x == screen.x && r.footer.width == screen.width
            &&& r.list.x == screen.x && r.list.y == screen.y + 1
            &&& tier == Tier::Narrow || tier == Tier::Tiny ==> r.detail is None && r.preview is None
                && r.list.width == screen.width && r.list.height == screen.height - 1 - hints
            &&& tier == Tier::Mid ==> r.preview is None && (r.detail matches Some(d) && d.height == 7
                && d.width == screen.width && d.y == r.list.y + r.list.height && d.y + d.height
                == r.footer.y && d.x == screen.x)
            &&& tier == Tier::Wide ==> (r.detail matches Some(d) && r.preview matches Some(p)
                && r.list.width == left && d.x == screen.x + left && d.width == screen.width - left
                && p.x == d.x && p.width == d.width && d.y == r.list.y && p.y == d.y + d.height
                && p.y + p.height == r.footer.y && r.list.y + r.list.height == r.footer.y)
        }),
{
}

/// A box in the middle has as much room on either side, to the cell, and keeps its size
/// where there is room for it.
pub proof fn boxes_are_centered(area: Area, width: u16, height: u16)
    requires
        area.x + area.width <= u16::MAX,
        area.y + area.height <= u16::MAX,
        width <= area.width,
        height <= area.height,
    ensures
        ({
            let b = centered(area, width, height);
            let left = b.x - area.x;
            let right = area.x + area.width - (b.x + b.width);
            let above = b.y - area.y;
            let below = area.y + area.height - (b.y + b.height);
            &&& b.width == width && b.height == height
            &&& 0 <= left && left <= right <= left + 1
            &&& 0 <= above && above <= below <= above + 1
        }),
{
}

// ---------------------------------------------------------------------------
// The list
// ---------------------------------------------------------------------------
/// The states have icons of their own.
pub proof fn states_look_different(raw: Seq<char>)
    ensures
        ({
            let d = icon_of(StatusView::Detached);
            let a = icon_of(StatusView::Attached);
            let m = icon_of(StatusView::Multi);
            let x = icon_of(StatusView::Dead);
            let u = icon_of(StatusView::Unreachable);
            &&& d == seq!['○'] && a == seq!['◆'] && m == seq!['◈'] && x == seq!['✕'] && u == seq![
                '?',
            ]
            &&& icon_of(StatusView::Unknown(raw)) == u
            &&& color_of(StatusView::Dead) == Shade::Red && color_of(StatusView::Detached)
                == Shade::Green && color_of(StatusView::Attached) == Shade::Cyan && color_of(
                StatusView::Multi,
            ) == Shade::Yellow
        }),
{
    reveal_strlit("○");
    reveal_strlit("◆");
    reveal_strlit("◈");
    reveal_strlit("✕");
    reveal_strlit("?");
    assert("○"@ =~= seq!['○']);
    assert("◆"@ =~= seq!['◆']);
    assert("◈"@ =~= seq!['◈']);
    assert("✕"@ =~= seq!['✕']);
    assert("?"@ =~= seq!['?']);
}

/// There is a row for every session that is shown, with the cursor on the selected one, a
/// mark on the own one, its number from one on, its icon and its name, in full where it
/// fits and from its beginning where it does not.
pub proof fn rows_show_their_session(m: AppModel, width: u16, tier: Tier, i: int)
    requires
        0 <= i < visible(m).len(),
        tier == Tier::Narrow || tier == Tier::Tiny || table_get(
            m.config.sessions,
            visible(m)[i].name,
        ) is None,
    ensures
        ({
            let s = visible(m)[i];
            let rows = list_lines(m, width, tier);
            let row = rows[i];
            let number = decimal_of(i as nat + 1);
            let budget = budget_of(width, columns_for(tier));
            let name = sanitize_of(s.name);
            &&& rows.len() == visible(m).len()
            &&& row.len() >= 4
            &&& row[0].text == (if i == m.selected {
                seq!['>']
            } else {
                seq![' ']
            }) + (if m.own == Some(s.full) {
                seq!['@']
            } else {
                seq![' ']
            })
            &&& row[1].text == spaces(2 - number.len()) + number + seq![' ']
            &&& row[2].text == icon_of(s.status) + seq![' ']
            &&& text_columns(name) <= budget ==> row[3].text == name + spaces(
                budget - text_columns(name),
            )
        }),
{
    reveal_strlit(">");
    reveal_strlit(" ");
    reveal_strlit("@");
    assert(">"@ =~= seq!['>'] && " "@ =~= seq![' '] && "@"@ =~= seq!['@']);
}

/// Behind the name, a row of a wide list has the state, the process number and the date,
/// one of middle size the number, a smaller one nothing; the alias stands beside the name.
pub proof fn rows_show_what_there_is_room_for(
    m: AppModel,
    width: u16,
    i: int,
    pid: i32,
    date: Seq<char>,
)
    requires
        0 <= i < visible(m).len(),
        visible(m)[i].pid == Some(pid),
        pid >= 0,
        visible(m)[i].created == Some(date),
        text_columns(status_label(visible(m)[i].status)) <= 11,
        text_columns(decimal_of(pid as nat)) <= 7,
    ensures
        ({
            let s = visible(m)[i];
            let wide = list_lines(m, width, Tier::Wide)[i];
            let mid = list_lines(m, width, Tier::Mid)[i];
            let narrow = list_lines(m, width, Tier::Narrow)[i];
            let number = decimal_of(pid as nat) + spaces(7 - text_columns(decimal_of(pid as nat)));
            let day = sanitize_of(date).take(
                if date.len() <= 16 {
                    date.len() as int
                } else {
                    16
                },
            );
            &&& wide.len() == 8 && mid.len() == 6 && narrow.len() == 4
            &&& wide[4].text == seq![' '] + status_label(s.status)
            &&& wide[5].text == number && mid[4].text == number
            &&& text_columns(day) <= 16 ==> wide[7].text == seq![' '] + day
            &&& table_get(m.config.sessions, s.name) matches Some(r) ==> (r.alias matches Some(a)
                ==> (a.len() > 0 ==> {
                let both = sanitize_of(s.name) + " · "@ + sanitize_of(a);
                let budget = budget_of(width, columns_for(Tier::Wide));
                text_columns(both) <= budget ==> wide[3].text == both + spaces(
                    budget - text_columns(both),
                )
            }))
        }),
{
    reveal_strlit(" ");
    assert(" "@ =~= seq![' ']);
}

/// An empty list says so, and says what the filter is if there is one.
pub proof fn empty_lists_say_so(m: AppModel, width: u16, tier: Tier)
    requires
        visible(m).len() == 0,
    ensures
        ({
            let rows = list_lines(m, width, tier);
            &&& rows.len() == 1 && rows[0].len() == 1
            &&& m.filter.len() == 0 ==> rows[0][0].text == dict_of(m.lang).list_empty@
            &&& m.filter.len() > 0 ==> rows[0][0].text == fmt_of(
                dict_of(m.lang).list_filter_empty@,
                seq![m.filter],
            )
        }),
{
}

proof fn lemma_counts(sessions: Seq<SessionView>)
    ensures
        attached_count(sessions) == sessions.filter(
            |s: SessionView| s.status is Attached || s.status is Multi,
        ).len(),
        dead_count(sessions) == sessions.filter(|s: SessionView| s.status is Dead).len(),
    decreases sessions.len(),
{
    reveal(Seq::filter);
    if sessions.len() > 0 {
        lemma_counts(sessions.drop_last());
    }
}

/// The heading says how many sessions are shown, how many of them are in use, and how
/// many are dead if any are.
pub proof fn the_heading_counts(m: AppModel)
    ensures
        ({
            let t = dict_of(m.lang);
            let all = visible(m);
            let used = all.filter(|s: SessionView| s.status is Attached || s.status is Multi).len();
            let dead = all.filter(|s: SessionView| s.status is Dead).len();
            let h = header_of(m);
            &&& h.len() >= 2
            &&& h[1].text == fmt_of(t.header_sessions@, seq![decimal_of(all.len()), decimal_of(used)])
            &&& dead > 0 ==> h.len() >= 3 && h[2].text == fmt_of(
                t.header_dead@,
                seq![decimal_of(dead)],
            ) && h[2].tone.shade == Shade::Red
            &&& dead == 0 && m.own is None ==> (m.caps.version_text matches Some(v) ==> h.len() == 3
                && h[2].text == "  ·  screen "@ + v)
            &&& dead == 0 && m.own is None && m.caps.version_text is None ==> h.len() == 2
        }),
{
    lemma_counts(visible(m));
}

/// A message takes the place of the hints; otherwise a filter in force is shown in front
/// of them, with how many sessions pass.
pub proof fn messages_come_before_hints(m: AppModel, tier: Tier)
    ensures
        m.status matches Some(message) ==> footer_of(m, tier).len() == 1 && footer_of(m, tier)[0].len()
            == 1 && footer_of(m, tier)[0][0].text == message,
        m.status is None && m.filter.len() == 0 ==> footer_of(m, tier) == key_hints(m, tier),
        m.status is None && m.filter.len() > 0 ==> footer_of(m, tier)[0].len() > 0 && footer_of(
            m,
            tier,
        )[0][0].text == " /"@ + m.filter + " "@ + decimal_of(visible(m).len()) + "/"@ + decimal_of(
            all_of(m).len(),
        ),
{
}

// ---------------------------------------------------------------------------
// Details and snapshots
// ---------------------------------------------------------------------------
/// The details of a session are what is known of it, each with its label, in their order.
pub proof fn details_say_what_is_known(
    s: SessionView,
    pid: i32,
    date: Seq<char>,
    windows: usize,
    cwd: Seq<char>,
    command: Seq<char>,
    record: MetaModel,
    lang: Lang,
)
    requires
        s.pid == Some(pid),
        pid >= 0,
        s.created == Some(date),
        record.alias matches Some(a) && a.len() > 0,
        record.note matches Some(n) && n.len() > 0,
        record.managed,
    ensures
        ({
            let t = dict_of(lang);
            let lines = crate::ui::detail::detail_of(
                s,
                Some(MetaView { cwd: Some(cwd), command: Some(command) }),
                Some(windows),
                Some(record),
                lang,
            );
            let field = |label: Seq<char>, value: Seq<char>|
                crate::ui::detail::field_of(label, value);
            lines == seq![
                field(t.dl_name@, s.name),
                field(t.dl_address@, s.full),
                field(t.dl_pid@, decimal_of(pid as nat)),
                field(t.dl_status@, status_label(s.status)),
                field(t.dl_created@, date),
                field(t.dl_windows@, decimal_of(windows as nat)),
                field(t.dl_cwd@, cwd),
                field(t.dl_command@, command),
                field(t.dl_alias@, record.alias->0),
                field(t.dl_note@, record.note->0),
                field(t.dl_managed@, t.dl_managed_yes@),
            ]
        }),
{
}

/// What is opened on the details, and shown beside the list, is of the selected session.
pub proof fn details_are_of_the_selected_session(m: AppModel)
    requires
        m.selected < visible(m).len(),
    ensures
        crate::ui::detail::selected_detail(m) == Some(
            crate::ui::detail::detail_of(
                visible(m)[m.selected as int],
                m.meta,
                m.window_count,
                table_get(m.config.sessions, visible(m)[m.selected as int].name),
                m.lang,
            ),
        ),
{
}

/// A snapshot is shown with its head and every line of it, in order.
pub proof fn snapshots_are_shown_in_full(view: PreviewModel, lang: Lang)
    ensures
        ({
            let p = picture(view, lang);
            let t = dict_of(lang);
            &&& p[0][0].text == fmt_of(t.preview_fetched@, seq![view.fetched, view.name])
            &&& view.lines.len() > 0 ==> p.len() == view.lines.len() + 1
            &&& forall|i: int|
                0 <= i < view.lines.len() ==> p[i + 1] == seq![
                    plain_piece(#[trigger] view.lines[i]),
                ]
            &&& view.lines.len() == 0 ==> p.len() == 2 && p[1] == seq![
                plain_piece(t.preview_empty@),
            ]
        }),
{
}

// ---------------------------------------------------------------------------
// Boxes
// ---------------------------------------------------------------------------
/// What is typed is what is shown: the filter, the new name, the note, each behind its mark.
pub proof fn typed_text_is_shown(m: AppModel, d: RenameModel, e: MetaEditModel)
    ensures
        ({
            let t = dict_of(m.lang);
            let f = filter_input_of(m);
            let r = rename_of(d, m.lang);
            let n = meta_edit_of(e, m.lang);
            &&& f.lines[0][0].text == " /"@ + m.filter
            &&& f.lines[2][0].text == fmt_of(
                t.filter_match@,
                seq![decimal_of(visible(m).len()), decimal_of(all_of(m).len())],
            )
            &&& r.lines[1][0].text == " "@ + d.name
            &&& d.error matches Some(why) ==> r.lines[3][0].text == why
            &&& n.lines[0][0].text == fmt_of(
                t.meta_line@,
                seq![meta_key(e.field, m.lang), e.session],
            )
            &&& n.lines[1][0].text == " "@ + e.value
        }),
{
}

/// A question names the consequence and the session, and what runs in it if that is known;
/// of its two answers the one with the focus is marked.
pub proof fn questions_say_what_would_happen(c: ConfirmModel, lang: Lang)
    ensures
        ({
            let t = dict_of(lang);
            let b = confirm_of(c, lang);
            let n = if c.command is Some {
                1int
            } else {
                0
            };
            let answers = b.lines[4 + n];
            &&& b.lines.len() == 6 + n
            &&& b.lines[0][0].text == fmt_of(t.confirm_title@, seq![action_consequence(c.kind, lang)])
            &&& b.lines[2][0].text == fmt_of(t.confirm_session@, seq![c.display])
            &&& c.command matches Some(text) ==> b.lines[3][0].text == fmt_of(
                t.confirm_command@,
                seq![text],
            )
            &&& answers.len() == 2 && answers[0].text == t.confirm_yes@ && answers[1].text
                == t.confirm_cancel@
            &&& answers[0].tone.reversed == c.focus_yes && answers[1].tone.reversed == !c.focus_yes
        }),
{
}

/// The choice names the session and its two ways to connect, each behind its key.
pub proof fn choices_are_offered(c: ChoiceModel, lang: Lang)
    ensures
        ({
            let t = dict_of(lang);
            let b = choice_of(c, lang);
            &&& b.lines[0][0].text == fmt_of(t.attach_line@, seq![c.name])
            &&& b.lines[2][0].text == " 1 "@ && b.lines[2][1].text == t.attach_share@
            &&& b.lines[3][0].text == " 2 "@ && b.lines[3][1].text == t.attach_takeover@
            &&& c.note matches Some(n) ==> b.lines[5][0].text == n
        }),
{
}

/// The form shows its three fields with what is in them, in full where it fits; the field
/// with the focus has a cursor behind it.
pub proof fn the_form_shows_its_fields(d: DraftModel, lang: Lang)
    ensures
        ({
            let lines = form_lines(d, lang);
            let room = INNER_WIDTH - FIELD_COLS - 4;
            &&& lines.len() >= 7
            &&& d.focus == NewField::Name ==> lines[2].len() == 3 && (text_columns(d.name) <= room
                ==> lines[2][1].text == d.name)
            &&& d.focus == NewField::Dir ==> lines[3].len() == 3 && (text_columns(d.dir) <= room
                ==> lines[3][1].text == d.dir)
            &&& d.focus == NewField::Command ==> lines[4].len() == 3 && (text_columns(d.command)
                <= room ==> lines[4][1].text == d.command)
            &&& d.focus != NewField::Name ==> lines[2].len() == 1 && {
                let all = " "@ + label_of(NewField::Name, lang) + " "@ + d.name;
                text_columns(all) <= INNER_WIDTH ==> lines[2][0].text == all
            }
            &&& d.focus != NewField::Dir ==> lines[3].len() == 1 && {
                let all = " "@ + label_of(NewField::Dir, lang) + " "@ + d.dir;
                text_columns(all) <= INNER_WIDTH ==> lines[3][0].text == all
            }
            &&& d.focus != NewField::Command ==> lines[4].len() == 1 && {
                let all = " "@ + label_of(NewField::Command, lang) + " "@ + d.command;
                text_columns(all) <= INNER_WIDTH ==> lines[4][0].text == all
            }
        }),
{
}

/// While the directory has the focus the recent ones are offered, each behind its digit;
/// below, an error is shown, or a remark where there is none.
pub proof fn the_form_offers_recent_directories(d: DraftModel, lang: Lang)
    ensures
        ({
            let r = recent_lines(d, lang);
            &&& d.focus != NewField::Dir || d.recent.len() == 0 ==> r.len() == 0
            &&& d.focus == NewField::Dir && d.recent.len() > 0 ==> r.len() == d.recent.len() + 1
                && forall|i: int|
                0 <= i < d.recent.len() ==> {
                    let all = "  "@ + decimal_of((i + 1) as nat) + " "@ + (#[trigger] d.recent[i]);
                    text_columns(all) <= INNER_WIDTH ==> r[i + 1][0].text == all
                }
        }),
        d.error matches Some(e) ==> message_of(d).len() == lines_of(e).len() && forall|i: int|
            0 <= i < lines_of(e).len() && text_columns(lines_of(e)[i]) <= INNER_WIDTH
                ==> (#[trigger] message_of(d)[i])[0].text == lines_of(e)[i]
                && message_of(d)[i][0].tone.shade == Shade::Red,
        d.error is None ==> (d.note matches Some(n) ==> message_of(d).len() == lines_of(n).len()
            && forall|i: int|
            0 <= i < lines_of(n).len() && text_columns(lines_of(n)[i]) <= INNER_WIDTH ==> (
            #[trigger] message_of(d)[i])[0].text == lines_of(n)[i]),
{
}

/// The help lists every key of the list with what it does, and the version of screen.
pub proof fn the_help_lists_the_keys(m: AppModel)
    requires
        m.own is None,
    ensures
        ({
            let t = dict_of(m.lang);
            let lines = help_of(m).lines;
            let says = |i: int, key: Seq<char>, what: Seq<char>|
                lines[i].len() == 2 && lines[i][0].text == " "@ + key + spaces(8 - key.len())
                    && lines[i][1].text == what;
            &&& lines.len() == 16
            &&& says(1, "Enter"@, t.desc_attach@) && says(2, "1-9"@, t.desc_quick@)
            &&& says(3, "x"@, t.desc_share@) && says(4, "p"@, t.desc_preview@)
            &&& says(5, "n"@, t.desc_new@) && says(6, "i"@, t.desc_detail@)
            &&& says(7, "/"@, t.desc_filter@) && says(8, "D"@, t.desc_detach@)
            &&& says(9, "K"@, t.desc_kill@) && says(10, "r"@, t.desc_rename@)
            &&& says(11, "W"@, t.desc_wipe@) && says(12, "R"@, t.desc_refresh@)
            &&& m.caps.version_text matches Some(v) ==> lines[15][0].text == "screen "@ + v
        }),
{
    let lines = help_of(m).lines;
    let none = Seq::<Seq<PieceModel>>::empty();
    assert(mark_help(m) =~= none);
}

/// In each state of the program its own box is open, with what belongs to it.
pub proof fn boxes_belong_to_their_mode(m: AppModel)
    ensures
        m.mode == Mode::List ==> dialog_of(m) is None,
        m.mode == Mode::Help ==> dialog_of(m) == Some(help_of(m)),
        m.mode == Mode::Filter ==> dialog_of(m) == Some(filter_input_of(m)),
        m.mode == Mode::Confirm ==> (m.confirm matches Some(c) ==> dialog_of(m) == Some(
            confirm_of(c, m.lang),
        )),
        m.mode == Mode::Rename ==> (m.rename matches Some(d) ==> dialog_of(m) == Some(
            rename_of(d, m.lang),
        )),
        m.mode == Mode::AttachChoice ==> (m.attach matches Some(c) ==> dialog_of(m) == Some(
            choice_of(c, m.lang),
        )),
        m.mode == Mode::NewSession ==> (m.draft matches Some(d) ==> (dialog_of(m) matches Some(b)
            && b.lines == form_lines(d, m.lang))),
        m.mode == Mode::MetaEdit ==> (m.meta_edit matches Some(e) ==> dialog_of(m) == Some(
            meta_edit_of(e, m.lang),
        )),
        m.mode == Mode::Preview ==> (m.preview matches Some(v) ==> (dialog_of(m) matches Some(b)
            && b.lines == picture(v, m.lang))),
{
}

/// The hints end, on a wide screen, with how the list is refreshed and where the sockets
/// are; a key for dead sessions is hinted at where there are any.
pub proof fn hints_say_how_the_list_is_refreshed(m: AppModel, tier: Tier)
    ensures
        ({
            let t = dict_of(m.lang);
            let dead = visible(m).filter(|s: SessionView| s.status is Dead).len() > 0;
            let rows = key_hints(m, tier);
            let mode = match m.refresh_interval {
                Some(ms) => fmt_of(t.footer_refresh@, seq![decimal_of((ms / 1000) as nat)]),
                None => t.footer_manual@,
            };
            &&& rows[0][0].text == match tier {
                Tier::Wide => t.footer_wide_1@,
                Tier::Tiny => t.footer_tiny@,
                _ => t.footer_mid@,
            }
            &&& rows.len() == if tier == Tier::Wide {
                2nat
            } else {
                1
            }
            &&& rows[0].len() == if dead && (tier == Tier::Wide || tier == Tier::Mid) {
                2nat
            } else {
                1
            }
            &&& tier == Tier::Wide ==> rows[1][1].text == match m.enumeration {
                Some(e) => match e.list.socket_dir {
                    Some(dir) => mode + (" · socket "@ + dir),
                    None => mode,
                },
                None => mode,
            }
        }),
{
    lemma_counts(visible(m));
}

/// A box is as high as its lines and its frame, and the form has room for all of its lines.
pub proof fn boxes_have_room_for_their_lines(
    d: DraftModel,
    c: ConfirmModel,
    r: RenameModel,
    lang: Lang,
)
    requires
        form_lines(d, lang).len() + 3 <= u16::MAX,
    ensures
        confirm_of(c, lang).height == confirm_of(c, lang).lines.len() + 2,
        rename_of(r, lang).height == rename_of(r, lang).lines.len() + 2,
        form_of(d, lang).lines == form_lines(d, lang),
        form_of(d, lang).height >= form_lines(d, lang).len() + 2,
{
}

/// The list takes what is left of its width beside the fixed columns, and the alias of a
/// session is shown only where there is room for it.
pub proof fn names_get_the_rest_of_the_width(m: AppModel, name: Seq<char>, width: u16)
    requires
        width >= 60,
    ensures
        budget_of(width, columns_for(Tier::Narrow)) == width - 7,
        budget_of(width, columns_for(Tier::Mid)) == width - 15,
        budget_of(width, columns_for(Tier::Wide)) == width - 45,
        alias_of(m, name, Tier::Narrow) is None,
        alias_of(m, name, Tier::Tiny) is None,
        alias_of(m, name, Tier::Wide) == match table_get(m.config.sessions, name) {
            Some(r) => r.alias,
            None => None,
        },
        alias_of(m, name, Tier::Mid) == alias_of(m, name, Tier::Wide),
{
}

/// The pane beside the list shows the snapshot of the selected session, and a hint where
/// there is none of it.
pub proof fn the_pane_shows_its_snapshot(m: AppModel, view: PreviewModel)
    requires
        m.preview == Some(view),
        m.selected < visible(m).len(),
    ensures
        visible(m)[m.selected as int].full == view.full ==> pane_of(m) == picture(view, m.lang),
        visible(m)[m.selected as int].full != view.full ==> pane_of(m).len() == 1 && pane_of(
            m,
        )[0][0].text == dict_of(m.lang).preview_pane_hint@,
{
}

/// The panel beside the list shows the details of the selected session, a line each, and
/// says so where nothing is selected.
pub proof fn the_panel_shows_the_details(m: AppModel)
    ensures
        visible(m).len() == 0 ==> crate::ui::detail::panel_of(m).len() == 1
            && crate::ui::detail::panel_of(m)[0][0].text == dict_of(m.lang).detail_nothing@,
        crate::ui::detail::selected_detail(m) matches Some(lines) ==> {
            &&& crate::ui::detail::panel_of(m).len() == lines.len()
            &&& forall|i: int|
                0 <= i < lines.len() ==> crate::ui::detail::panel_of(m)[i][0].text
                    == #[trigger] lines[i]
        },
{
}

} // verus!
