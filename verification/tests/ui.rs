//! What is shown.

use stui::app::wizard::FormEnv;
use stui::app::{
    ActionKind, App, AttachChoice, ConfirmAction, KeyCode, KeyEvent, KeyEventKind, MetaEdit,
    MetaField, Mode, NewField, PreviewView, RenameDraft, Work,
};
use stui::config::SessionMeta;
use stui::i18n::Lang;
use stui::screen::caps::Caps;
use stui::screen::parse::{parse_list_output, Enumeration, Outlook, Status};
use stui::screen::probe::Meta;
use stui::ui::detail::{render_panel, selected_lines};
use stui::ui::dialog::{open_dialog, Dialog};
use stui::ui::frame::{footer, header};
use stui::ui::layout::{RowCols, Tier};
use stui::ui::list::{created_display, name_budget, render, row_line};
use stui::ui::piece::{text_of, Piece, Shade};
use stui::ui::preview::{clamp_line, pane_lines, render_pane};
use stui::ui::regions::{arrange, centered_rect, Area};
use stui::ui::theme::{dimmed, selected_row, status_color, status_icon};
use stui::util::width::display_width;

const WITH_DATE: &str = "There are screens on:\n\t12399.zebra\t(08/09/2026 11:00:00 AM)\t(Multi, attached)\n\t12345.work\t(08/09/2026 10:23:45 AM)\t(Detached)\n\t12346.llm\t(08/09/2026 10:30:12 AM)\t(Attached)\n3 Sockets in /run/screen/S-huxm.\n";

const CJK: &str = "There are screens on:\n\t20001.会话列表\t(08/09/2026 10:00:00 AM)\t(Detached)\n\t20002.rocket🚀\t(08/09/2026 10:01:00 AM)\t(Attached)\n\t20003.very-long-session-name-for-truncation-testing\t(08/09/2026 10:02:00 AM)\t(Multi, attached)\n\t20004.old\t(08/09/2026 10:03:00 AM)\t(Dead ???)\n4 Sockets in /run/screen/S-huxm.\n";

fn app_with(text: &str) -> App {
    let list = parse_list_output(text).unwrap();
    let mut app = App::new(Caps::default(), Lang::En);
    app.caps.version_text = Some("4.06.02".into());
    app.apply_enumeration(Enumeration {
        outlook: Outlook::Available(list.len() as u32),
        list,
        list_error: None,
    });
    app
}

fn rows(app: &App, width: u16, height: u16) -> Vec<String> {
    render(app, width, Tier::from_size(width, height))
        .iter()
        .map(text_of)
        .collect()
}

fn text(lines: &[Vec<Piece>]) -> String {
    lines.iter().map(|l| text_of(l) + "\n").collect()
}

fn dialog(app: &App) -> Dialog {
    open_dialog(app).expect("a dialog")
}

fn dialog_text(app: &App) -> String {
    let d = dialog(app);
    format!("{}\n{}", d.title, text(&d.lines))
}

fn screen(width: u16, height: u16) -> Area {
    Area {
        x: 0,
        y: 0,
        width,
        height,
    }
}

fn press(app: &mut App, code: KeyCode) -> Work {
    app.on_key(KeyEvent {
        code,
        kind: KeyEventKind::Press,
    })
}

// ------------------------------------------------------------------ rows

#[test]
fn cjk_and_emoji_names_stay_in_their_columns() {
    let app = app_with(CJK);
    for (idx, session) in app.sessions().iter().enumerate() {
        let row = &rows(&app, 80, 20)[idx];
        let chars: Vec<char> = row.chars().collect();
        let want = status_icon(&session.status).chars().next().unwrap();
        assert_eq!(chars[5], want, "row {idx} icon column: {chars:?}");
        assert!(row.contains(&session.name), "row {idx}: {row:?}");
    }
}

#[test]
fn truncation_sacrifices_name_only() {
    let app = app_with(CJK);
    let sessions = app.sessions();
    let (y, _) = sessions
        .iter()
        .enumerate()
        .find(|(_, s)| s.name == "very-long-session-name-for-truncation-testing")
        .unwrap();
    let line = &rows(&app, 40, 20)[y];
    assert!(line.contains('…'), "long name should be clipped: {line:?}");
    assert!(!line.contains("truncation-testing"), "tail must be gone");
    let chars: Vec<char> = line.chars().collect();
    assert_eq!(chars[5], '◈');
    assert_eq!(display_width(line), 40);
}

#[test]
fn pid_and_created_follow_the_tier() {
    let app = app_with(CJK);
    let first = &app.sessions()[0];
    let pid = first.pid.unwrap().to_string();
    let created = created_display(first.created.as_deref().unwrap());
    assert_eq!(created.chars().count(), 16);

    let mid = &rows(&app, 80, 20)[0];
    assert!(mid.contains(&pid), "mid shows pid: {mid:?}");
    assert!(!mid.contains(&created), "mid hides created: {mid:?}");

    let wide = &rows(&app, 120, 30)[0];
    assert!(wide.contains(&pid), "wide shows pid: {wide:?}");
    assert!(wide.contains(&created), "wide shows created: {wide:?}");

    let narrow = &rows(&app, 71, 20)[0];
    assert!(!narrow.contains(&pid), "narrow hides pid: {narrow:?}");
}

#[test]
fn wide_width_fits_every_fixture_name() {
    let app = app_with(CJK);
    for line in rows(&app, 80, 20) {
        assert!(!line.contains('…'), "80 cols fits every fixture name");
    }
}

#[test]
fn empty_state_shows_create_hint() {
    let app = app_with("No Sockets found in /tmp/.screen.\n");
    let body = rows(&app, 60, 20)[0].replace(' ', "");
    assert!(body.contains("Noscreensessions"));
    assert!(body.contains("Pressn"), "must point at the create key");
}

#[test]
fn a_filter_without_a_match_is_no_empty_list() {
    let mut app = app_with(CJK);
    app.filter = "nosuch".into();
    let lines = rows(&app, 60, 20);
    assert_eq!(lines.len(), 1);
    assert!(lines[0].contains("nosuch"), "{}", lines[0]);
}

#[test]
fn selected_row_is_highlighted_and_cursor_marks_it() {
    let mut app = app_with(CJK);
    app.selected = 1;
    let lines = render(&app, 60, Tier::Narrow);
    assert!(text_of(&lines[1]).starts_with('>'));
    assert!(!text_of(&lines[0]).starts_with('>'));
    assert!(lines[1][0].tone.reversed);
    assert!(!lines[0][0].tone.reversed);
}

#[test]
fn budgets_leave_room_for_the_other_columns() {
    assert_eq!(name_budget(80, RowCols::for_tier(Tier::Mid)), 65);
    assert_eq!(name_budget(120, RowCols::for_tier(Tier::Wide)), 75);
    assert_eq!(name_budget(40, RowCols::for_tier(Tier::Tiny)), 33);
    assert_eq!(name_budget(5, RowCols::for_tier(Tier::Tiny)), 0);
}

#[test]
fn an_alias_follows_the_name() {
    let mut app = app_with(WITH_DATE);
    let meta = SessionMeta {
        alias: Some("backend".into()),
        ..SessionMeta::default()
    };
    app.config.sessions.insert("llm".into(), meta);
    assert!(rows(&app, 80, 20)[0].contains("llm · backend"));
    assert!(!rows(&app, 60, 20)[0].contains("backend"));
    let row = row_line(
        0,
        &app.sessions()[0],
        true,
        10,
        RowCols::for_tier(Tier::Tiny),
        None,
    );
    assert_eq!(text_of(&row), ">  1 ◆ llm       ");
}

#[test]
fn states_have_icons_and_colours() {
    assert_eq!(status_icon(&Status::Detached), "○");
    assert_eq!(status_icon(&Status::Dead), "✕");
    assert_eq!(status_icon(&Status::Unknown("odd".into())), "?");
    assert_eq!(status_color(&Status::Detached), Shade::Green);
    assert_eq!(status_color(&Status::Unreachable), Shade::DarkGray);
    assert!(selected_row().reversed);
    assert_eq!(dimmed().shade, Shade::DarkGray);
}

// ------------------------------------------------------------------ the frame

#[test]
fn header_shows_counts_and_version() {
    let app = app_with(WITH_DATE);
    let line = text_of(&header(&app));
    assert!(line.contains("stui"));
    assert!(line.contains("session(s)"));
    assert!(line.contains("attached"));
    assert!(line.contains("4.06.02"), "header: {line:?}");
}

#[test]
fn footer_shows_hints_or_status_message() {
    let mut app = app_with(WITH_DATE);
    let tier = Tier::from_size(80, 12);
    assert!(text(&footer(&app, tier)).contains("q quit"));

    app.status = Some("refresh failed: boom".into());
    let line = text(&footer(&app, tier));
    assert!(line.contains("refresh failed: boom"));
    assert!(!line.contains("q quit"));
}

#[test]
fn the_footer_of_a_wide_screen_has_two_lines() {
    let mut app = app_with(CJK);
    let lines = footer(&app, Tier::Wide);
    assert_eq!(lines.len(), 2);
    assert!(text(&lines).contains("socket /run/screen/S-huxm"));
    assert!(text(&lines).contains("W wipe dead"));
    assert!(text(&lines).contains("manual refresh"));
    app.refresh_interval = Some(5000);
    assert!(text(&footer(&app, Tier::Wide)).contains("every 5s"));
}

#[test]
fn a_filter_in_force_is_shown() {
    let mut app = app_with(CJK);
    app.filter = "rocket".into();
    let line = text(&footer(&app, Tier::Mid));
    assert!(line.starts_with(" /rocket 1/4"), "{line:?}");
}

// ------------------------------------------------------------------ layouts

#[test]
fn tiny_screen_shows_at_least_five_sessions_on_first_screen() {
    let mut listing = String::from("There are screens on:\n");
    for i in 0..8 {
        listing.push_str(&format!(
            "\t{pid}.sess{i}\t(09/23/2026 10:0{i}:00 AM)\t(Detached)\n",
            pid = 10000 + i
        ));
    }
    listing.push_str("8 Sockets in /tmp/.screen.\n");
    let app = app_with(&listing);
    let regions = arrange(screen(40, 20), Tier::from_size(40, 20));
    let lines = rows(&app, regions.list.width, 20);
    for idx in 0..5 {
        assert!(
            lines[idx].contains(&format!("sess{idx}")),
            "row {idx} must be visible at 40x20: {:?}",
            lines[idx]
        );
    }
    assert!(lines[7].contains("sess7"));
    assert!(regions.list.height >= 8, "all 8 fit at 40x20");
}

#[test]
fn wide_layout_has_permanent_detail_panel() {
    let app = app_with(WITH_DATE);
    let regions = arrange(screen(120, 30), Tier::from_size(120, 30));
    assert!(regions.detail.is_some());
    assert!(regions.preview.is_some());
    assert_eq!(regions.header.height, 1);
    assert_eq!(regions.footer.height, 2);
    assert!(regions.list.width < 120);
    assert!(text(&render_panel(&app)).contains(&app.sessions()[0].name));
}

#[test]
fn mid_layout_shows_detail_below_list() {
    let app = app_with(WITH_DATE);
    let tier = Tier::from_size(80, 20);
    let regions = arrange(screen(80, 20), tier);
    let detail = regions.detail.expect("mid shows detail area");
    assert_eq!(detail.height, 7);
    assert_eq!(detail.width, 80);
    assert!(detail.y > regions.list.y);
    assert!(regions.preview.is_none());
    assert!(
        text(&footer(&app, tier)).contains("1-9 attach"),
        "mid footer is one line of hints"
    );
}

#[test]
fn narrow_layout_has_no_permanent_detail() {
    let app = app_with(WITH_DATE);
    let tier = Tier::from_size(40, 20);
    assert!(arrange(screen(40, 20), tier).detail.is_none());
    assert!(
        text(&footer(&app, tier)).contains("? help"),
        "narrow footer points at help"
    );
}

#[test]
fn resize_changes_layout_tier_on_next_draw() {
    let wide = arrange(screen(120, 30), Tier::from_size(120, 30));
    assert!(wide.detail.is_some(), "wide has detail panel");
    let narrow = arrange(screen(40, 20), Tier::from_size(40, 20));
    assert!(narrow.detail.is_none(), "narrow drops the panel");
}

#[test]
fn boxes_stand_in_the_middle() {
    assert_eq!(
        centered_rect(screen(80, 20), 52, 15),
        Area {
            x: 14,
            y: 2,
            width: 52,
            height: 15
        }
    );
    assert_eq!(centered_rect(screen(40, 10), 52, 15), screen(40, 10));
}

// ------------------------------------------------------------------ details

#[test]
fn detail_overlay_opens_with_i_and_follows_selection() {
    let mut app = app_with(WITH_DATE);
    app.selected = 2;
    press(&mut app, KeyCode::Char('i'));
    assert_eq!(app.mode, Mode::Detail);
    let all = dialog_text(&app);
    assert!(all.contains(" Detail "), "overlay title present");
    assert!(
        all.contains(&app.sessions()[2].name),
        "overlay follows selection"
    );
    assert!(all.contains("pid"));
}

#[test]
fn details_show_what_is_known() {
    let mut app = app_with(WITH_DATE);
    app.meta = Some(Meta {
        cwd: Some("/srv/app".into()),
        command: Some("vim".into()),
    });
    app.window_count = Some(3);
    let meta = SessionMeta {
        alias: Some("backend".into()),
        note: Some(String::new()),
        managed: true,
        ..SessionMeta::default()
    };
    app.config.sessions.insert("llm".into(), meta);
    let lines = selected_lines(&app).unwrap();
    assert_eq!(lines[0], "name      llm");
    assert_eq!(lines[1], "address   12346.llm");
    assert!(lines.contains(&"windows   3".to_string()));
    assert!(lines.contains(&"cwd       /srv/app".to_string()));
    assert!(lines.contains(&"command   vim".to_string()));
    assert!(lines.contains(&"alias     backend".to_string()));
    assert!(!lines.iter().any(|l| l.starts_with("note")));
    assert!(lines.iter().any(|l| l.starts_with("managed")));
}

#[test]
fn an_empty_list_has_no_details() {
    let mut app = app_with("No Sockets found in /tmp/.screen.\n");
    assert!(text(&render_panel(&app)).contains("nothing selected"));
    app.mode = Mode::Detail;
    assert!(open_dialog(&app).is_none());
}

// ------------------------------------------------------------------ snapshots

#[test]
fn pane_hides_stale_view_when_selection_changed() {
    let mut app = app_with(
        "There are screens on:\n\t111.a\t(09/23/2026 10:00:00 AM)\t(Detached)\n\t222.b\t(09/23/2026 10:01:00 AM)\t(Detached)\n2 Sockets in /tmp/.screen.\n",
    );
    app.preview = Some(PreviewView {
        full: "111.a".into(),
        name: "a".into(),
        fetched: "2026-09-23 18:00:00".into(),
        lines: vec!["hello".into()],
    });

    app.selected = 0;
    assert!(pane_lines(&app).is_some());
    assert!(text(&render_pane(&app)).contains("hello"));
    app.selected = 1;
    assert!(pane_lines(&app).is_none());
    assert!(!text(&render_pane(&app)).contains("hello"));
}

#[test]
fn overlay_only_renders_with_a_view() {
    let mut app = App::new(Caps::default(), Lang::En);
    app.mode = Mode::Preview;
    app.preview = None;
    assert!(app.preview.is_none());
    assert!(open_dialog(&app).is_none());

    app.preview = Some(PreviewView {
        full: "111.a".into(),
        name: "a".into(),
        fetched: "2026-09-23 18:00:00".into(),
        lines: vec![],
    });
    let d = dialog(&app);
    assert!(d.title.contains("a"));
    assert_eq!(d.lines.len(), 2);
    assert_eq!(d.height, 4);
}

#[test]
fn lines_are_made_safe_and_cut() {
    assert_eq!(clamp_line("a\x1bbcdef", 4), "a?b…");
}

// ------------------------------------------------------------------ dialogs

#[test]
fn help_overlay_renders_on_top_of_list() {
    let mut app = app_with(WITH_DATE);
    app.mode = Mode::Help;
    let all = dialog_text(&app);
    assert!(all.contains(" Help "), "bordered title: {all:?}");
    assert!(all.contains("move selection"));
    assert!(text_of(&header(&app)).contains("stui"));
}

#[test]
fn new_session_wizard_renders_fields_focus_and_error() {
    let mut app = app_with(WITH_DATE);
    app.open_new_session("/srv/my-project", &Some("/bin/zsh".into()));

    let all = dialog_text(&app);
    assert!(all.contains(" New session "), "{all:?}");
    assert!(all.contains("[1 Name]"), "{all:?}");
    assert!(all.contains("Name: "), "{all:?}");
    assert!(all.contains("Directory: "), "{all:?}");
    assert!(all.contains("Command: "), "{all:?}");
    assert!(all.contains("Enter create"), "{all:?}");
    assert!(all.contains("Esc cancel"), "{all:?}");
    assert_eq!(dialog(&app).height, 10);

    app.draft.as_mut().unwrap().name = "-bad".into();
    let work = press(&mut app, KeyCode::Enter);
    assert!(matches!(work, Work::SubmitForm));
    let _ = app.commit_new(&FormEnv {
        home: None,
        shell: None,
        dir_exists: true,
    });
    assert_eq!(app.mode, Mode::NewSession);
    let all = dialog_text(&app);
    assert!(
        all.contains("must not start with '-'"),
        "error is visible: {all:?}"
    );

    {
        let draft = app.draft.as_mut().unwrap();
        draft.name = "ok-name".into();
        draft.error = None;
    }
    press(&mut app, KeyCode::Tab);
    assert_eq!(app.draft.as_ref().unwrap().focus, NewField::Dir);
    let all = dialog_text(&app);
    assert!(all.contains("[2 Directory]"), "{all:?}");
    assert!(all.contains("Directory: "), "{all:?}");
    assert!(all.contains("Enter create"), "{all:?}");
    assert!(!all.contains("[1 Name]"), "{all:?}");
}

#[test]
fn the_directory_field_lists_recent_directories() {
    let mut app = app_with(WITH_DATE);
    app.config.touch_dir("/srv/old", "2026-09-22 10:00:00");
    app.config.touch_dir("/srv/new", "2026-09-23 10:00:00");
    app.open_new_session("/srv/my-project", &None);
    assert!(!dialog_text(&app).contains("/srv/new"));
    let before = dialog(&app).height;
    press(&mut app, KeyCode::Tab);
    let all = dialog_text(&app);
    assert!(all.contains("  1 /srv/new"), "{all:?}");
    assert!(all.contains("  2 /srv/old"), "{all:?}");
    assert_eq!(dialog(&app).height, before + 3);
}

#[test]
fn questions_mark_what_enter_would_do() {
    let mut app = app_with(WITH_DATE);
    app.mode = Mode::Confirm;
    app.confirm = Some(ConfirmAction {
        kind: ActionKind::Kill,
        target: "12345.work".into(),
        display: "work".into(),
        command: Some("vim notes.md".into()),
        focus_yes: false,
    });
    let d = dialog(&app);
    assert_eq!(d.title, " KILL ");
    let answers = &d.lines[d.lines.len() - 2];
    assert!(!answers[0].tone.reversed);
    assert!(answers[1].tone.reversed);
    assert!(dialog_text(&app).contains("vim notes.md"));
    app.confirm.as_mut().unwrap().focus_yes = true;
    let d = dialog(&app);
    assert!(d.lines[d.lines.len() - 2][0].tone.reversed);
}

#[test]
fn every_mode_has_its_dialog() {
    let mut app = app_with(WITH_DATE);
    assert!(open_dialog(&app).is_none());
    app.mode = Mode::Rename;
    app.rename = Some(RenameDraft {
        target: "1.a".into(),
        name: "new".into(),
        error: Some("bad name".into()),
    });
    let all = dialog_text(&app);
    assert!(all.contains(" new") && all.contains("bad name"), "{all:?}");
    app.mode = Mode::AttachChoice;
    app.attach = Some(AttachChoice {
        name: "llm".into(),
        full: "12346.llm".into(),
        note: Some("note".into()),
    });
    let all = dialog_text(&app);
    assert!(all.contains("llm") && all.contains("note"), "{all:?}");
    app.mode = Mode::Filter;
    app.filter = "l".into();
    assert!(dialog_text(&app).contains(" /l"));
    app.mode = Mode::MetaEdit;
    app.meta_edit = Some(MetaEdit {
        session: "llm".into(),
        field: MetaField::Alias,
        value: "backend".into(),
        error: None,
    });
    let all = dialog_text(&app);
    assert!(all.contains(" backend") && all.contains("llm"), "{all:?}");
}

#[test]
fn a_wide_screen_is_divided_exactly() {
    let regions = arrange(screen(100, 30), Tier::Wide);
    assert_eq!(regions.header, Area { x: 0, y: 0, width: 100, height: 1 });
    assert_eq!(regions.list, Area { x: 0, y: 1, width: 55, height: 27 });
    assert_eq!(regions.detail, Some(Area { x: 55, y: 1, width: 45, height: 15 }));
    assert_eq!(regions.preview, Some(Area { x: 55, y: 16, width: 45, height: 12 }));
    assert_eq!(regions.footer, Area { x: 0, y: 28, width: 100, height: 2 });
}

fn assert_divided(at: u16, width: u16, height: u16) {
    let whole = Area { x: at, y: at, width, height };
    let wide = arrange(whole, Tier::Wide);
    let body = height - 3;
    let side = ((55 * u32::from(width) + 50) / 100) as u16;
    let upper = ((55 * u32::from(body) + 50) / 100) as u16;
    let right = Area { x: at + side, y: at + 1, width: width - side, height: upper };
    assert_eq!(wide.header, Area { height: 1, ..whole });
    assert_eq!(wide.footer, Area { y: at + 1 + body, height: 2, ..whole });
    assert_eq!(wide.list, Area { x: at, y: at + 1, width: side, height: body });
    assert_eq!(wide.detail, Some(right));
    assert_eq!(
        wide.preview,
        Some(Area { y: at + 1 + upper, height: body - upper, ..right })
    );
    let narrow = arrange(whole, Tier::Narrow);
    assert_eq!(narrow.list, Area { y: at + 1, height: height - 2, ..whole });
    assert_eq!(narrow.footer, Area { y: at + height - 1, height: 1, ..whole });
    if height >= 9 {
        let mid = arrange(whole, Tier::Mid);
        assert_eq!(mid.list, Area { y: at + 1, height: height - 9, ..whole });
        assert_eq!(mid.detail, Some(Area { y: at + height - 8, height: 7, ..whole }));
    }
}

#[test]
fn the_regions_follow_each_other_at_every_width() {
    for width in 0..=260u16 {
        assert_divided(width % 9, width, 24);
    }
}

#[test]
fn the_regions_follow_each_other_at_every_height() {
    for height in 3..=200u16 {
        assert_divided(height % 7, 100, height);
    }
}

#[test]
fn regions_reach_the_last_coordinate() {
    let whole = Area { x: 65_000, y: 65_500, width: 535, height: 35 };
    let regions = arrange(whole, Tier::Wide);
    assert_eq!(regions.footer, Area { y: 65_533, height: 2, ..whole });
    assert_eq!(regions.list, Area { y: 65_501, width: 294, height: 32, ..whole });
}

#[test]
fn the_own_session_is_marked() {
    let mut app = app_with(WITH_DATE);
    let plain = rows(&app, 40, 20);
    assert!(!plain.iter().any(|row| row.contains('@')));
    assert!(!text_of(&header(&app)).contains("in screen"));
    app.own = Some("12345.work".into());
    let marked = rows(&app, 40, 20);
    let at: Vec<usize> = (0..marked.len()).filter(|i| marked[*i].contains('@')).collect();
    assert_eq!(at.len(), 1);
    assert!(marked[at[0]].contains("work"));
    assert_eq!(display_width(&marked[at[0]]), display_width(&plain[at[0]]));
    assert!(text_of(&header(&app)).contains("in screen: work"));
    app.mode = Mode::Help;
    assert!(dialog_text(&app).contains("the session you are currently inside"));
}
