//! The interface, key by key.

use stui::app::event_loop::{ActionStep, Frame, LoopAction, Stage, POLL_CAP};
use stui::app::names::NAME_MAX;
use stui::app::state::auto_refresh_interval;
use stui::app::types::WindowCountCache;
use stui::app::wizard::{CommitStep, FormEnv};
use stui::app::{
    base_name, default_command, detach_hint_text, detect_escape_prefix, expand_tilde,
    next_free_name, parse_auto_refresh_secs, parse_screenrc_escape, parse_window_count,
    unambiguous_target, validate_name, ActionKind, App, AttachRequest, ConfirmAction, KeyCode,
    KeyEvent, KeyEventKind, Mode, NewField, PreviewRequest, RenameRequest, Work,
};
use stui::config::{Config, SessionMeta};
use stui::i18n::Lang;
use stui::screen::caps::{Caps, Support};
use stui::screen::cmd::{AttachKind, Run, SessionAction};
use stui::screen::parse::{parse_list_output, Enumeration, Outlook, SessionRecord};
use stui::screen::probe::Meta;
use stui::screen::Error;

type Created = Option<(String, String, String)>;

const FOUR: &str = "There are screens on:\n\t12345.work\t(09/23/2026 10:00:00 AM)\t(Detached)\n\t12346.llm\t(09/23/2026 10:01:00 AM)\t(Attached)\n\t12347.dep\t(09/23/2026 10:02:00 AM)\t(Detached)\n\t12348.legacy\t(09/23/2026 10:03:00 AM)\t(Dead ???)\n4 Sockets in /tmp/.screen.\n";

const WORK_ONLY: &str = "There is a screen on:\n\t12345.work\t(09/23/2026 10:00:00 AM)\t(Detached)\n1 Socket in /tmp/.screen.\n";

const STAMP: &str = "2026-09-23 18:00:00";

fn enumeration(text: &str) -> Enumeration {
    Enumeration {
        outlook: Outlook::Inconclusive(8),
        list: parse_list_output(text).unwrap(),
        list_error: None,
    }
}

fn run(command: &str, code: i32, stderr: &str) -> Run {
    Run {
        command: command.into(),
        code,
        stdout: String::new(),
        stderr: stderr.into(),
    }
}

fn key(code: KeyCode) -> KeyEvent {
    KeyEvent {
        code,
        kind: KeyEventKind::Press,
    }
}

fn four(_: &Created) -> Result<Enumeration, Error> {
    Ok(enumeration(FOUR))
}

fn nothing(_: &Created) -> Result<Enumeration, Error> {
    Ok(enumeration("No Sockets found in /tmp/.screen.\n"))
}

/// A list that holds only what was created last.
fn created(log: &Created) -> Result<Enumeration, Error> {
    let text = match log {
        Some((name, _, _)) => format!(
            "There is a screen on:\n\t12345.{name}\t(09/23/2026 10:00:00 AM)\t(Detached)\n1 Socket in /tmp/.screen.\n"
        ),
        None => "No Sockets found in /tmp/.screen.\n".to_string(),
    };
    Ok(enumeration(&text))
}

/// A list that holds what was created last twice.
fn created_twice(log: &Created) -> Result<Enumeration, Error> {
    let name = log
        .as_ref()
        .map(|(name, _, _)| name.clone())
        .unwrap_or_else(|| "work".into());
    Ok(enumeration(&format!(
        "There are screens on:\n\t12345.{name}\t(09/23/2026 10:00:00 AM)\t(Detached)\n\t12346.{name}\t(09/23/2026 10:01:00 AM)\t(Detached)\n2 Sockets in /tmp/.screen.\n"
    )))
}

fn succeeds(name: &str, _: &str, command: &str) -> Result<Run, Error> {
    Ok(run(&format!("screen -U -dmS {name} {command}"), 0, ""))
}

fn refuses(_: &str, _: &str, _: &str) -> Result<Run, Error> {
    Ok(run(
        "screen -U -dmS work zsh",
        1,
        "Session name 'work' already exists",
    ))
}

/// The interface with an outside that answers by plain functions.
struct World {
    app: App,
    cwd: String,
    shell: Option<String>,
    home: Option<String>,
    dirs: Vec<String>,
    enumerate: fn(&Created) -> Result<Enumeration, Error>,
    create: fn(&str, &str, &str) -> Result<Run, Error>,
    log: Created,
    saved: Vec<String>,
    now: u64,
}

impl World {
    fn new(text: &str) -> World {
        let mut app = App::new(Caps::default(), Lang::En);
        app.apply_enumeration(enumeration(text));
        World {
            app,
            cwd: "/srv/my-project".into(),
            shell: Some("/bin/zsh".into()),
            home: Some("/home/u".into()),
            dirs: vec!["/srv/my-project".into()],
            enumerate: four,
            create: succeeds,
            log: None,
            saved: Vec::new(),
            now: 1000,
        }
    }

    fn with_config(text: &str) -> World {
        let mut world = World::new(text);
        world.app.config_path_override = Some("/tmp/stui-test/config.json".into());
        world
    }

    fn listed(&self) -> Result<Enumeration, Error> {
        (self.enumerate)(&self.log)
    }

    fn refresh(&mut self) {
        let outcome = self.listed();
        if let Some(pid) = self.app.refresh(outcome, self.now) {
            self.app.set_meta(pid, None);
        }
    }

    fn save(&mut self) -> bool {
        match self.app.save_config(None) {
            Some(path) => {
                self.saved.push(path);
                true
            }
            None => false,
        }
    }

    fn open_form(&mut self) {
        let cwd = self.cwd.clone();
        let shell = self.shell.clone();
        self.app.open_new_session(&cwd, &shell);
    }

    fn submit(&mut self) {
        let dir = self.app.form_dir(&self.home);
        let env = FormEnv {
            home: self.home.clone(),
            shell: self.shell.clone(),
            dir_exists: dir.is_some_and(|d| self.dirs.contains(&d)),
        };
        match self.app.commit_new(&env) {
            CommitStep::Rejected => return,
            CommitStep::Relist => {
                let outcome = self.listed();
                self.app.refit_default_name(outcome);
            }
            CommitStep::Create => {}
        }
        let request = self.app.create_request().unwrap();
        let result = (self.create)(&request.name, &request.dir, &request.command);
        if matches!(&result, Ok(run) if run.success()) {
            self.log = Some((request.name, request.dir, request.command));
        }
        if self.app.create_session(result, STAMP) {
            self.save();
            let outcome = self.listed();
            self.app.select_created(outcome, self.now);
            self.refresh();
            self.app.announce_created();
        }
    }

    fn on_key(&mut self, event: KeyEvent) {
        match self.app.on_key(event) {
            Work::Done => {}
            Work::Refresh => self.refresh(),
            Work::VerifyConnect => {
                let outcome = self.listed();
                self.app.finish_connect(outcome);
            }
            Work::VerifyShare => {
                let outcome = self.listed();
                self.app.finish_share(outcome);
            }
            Work::Probe(pids) => {
                for pid in pids {
                    self.app.store_meta(pid, None);
                }
            }
            Work::OpenForm => self.open_form(),
            Work::SubmitForm => self.submit(),
            Work::Save(reason) => {
                let saved = self.save();
                self.app.note_saved(&reason, saved);
            }
        }
    }

    fn press(&mut self, code: KeyCode) {
        self.on_key(key(code));
    }

    fn typed(&mut self, c: char) {
        self.press(KeyCode::Char(c));
    }

    fn status(&self) -> &str {
        self.app.status.as_deref().unwrap_or_default()
    }

    fn focus(&self) -> NewField {
        self.app.draft.as_ref().unwrap().focus
    }

    fn attached(&mut self, request: &AttachRequest, run: &Run) {
        self.refresh();
        self.app.note_attach_outcome(request, run, STAMP);
    }
}

// ------------------------------------------------------------------ the list

#[test]
fn selection_moves_and_clamps() {
    let mut world = World::new(FOUR);
    assert_eq!(world.app.selected, 0);
    world.typed('j');
    assert_eq!(world.app.selected, 1);
    world.press(KeyCode::Up);
    assert_eq!(world.app.selected, 0);
    // Ten times down leads to the last row and no further.
    for _ in 0..10 {
        world.press(KeyCode::Down);
    }
    assert_eq!(world.app.selected, 3);
    for _ in 0..10 {
        world.typed('k');
    }
    assert_eq!(world.app.selected, 0);
}

#[test]
fn refresh_keeps_selection_and_clamps() {
    let mut world = World::new(FOUR);
    world.app.selected = 3;
    world.app.apply_enumeration(enumeration(WORK_ONLY));
    assert_eq!(world.app.selected, 0);
}

#[test]
fn apply_enumeration_does_not_reset_selection() {
    let mut world = World::new(FOUR);
    world.app.selected = 2;
    world.app.apply_enumeration(enumeration(FOUR));
    assert_eq!(world.app.selected, 2);
}

#[test]
fn mode_transitions_follow_the_keymap() {
    let mut world = World::new(FOUR);
    world.typed('?');
    assert_eq!(world.app.mode, Mode::Help);
    // In the help q and Esc only lead back.
    world.typed('q');
    assert_eq!(world.app.mode, Mode::List);
    assert!(!world.app.should_quit);
    world.typed('?');
    world.press(KeyCode::Esc);
    assert_eq!(world.app.mode, Mode::List);
    // In the list q ends the program.
    world.typed('q');
    assert!(world.app.should_quit);
}

#[test]
fn release_events_are_ignored() {
    let mut world = World::new(FOUR);
    world.on_key(KeyEvent {
        code: KeyCode::Char('q'),
        kind: KeyEventKind::Release,
    });
    assert!(!world.app.should_quit);
    world.on_key(KeyEvent {
        code: KeyCode::Char('j'),
        kind: KeyEventKind::Repeat,
    });
    assert_eq!(world.app.selected, 0);
}

#[test]
fn tick_scheduling_respects_manual_refresh() {
    let mut world = World::new(FOUR);
    // Nothing is refreshed by itself unless asked for.
    assert_eq!(world.app.next_tick_in(1000), u64::MAX);
    assert!(!world.app.tick_due(1000));
    world.refresh();
    assert!(!world.app.tick_due(1000));

    world.app.refresh_interval = Some(20);
    assert!(world.app.tick_due(1050));
    assert_eq!(world.app.next_tick_in(1005), 15);

    // Refreshing by hand starts the interval anew.
    world.now = 1050;
    world.refresh();
    assert!(!world.app.tick_due(1050));
}

#[test]
fn auto_refresh_interval_parsing_follows_env_contract() {
    assert_eq!(parse_auto_refresh_secs(""), None);
    assert_eq!(parse_auto_refresh_secs("0"), None);
    assert_eq!(parse_auto_refresh_secs("abc"), None);
    assert_eq!(parse_auto_refresh_secs("-3"), None);
    assert_eq!(parse_auto_refresh_secs(" 10 "), Some(10));
    assert_eq!(parse_auto_refresh_secs("1"), Some(1));
    assert_eq!(auto_refresh_interval(" 10 "), Some(10_000));
}

#[test]
fn empty_list_selects_nothing_and_stays_safe() {
    let mut world = World::new("No Sockets found in /tmp/.screen.\n");
    assert!(world.app.sessions().is_empty());
    world.typed('j');
    world.typed('k');
    assert_eq!(world.app.selected, 0);
}

#[test]
fn a_failed_refresh_keeps_the_list() {
    let mut world = World::new(FOUR);
    world.app.selected = 2;
    let _ = world.app.refresh(Err(Error::NotFound), 5);
    assert_eq!(world.app.sessions().len(), 4);
    assert_eq!(world.app.selected, 2);
    assert!(!world.status().is_empty());
}

// ------------------------------------------------------------------ names

#[test]
fn name_validation_rejects_the_documented_cases() {
    let check = |name: &str| validate_name(name, Lang::En);
    assert!(check("work").is_ok());
    assert!(check("a.b_c-d").is_ok());
    assert!(check("").is_err());
    assert!(check("-rf").is_err());
    assert!(check("a b").is_err());
    assert!(check("a\nb").is_err());
    assert!(check(&"a".repeat(NAME_MAX)).is_ok());
    assert!(check(&"a".repeat(NAME_MAX + 1)).is_err());
}

#[test]
fn base_name_cleans_a_dirname_into_a_legal_name() {
    assert_eq!(base_name("/Users/x/my proj"), "my-proj");
    assert_eq!(base_name("/tmp/-foo"), "foo");
    assert_eq!(base_name("/home/u/.config"), "config");
    assert_eq!(base_name("/tmp/a\u{7}b"), "ab");
    assert_eq!(base_name("/"), "session");
    assert_eq!(base_name("/tmp/..."), "session");
    for path in [
        "/Users/x/my proj",
        "/tmp/-foo",
        "/home/u/.config",
        "/",
        "/tmp/...",
    ] {
        let name = base_name(path);
        assert!(validate_name(&name, Lang::En).is_ok(), "{path} -> {name}");
    }
}

#[test]
fn next_free_name_appends_digits_until_free() {
    let taken = ["work", "work2", "work3"];
    assert_eq!(next_free_name("idle", |n| taken.contains(&n)), "idle");
    assert_eq!(next_free_name("work", |n| taken.contains(&n)), "work4");
    assert_eq!(next_free_name("work2", |n| n == "work2"), "work22");
}

#[test]
fn next_free_name_keeps_the_suffix_when_clipping() {
    let base = "a".repeat(NAME_MAX);
    let name = next_free_name(&base, |candidate| candidate == base);
    assert_eq!(name.chars().count(), NAME_MAX, "{name}");
    assert!(name.ends_with('2'), "{name}");
    assert!(validate_name(&name, Lang::En).is_ok(), "{name}");
}

#[test]
fn next_free_name_gives_up_and_reuses_the_base() {
    assert_eq!(next_free_name("work", |_| true), "work");
}

#[test]
fn tilde_expands_only_known_forms() {
    let home = Some("/home/u".to_string());
    assert_eq!(expand_tilde("~", &home), "/home/u");
    assert_eq!(expand_tilde("~/work", &home), "/home/u/work");
    assert_eq!(expand_tilde("/abs/path", &home), "/abs/path");
    assert_eq!(expand_tilde("~root/x", &home), "~root/x");
}

// ------------------------------------------------------------------ the form

#[test]
fn wizard_opens_with_prefilled_defaults() {
    let mut world = World::new(FOUR);
    world.typed('n');
    assert_eq!(world.app.mode, Mode::NewSession);

    let base = base_name(&world.cwd);
    let draft = world.app.draft.as_ref().expect("draft created");
    assert_eq!(draft.focus, NewField::Name);
    assert_eq!(draft.name_base, base);
    assert_eq!(draft.name, "my-project");
    assert!(!draft.name_edited);
    assert!(validate_name(&draft.name, Lang::En).is_ok());
    assert_eq!(draft.dir, world.cwd);
    assert_eq!(draft.command, default_command(&world.shell));

    // Another n is typed into the form, it opens no other.
    world.typed('n');
    assert_eq!(world.focus(), NewField::Name);
}

#[test]
fn wizard_default_name_dodges_names_kept_in_config() {
    let mut world = World::new(FOUR);
    let base = base_name(&world.cwd);
    world
        .app
        .config
        .sessions
        .insert(base.clone(), SessionMeta::default());

    world.typed('n');
    let draft = world.app.draft.as_ref().unwrap();
    assert_eq!(draft.name, format!("{base}2"));
    assert_eq!(draft.name_base, base);
}

#[test]
fn wizard_esc_cancels_from_any_field() {
    let mut world = World::new(FOUR);
    world.open_form();

    world.press(KeyCode::Esc);
    assert_eq!(world.app.mode, Mode::List);
    assert!(world.app.draft.is_none());

    world.open_form();
    world.press(KeyCode::Tab);
    world.press(KeyCode::Tab);
    assert_eq!(world.focus(), NewField::Command);
    world.press(KeyCode::Esc);
    assert_eq!(world.app.mode, Mode::List);
    assert!(world.app.draft.is_none());
}

#[test]
fn wizard_input_edits_only_the_focused_field() {
    let mut world = World::new(FOUR);
    world.open_form();
    let original_name = world.app.draft.as_ref().unwrap().name.clone();

    world.typed('x');
    assert_eq!(
        world.app.draft.as_ref().unwrap().name,
        format!("{original_name}x")
    );
    assert!(world.app.draft.as_ref().unwrap().name_edited);

    world.press(KeyCode::Backspace);
    assert_eq!(world.app.draft.as_ref().unwrap().name, original_name);

    world.app.draft.as_mut().unwrap().focus = NewField::Dir;
    world.typed('/');
    assert!(world.app.draft.as_ref().unwrap().dir.ends_with('/'));
    assert_eq!(world.app.draft.as_ref().unwrap().name, original_name);
}

#[test]
fn wizard_invalid_name_jumps_focus_back_to_name() {
    let mut world = World::new(FOUR);
    world.open_form();
    world.app.draft.as_mut().unwrap().focus = NewField::Dir;
    world.app.draft.as_mut().unwrap().name = "-bad".into();

    world.press(KeyCode::Enter);
    let draft = world.app.draft.as_ref().unwrap();
    assert_eq!(draft.focus, NewField::Name, "jumps to the offending field");
    assert!(draft.error.is_some(), "reports the reason");
}

#[test]
fn wizard_tab_and_arrows_cycle_focus() {
    let mut world = World::new(FOUR);
    world.open_form();
    assert_eq!(
        world.app.draft.as_ref().unwrap().recent,
        world.app.recent_dirs_for_wizard()
    );

    world.press(KeyCode::Tab);
    assert_eq!(world.focus(), NewField::Dir);
    world.press(KeyCode::Down);
    assert_eq!(world.focus(), NewField::Command);
    world.press(KeyCode::Tab);
    assert_eq!(world.focus(), NewField::Name);

    world.press(KeyCode::Up);
    assert_eq!(world.focus(), NewField::Command);
    world.press(KeyCode::BackTab);
    assert_eq!(world.focus(), NewField::Dir);
}

#[test]
fn wizard_enter_on_name_creates_with_all_defaults() {
    let mut world = World::with_config(FOUR);
    world.enumerate = created;

    world.typed('n');
    let expected_name = world.app.draft.as_ref().unwrap().name.clone();
    let expected_dir = world.app.draft.as_ref().unwrap().dir.clone();

    world.press(KeyCode::Enter);

    let (name, dir, command) = world.log.clone().expect("created");
    assert_eq!(name, expected_name);
    assert_eq!(dir, expected_dir);
    assert_eq!(command, default_command(&world.shell));

    assert_eq!(world.app.mode, Mode::List);
    assert!(world.app.draft.is_none());
    assert_eq!(world.app.selected, 0);
    assert!(world.status().contains("created"));
    let request = world
        .app
        .take_attach_request()
        .expect("auto attach requested");
    assert_eq!(request.kind, AttachKind::Resume);
    assert_eq!(request.target, expected_name);
}

#[test]
fn wizard_attach_after_create_is_configurable() {
    let mut world = World::with_config(FOUR);
    world.enumerate = created;
    assert!(world.app.config.defaults.attach_after_create);

    world.app.config.defaults.attach_after_create = false;
    world.typed('n');
    world.press(KeyCode::Enter);
    assert!(world.app.take_attach_request().is_none());
    assert_eq!(world.app.mode, Mode::List);
    assert!(world.status().contains("created"));
}

#[test]
fn wizard_empty_command_falls_back_to_the_default_shell() {
    let mut world = World::with_config(FOUR);
    world.enumerate = created;
    world.typed('n');
    world.app.draft.as_mut().unwrap().command = "   ".into();

    world.press(KeyCode::Enter);

    let (_, _, command) = world.log.clone().expect("created");
    assert_eq!(command, default_command(&world.shell));
}

#[test]
fn wizard_hand_typed_name_is_not_silently_renamed() {
    let mut world = World::with_config(FOUR);
    world.enumerate = created;
    world.typed('n');

    let draft = world.app.draft.as_mut().unwrap();
    draft.name = "work".into();
    draft.name_edited = true;
    world.press(KeyCode::Enter);

    let (name, _, _) = world.log.clone().expect("created");
    assert_eq!(name, "work");
    assert!(world.status().contains("<pid>.work"), "{}", world.status());
}

#[test]
fn wizard_refits_the_default_name_if_it_got_taken() {
    let mut world = World::with_config(FOUR);
    world.enumerate = created;
    world.typed('n');
    let shown = world.app.draft.as_ref().unwrap().name.clone();

    // Somebody else took the name while the form was open.
    world.log = Some((shown.clone(), "/tmp".into(), "/bin/sh".into()));
    world.press(KeyCode::Enter);

    let (name, _, _) = world.log.clone().expect("created");
    assert_eq!(name, format!("{shown}2"));
    assert!(world.status().contains("was taken"), "{}", world.status());
}

#[test]
fn wizard_skips_attach_when_the_new_session_is_missing_from_the_list() {
    let mut world = World::with_config(FOUR);
    world.enumerate = nothing;
    world.typed('n');

    world.press(KeyCode::Enter);

    assert_eq!(world.app.mode, Mode::List);
    assert!(world.app.take_attach_request().is_none());
}

#[test]
fn wizard_skips_attach_when_the_new_name_is_ambiguous() {
    let mut world = World::with_config(FOUR);
    world.enumerate = created_twice;
    world.typed('n');

    let draft = world.app.draft.as_mut().unwrap();
    draft.name = "work".into();
    draft.name_edited = true;
    world.press(KeyCode::Enter);

    assert_eq!(world.app.mode, Mode::List);
    assert!(world.app.take_attach_request().is_none());
    let status = world.status();
    assert!(status.contains("created 'work'"), "{status}");
    assert!(status.contains("not entering"), "{status}");
    assert!(status.contains("not unique"), "{status}");
}

#[test]
fn wizard_failed_create_keeps_the_draft_and_reports() {
    let mut world = World::with_config(FOUR);
    world.enumerate = created;
    world.create = refuses;
    world.typed('n');

    world.press(KeyCode::Enter);

    assert_eq!(world.app.mode, Mode::NewSession);
    let draft = world.app.draft.as_ref().expect("draft kept");
    assert_eq!(draft.focus, NewField::Name);
    let error = draft.error.as_deref().unwrap_or_default();
    assert!(error.contains("already exists"), "{error}");
}

#[test]
fn duplicate_name_gets_a_note_but_is_allowed() {
    let mut world = World::new(FOUR);
    world.open_form();
    let draft = world.app.draft.as_mut().unwrap();
    draft.name = "work".into();
    draft.name_edited = true;

    world.press(KeyCode::Tab);
    let draft = world.app.draft.as_ref().unwrap();
    assert_eq!(draft.focus, NewField::Dir);
    assert!(draft.error.is_none());
    let note = draft.note.as_deref().expect("duplicate note set");
    assert!(note.contains("<pid>.work"), "{note}");
}

#[test]
fn nonexistent_dir_is_rejected_before_creation() {
    let mut world = World::new(FOUR);
    world.open_form();
    let draft = world.app.draft.as_mut().unwrap();
    draft.focus = NewField::Dir;
    draft.dir = "/no/such/dir/stui-test".into();

    world.press(KeyCode::Enter);
    let draft = world.app.draft.as_ref().unwrap();
    assert_eq!(draft.focus, NewField::Dir);
    assert!(draft
        .error
        .as_deref()
        .unwrap_or_default()
        .contains("not a directory"));
    assert!(world.log.is_none());
}

// ------------------------------------------------------------------ connecting

#[test]
fn connect_is_refused_when_session_is_gone() {
    let mut world = World::new(FOUR);
    world.app.selected = 0;
    let fresh = enumeration(
        "There is a screen on:\n\t99999.other\t(09/23/2026 11:00:00 AM)\t(Detached)\n1 Socket in /tmp/.screen.\n",
    );
    world.app.plan_connect(fresh);

    assert!(world.app.take_attach_request().is_none(), "must not attach");
    assert!(
        world.status().contains("'dep' is gone"),
        "{}",
        world.status()
    );
    assert_eq!(world.app.sessions().len(), 1);
}

#[test]
fn detached_session_connects_directly() {
    let mut world = World::new(FOUR);
    world.app.selected = 0;
    world.app.plan_connect(enumeration(FOUR));

    let request = world
        .app
        .take_attach_request()
        .expect("attach request produced");
    assert_eq!(request.kind, AttachKind::Resume);
    assert_eq!(request.target, "dep");
    assert!(world.app.take_attach_request().is_none());
}

#[test]
fn attached_session_opens_the_conflict_choice() {
    let mut world = World::new(FOUR);
    world.app.selected = 2;
    world.app.plan_connect(enumeration(FOUR));

    assert_eq!(world.app.mode, Mode::AttachChoice);
    assert!(world.app.take_attach_request().is_none());
    assert_eq!(world.app.attach.as_ref().unwrap().name, "llm");

    world.typed('2');
    let request = world.app.take_attach_request().unwrap();
    assert_eq!(request.kind, AttachKind::Takeover);
    assert_eq!(world.app.mode, Mode::List);
}

#[test]
fn conflict_choice_sharing_and_cancelling() {
    let mut world = World::new(FOUR);
    world.app.selected = 2;
    world.app.plan_connect(enumeration(FOUR));

    world.typed('1');
    let request = world.app.take_attach_request().unwrap();
    assert_eq!(request.kind, AttachKind::Share);

    world.app.selected = 1;
    world.app.plan_connect(enumeration(FOUR));
    world.press(KeyCode::Esc);
    assert!(world.app.take_attach_request().is_none());
    assert_eq!(world.app.mode, Mode::List);
}

#[test]
fn multi_session_choice_carries_a_size_warning() {
    let text = "There are screens on:\n\t12345.share\t(09/23/2026 10:00:00 AM)\t(Multi)\n1 Socket in /tmp/.screen.\n";
    let mut world = World::new(text);
    world.app.plan_connect(enumeration(text));

    assert_eq!(world.app.mode, Mode::AttachChoice);
    let note = world
        .app
        .attach
        .as_ref()
        .unwrap()
        .note
        .as_deref()
        .expect("size note");
    assert!(note.contains("resize"), "{note}");
}

#[test]
fn dead_and_unknown_sessions_are_refused() {
    let mut world = World::new(FOUR);
    world.app.selected = 1;
    world.app.plan_connect(enumeration(FOUR));
    assert!(world.app.take_attach_request().is_none(), "dead must be refused");
    assert!(world.status().contains("dead"));

    let text = "There is a screen on:\n\t12345.weird\t(09/23/2026 10:00:00 AM)\t(???)\n1 Socket in /tmp/.screen.\n";
    let mut world = World::new(text);
    world.app.plan_connect(enumeration(text));
    assert!(world.app.take_attach_request().is_none());
    assert!(world.status().contains("unknown state"));
}

#[test]
fn ambiguous_names_fall_back_to_full_address() {
    let text = "There are screens on:\n\t111.dup\t(09/23/2026 10:00:00 AM)\t(Detached)\n\t222.dup\t(09/23/2026 10:01:00 AM)\t(Detached)\n2 Sockets in /tmp/.screen.\n";
    let sessions: Vec<SessionRecord> = parse_list_output(text).unwrap().sessions;
    let target = unambiguous_target(&sessions, "dup");
    assert_eq!(target, "111.dup", "{target}");
}

#[test]
fn attach_outcome_always_returns_to_the_list() {
    let mut world = World::new(FOUR);
    world.app.mode = Mode::AttachChoice;
    let request = AttachRequest {
        kind: AttachKind::Resume,
        target: "work".into(),
    };

    world.attached(&request, &run("screen -U -r work", 0, ""));
    assert_eq!(world.app.mode, Mode::List);
    assert!(!world.app.should_quit);
    assert!(world.status().contains("detached"));

    // An exit code other than zero is told, never swallowed.
    world.attached(&request, &run("screen -U -r work", 7, ""));
    assert_eq!(world.app.mode, Mode::List);
    assert!(world.status().contains("7"));
}

#[test]
fn detach_hint_text_covers_probed_and_default_paths() {
    assert_eq!(
        detach_hint_text(Some("Ctrl-]"), Lang::En),
        "Tip: detach with Ctrl-] d"
    );
    let fallback = detach_hint_text(None, Lang::En);
    assert!(fallback.contains("Ctrl-A D"), "{fallback}");
    assert!(fallback.contains("your own prefix"), "{fallback}");
}

// ------------------------------------------------------------------ actions

fn confirm_action(kind: ActionKind, full: &str) -> ConfirmAction {
    ConfirmAction {
        kind,
        target: full.into(),
        display: full.split('.').nth(1).unwrap_or(full).into(),
        command: None,
        focus_yes: false,
    }
}

#[test]
fn confirm_defaults_to_cancel_and_y_explicitly_confirms() {
    let mut world = World::new(FOUR);
    world.app.selected = 2;

    world.typed('D');
    assert_eq!(world.app.mode, Mode::Confirm);
    let confirm = world.app.confirm.as_ref().unwrap();
    assert_eq!(confirm.kind, ActionKind::Detach);
    assert_eq!(confirm.target, "12346.llm");
    assert!(!confirm.focus_yes, "default focus must be cancel");

    world.press(KeyCode::Enter);
    assert_eq!(world.app.mode, Mode::List);
    assert!(world.app.take_action().is_none());

    world.typed('D');
    world.typed('y');
    let action = world.app.take_action().expect("y must confirm");
    assert_eq!(action.kind, ActionKind::Detach);
    assert!(world.app.take_action().is_none(), "request consumed once");
}

#[test]
fn confirm_focus_toggle_redirects_enter() {
    let mut world = World::new(FOUR);
    world.app.selected = 0;
    world.typed('K');
    assert_eq!(world.app.mode, Mode::Confirm);
    assert_eq!(world.app.confirm.as_ref().unwrap().kind, ActionKind::Kill);

    world.press(KeyCode::Tab);
    assert!(world.app.confirm.as_ref().unwrap().focus_yes);
    world.press(KeyCode::Enter);
    assert!(world.app.take_action().is_some());

    world.typed('K');
    world.typed('n');
    assert_eq!(world.app.mode, Mode::List);
    assert!(world.app.take_action().is_none());
}

#[test]
fn kill_confirm_carries_probed_command() {
    let mut world = World::new(FOUR);
    world.app.selected = 0;
    world.app.meta = Some(Meta {
        cwd: Some("/srv/app".into()),
        command: Some("/bin/zsh -l".into()),
    });
    world.typed('K');
    let confirm = world.app.confirm.as_ref().unwrap();
    assert_eq!(confirm.display, "dep");
    assert_eq!(confirm.command.as_deref(), Some("/bin/zsh -l"));
}

#[test]
fn detach_entry_is_restricted_to_attached_sessions() {
    let mut world = World::new(FOUR);
    world.app.selected = 0;
    world.typed('D');
    assert_eq!(
        world.app.mode,
        Mode::List,
        "detached target must not open confirm"
    );
    assert!(world.status().contains("not attached"));
}

#[test]
fn wipe_entry_lists_dead_sessions_and_wipe_without_dead_is_refused() {
    let mut world = World::new(FOUR);
    world.typed('W');
    assert_eq!(world.app.mode, Mode::Confirm);
    assert_eq!(world.app.confirm.as_ref().unwrap().kind, ActionKind::Wipe);
    world.press(KeyCode::Esc);

    let mut clean = World::new(WORK_ONLY);
    clean.typed('W');
    assert_eq!(clean.app.mode, Mode::List);
    assert!(clean.status().contains("nothing to wipe"));
}

#[test]
fn validate_action_rechecks_with_fresh_enumeration() {
    let mut app = World::new(FOUR).app;

    let mut gone = confirm_action(ActionKind::Kill, "99999.gone");
    gone.display = "gone".into();
    assert!(app.validate_action(enumeration(WORK_ONLY), &gone).is_err());

    let mismatch = confirm_action(ActionKind::Detach, "12346.llm");
    let now_detached = enumeration(
        "There is a screen on:\n\t12346.llm\t(09/23/2026 10:01:00 AM)\t(Detached)\n1 Socket in /tmp/.screen.\n",
    );
    assert!(app.validate_action(now_detached, &mismatch).is_err());

    let ok = confirm_action(ActionKind::Detach, "12346.llm");
    let attached_fresh = enumeration(
        "There is a screen on:\n\t12346.llm\t(09/23/2026 10:01:00 AM)\t(Attached)\n1 Socket in /tmp/.screen.\n",
    );
    assert!(app.validate_action(attached_fresh, &ok).is_ok());

    let wipe = confirm_action(ActionKind::Wipe, "");
    assert!(app.validate_action(enumeration(WORK_ONLY), &wipe).is_err());
    assert!(app.validate_action(enumeration(FOUR), &wipe).is_ok());
}

#[test]
fn a_session_in_use_is_not_killed() {
    let mut app = World::new(FOUR).app;
    let kill = confirm_action(ActionKind::Kill, "12346.llm");
    let message = app
        .validate_action(enumeration(FOUR), &kill)
        .expect_err("in use");
    assert!(message.contains("llm"), "{message}");
    let idle = confirm_action(ActionKind::Kill, "12347.dep");
    assert!(app.validate_action(enumeration(FOUR), &idle).is_ok());
}

#[test]
fn actions_are_checked_right_before_they_run() {
    let mut app = World::new(FOUR).app;
    let idle = confirm_action(ActionKind::Kill, "12347.dep");
    let (step, reason) = app.begin_action(Ok(enumeration(FOUR)), &idle);
    assert_eq!(step, ActionStep::Run(SessionAction::Kill));
    assert!(reason.is_none());

    let (step, reason) = app.begin_action(Ok(enumeration(WORK_ONLY)), &idle);
    assert_eq!(step, ActionStep::Refused);
    assert!(reason.unwrap().contains("dep"));

    let (step, reason) = app.begin_action(Err(Error::NotFound), &idle);
    assert_eq!(step, ActionStep::Refused);
    assert!(reason.is_some());

    let cleanup = confirm_action(ActionKind::Cleanup, "");
    let (step, _) = app.begin_action(Ok(enumeration(FOUR)), &cleanup);
    assert_eq!(step, ActionStep::Nothing);
    assert!(app.status.is_some());
}

#[test]
fn rename_flow_edits_validates_and_produces_request() {
    let mut world = World::new(FOUR);
    world.app.selected = 2;
    world.typed('r');
    assert_eq!(world.app.mode, Mode::Rename);
    assert_eq!(world.app.rename.as_ref().unwrap().name, "llm");
    assert_eq!(world.app.rename.as_ref().unwrap().target, "12346.llm");

    world.app.rename.as_mut().unwrap().name = "-bad".into();
    world.press(KeyCode::Enter);
    assert!(world.app.rename.as_ref().unwrap().error.is_some());
    assert!(world.app.take_rename_request().is_none());

    world.app.rename.as_mut().unwrap().name = "renamed".into();
    world.press(KeyCode::Enter);
    let request = world.app.take_rename_request().expect("rename request");
    assert_eq!(request.target, "12346.llm");
    assert_eq!(request.new_name, "renamed");
    assert_eq!(world.app.mode, Mode::List);

    world.typed('r');
    world.press(KeyCode::Esc);
    assert_eq!(world.app.mode, Mode::List);
    assert!(world.app.rename.is_none());
}

#[test]
fn rename_outcome_reports_success_and_failure() {
    let mut world = World::new(FOUR);
    let request = RenameRequest {
        target: "12346.llm".into(),
        new_name: "renamed".into(),
    };
    let command = "screen -S 12346.llm -X sessionname renamed";
    world.refresh();
    world.app.note_rename_outcome(&request, &run(command, 0, ""));
    assert!(world.status().contains("renamed to 'renamed'"));

    world.refresh();
    world
        .app
        .note_rename_outcome(&request, &run(command, 1, "no such session"));
    assert!(world.status().contains("rename failed"));
}

#[test]
fn action_outcome_reports_success_and_failure() {
    let mut world = World::new(FOUR);
    let action = confirm_action(ActionKind::Kill, "12346.llm");
    let command = "screen -S 12346.llm -X quit";
    world.app.note_action_outcome(&action, &run(command, 0, ""));
    assert!(world.status().contains("kill done"));

    world
        .app
        .note_action_outcome(&action, &run(command, 1, "no such session"));
    let status = world.status();
    assert!(status.contains("kill"), "{status}");
    assert!(status.contains("exit 1"), "{status}");
}

// ------------------------------------------------------------------ rows and filters

#[test]
fn digits_attach_the_row_they_index() {
    let mut world = World::new(FOUR);

    world.typed('2');
    assert!(world.app.take_attach_request().is_none());

    world.typed('3');
    assert_eq!(world.app.mode, Mode::AttachChoice);
    world.typed('2');
    let request = world.app.take_attach_request().unwrap();
    assert_eq!(request.target, "llm");

    world.typed('9');
    assert!(world.app.take_attach_request().is_none());
}

#[test]
fn x_shares_directly_without_the_conflict_choice() {
    let mut world = World::new(FOUR);
    world.app.selected = 2;
    world.typed('x');
    let request = world.app.take_attach_request().expect("share request");
    assert_eq!(request.kind, AttachKind::Share);
    assert_eq!(request.target, "llm");

    let mut world = World::new(FOUR);
    world.app.selected = 1;
    world.typed('x');
    assert!(world.app.take_attach_request().is_none());
    assert!(world.status().contains("not connectable"));
}

#[test]
fn filter_narrows_and_survives_refresh() {
    let mut world = World::new(FOUR);

    world.typed('/');
    assert_eq!(world.app.mode, Mode::Filter);
    world.typed('l');
    world.typed('l');
    assert_eq!(world.app.sessions().len(), 1);
    assert_eq!(world.app.sessions()[0].name, "llm");
    assert_eq!(world.app.mode, Mode::Filter);

    world.press(KeyCode::Enter);
    assert_eq!(world.app.mode, Mode::List);
    assert_eq!(world.app.sessions().len(), 1);

    world.refresh();
    assert_eq!(world.app.filter, "ll");
    assert_eq!(world.app.sessions().len(), 1);

    world.typed('/');
    world.press(KeyCode::Esc);
    assert_eq!(world.app.filter, "");
    assert_eq!(world.app.sessions().len(), 4);
}

#[test]
fn filter_matches_pid_and_case_insensitively() {
    let mut world = World::new(FOUR);
    world.app.filter = "WORK".into();
    let visible = world.app.sessions();
    let names: Vec<&str> = visible.iter().map(|s| s.name.as_str()).collect();
    assert_eq!(names, vec!["work"]);

    world.app.filter = "12347".into();
    let visible = world.app.sessions();
    let names: Vec<&str> = visible.iter().map(|s| s.name.as_str()).collect();
    assert_eq!(names, vec!["dep"]);
}

#[test]
fn a_filter_looks_at_what_runs_in_a_session() {
    let mut world = World::new(FOUR);
    let asked = world.app.on_key(key(KeyCode::Char('/')));
    let Work::Probe(pids) = asked else {
        panic!("expected a probe")
    };
    assert_eq!(pids, vec![12347, 12348, 12346, 12345]);
    world.app.store_meta(
        12345,
        Some(Meta {
            cwd: Some("/srv/Backend".into()),
            command: None,
        }),
    );
    for c in "backend".chars() {
        world.typed(c);
    }
    assert_eq!(world.app.sessions().len(), 1);
    assert_eq!(world.app.sessions()[0].name, "work");
}

// ------------------------------------------------------------------ windows

#[test]
fn window_count_is_parsed_from_q_output() {
    assert_eq!(parse_window_count("0$ bash\n1$* zsh\n"), 2);
    assert_eq!(parse_window_count("0$ bash\n\n  \n"), 1);
    assert_eq!(parse_window_count(""), 0);
}

#[test]
fn window_count_stays_hidden_unless_query_support_is_proven() {
    let mut app = World::new(FOUR).app;
    app.selected = 0;
    assert!(app.ensure_window_count(true, 0).is_none());
    assert!(app.window_count.is_none());
    assert!(app.window_count_cache.is_none());
    assert!(app.window_count_due(true, 0).is_none());
    assert!(!app.caps.query.usable(), "default caps must stay Unknown");
}

#[test]
fn window_count_is_lazy_with_ttl_and_invalidation() {
    let mut world = World::new(FOUR);
    world.app.selected = 0;
    world.app.caps.query = Support::Yes;
    assert!(world.app.window_count_due(false, 0).is_none());

    let expected_full = world.app.sessions()[0].full.clone();
    let full = world
        .app
        .window_count_due(true, 0)
        .expect("due for visible detail");
    assert_eq!(full, expected_full);

    world.app.window_count_cache = Some(WindowCountCache {
        full: full.clone(),
        count: Some(3),
        fetched_at: 0,
    });
    assert!(world.app.window_count_due(true, 0).is_none());
    assert!(world.app.ensure_window_count(true, 0).is_none());
    assert_eq!(world.app.window_count, Some(3), "fresh cache is reused");
    // Ten seconds later it is not fresh any more.
    assert!(world.app.window_count_due(true, 10_000).is_some());

    world.app.selected = 1;
    assert!(world.app.window_count_due(true, 0).is_some());

    world.app.selected = 0;
    world.typed('R');
    assert!(world.app.window_count_cache.is_none());
    assert!(world.app.window_count.is_none());
    assert!(
        world.app.window_count_due(true, 0).is_some(),
        "invalidated by manual refresh"
    );
    world
        .app
        .note_window_count(expected_full, Some("0$ bash\n1$ top\n"), 5);
    assert_eq!(world.app.window_count, Some(2));
}

// ------------------------------------------------------------------ snapshots

#[test]
fn preview_open_guards_capabilities_and_dead() {
    let mut world = World::new(FOUR);
    world.app.selected = 0;
    world.typed('p');
    assert!(world.app.take_preview_request().is_none());
    assert!(world.status().contains("preview unavailable"));

    let mut world = World::new(FOUR);
    world.app.caps.hardcopy = Support::Yes;
    world.app.selected = 1;
    world.typed('p');
    assert!(world.app.take_preview_request().is_none());
    assert!(world.status().contains("nothing to preview"));

    world.app.selected = 0;
    world.typed('p');
    let request = world.app.take_preview_request().expect("preview request");
    assert!(request.manual);
    assert_eq!(request.full, "12347.dep");
}

#[test]
fn preview_outcome_lands_as_view_or_status() {
    let mut app = World::new(FOUR).app;
    let request = PreviewRequest {
        full: "12345.dep".into(),
        name: "dep".into(),
        manual: true,
    };

    app.note_preview(&request, vec!["ready".into()], STAMP);
    let view = app.preview.as_ref().expect("view stored");
    assert_eq!(view.lines, vec!["ready"]);
    assert!(!view.fetched.is_empty());
    assert_eq!(app.mode, Mode::Preview);

    app.note_preview_failed(&request, "preview unavailable: boom".into());
    assert!(app.preview.is_none());
    assert!(app.status.as_deref().unwrap_or_default().contains("boom"));
}

#[test]
fn wide_auto_preview_fetches_once_per_selection() {
    let mut app = World::new(FOUR).app;
    app.caps.hardcopy = Support::Yes;
    app.selected = 0;

    assert!(app.wide_preview_due(false).is_none());

    let request = app.wide_preview_due(true).expect("auto fetch");
    assert!(!request.manual);
    assert!(app.wide_preview_due(true).is_none());
    let mut empty = App::new(Caps::default(), Lang::En);
    empty.caps.hardcopy = Support::Yes;
    assert!(empty.wide_preview_due(true).is_none());

    app.note_preview_failed(&request, "boom".into());
    assert!(app.status.is_none());
    assert!(
        app.wide_preview_due(true).is_some(),
        "cleared target retries"
    );
}

// ------------------------------------------------------------------ the configuration

#[test]
fn managed_and_seen_records_land_in_config() {
    let mut world = World::with_config(FOUR);

    world
        .app
        .record_managed("newtask", "/srv/app", "vim", STAMP);
    let entry = world.app.config.sessions.get("newtask").unwrap();
    assert!(entry.managed);
    assert_eq!(entry.command.as_deref(), Some("vim"));
    assert_eq!(entry.cwd.as_deref(), Some("/srv/app"));
    assert!(entry.last_seen.is_some());

    world.app.record_seen("dep", STAMP);
    let entry = world.app.config.sessions.get("dep").unwrap();
    assert!(!entry.managed, "external sessions stay unmanaged");

    assert!(world.save());
    assert_eq!(world.saved, vec!["/tmp/stui-test/config.json"]);
}

#[test]
fn restart_is_restricted_to_dead_managed_sessions() {
    let mut world = World::with_config(FOUR);

    world.app.selected = 0;
    world.typed('s');
    assert!(world.app.take_restart_request().is_none());
    assert!(world.status().contains("still running"));

    world.app.selected = 1;
    world.typed('s');
    assert!(world.app.take_restart_request().is_none());
    assert!(world.status().contains("not created by stui"));

    world.app.record_seen("legacy", STAMP);
    world.typed('s');
    assert!(world.app.take_restart_request().is_none());
    assert!(world.status().contains("unmanaged"));

    world
        .app
        .record_managed("legacy", "/srv/legacy", "bash -l", STAMP);
    world.typed('s');
    let request = world.app.take_restart_request().expect("restart request");
    assert_eq!(request.name, "legacy");
    assert_eq!(request.command, "bash -l");
    assert_eq!(request.dir, "/srv/legacy");
}

#[test]
fn cleanup_removes_only_stale_metadata_after_confirmation() {
    let mut world = World::with_config(FOUR);
    world
        .app
        .record_managed("gone-task", "/srv/gone", "top", STAMP);
    world
        .app
        .record_managed("legacy", "/srv/legacy", "bash -l", STAMP);

    let mut clean = World::with_config(FOUR);
    clean.typed('X');
    assert_eq!(clean.app.mode, Mode::List);
    assert!(clean.status().contains("no stale"));

    world.typed('X');
    assert_eq!(world.app.mode, Mode::Confirm);
    let confirm = world.app.confirm.as_ref().unwrap();
    assert_eq!(confirm.kind, ActionKind::Cleanup);
    assert!(!confirm.focus_yes);

    world.typed('y');
    assert_eq!(world.app.mode, Mode::List);
    assert!(!world.app.config.sessions.contains_key("gone-task"));
    assert!(
        world.app.config.sessions.contains_key("legacy"),
        "live entry kept"
    );
}

#[test]
fn alias_edit_updates_metadata_and_survives_escalation() {
    let mut world = World::with_config(FOUR);
    world.app.selected = 0;

    world.typed('i');
    assert_eq!(world.app.mode, Mode::Detail);
    world.typed('a');
    assert_eq!(world.app.mode, Mode::MetaEdit);
    world.typed('x');
    world.press(KeyCode::Enter);

    let entry = world.app.config.sessions.get("dep").unwrap();
    assert_eq!(entry.alias.as_deref(), Some("x"));
    assert_eq!(world.saved.len(), 1, "config persisted");

    world.typed('i');
    world.typed('t');
    world.typed('y');
    world.press(KeyCode::Enter);
    assert_eq!(
        world
            .app
            .config
            .sessions
            .get("dep")
            .unwrap()
            .note
            .as_deref(),
        Some("y")
    );
}

#[test]
fn a_read_only_configuration_is_not_saved() {
    let mut world = World::with_config(FOUR);
    world.app.config_read_only = true;
    assert!(!world.save());
}

#[test]
fn touch_dir_dedupes_sorts_and_caps() {
    let mut config = Config::new();
    config.max_recent_dirs = 3;

    config.touch_dir("/a", STAMP);
    config.touch_dir("/b", STAMP);
    config.touch_dir("/c", STAMP);
    config.touch_dir("/a", STAMP);
    let paths: Vec<&str> = config.dirs.iter().map(|d| d.path.as_str()).collect();
    assert_eq!(paths, vec!["/a", "/c", "/b"]);

    config.touch_dir("/d", STAMP);
    let paths: Vec<&str> = config.dirs.iter().map(|d| d.path.as_str()).collect();
    assert_eq!(paths, vec!["/d", "/a", "/c"]);
}

#[test]
fn wizard_dir_field_lists_recent_and_digits_pick() {
    let mut world = World::with_config(FOUR);
    let real_dir = "/tmp/stui-test".to_string();
    world.app.config.touch_dir(&real_dir, STAMP);
    world.app.config.touch_dir("/nonexistent-for-test", STAMP);

    world.typed('n');
    world.press(KeyCode::Tab);
    let draft = world.app.draft.as_ref().unwrap();
    assert_eq!(draft.focus, NewField::Dir);
    assert_eq!(
        draft.recent,
        vec!["/nonexistent-for-test".to_string(), real_dir.clone()]
    );

    world.typed('9');
    assert!(world.app.draft.as_ref().unwrap().dir.ends_with('9'));

    world.typed('2');
    assert_eq!(world.focus(), NewField::Dir);
    assert_eq!(world.app.draft.as_ref().unwrap().dir, real_dir);
}

#[test]
fn attach_records_cwd_into_recent_dirs() {
    let mut world = World::with_config(FOUR);
    let request = AttachRequest {
        kind: AttachKind::Resume,
        target: "12347.dep".into(),
    };
    // Another row is selected, so that the refresh does not forget this one.
    world.app.selected = 3;
    world.app.store_meta(
        12347,
        Some(Meta {
            cwd: Some("/srv/dep".into()),
            command: Some("top".into()),
        }),
    );

    world.attached(&request, &run("screen -U -r 12347.dep", 0, ""));
    let paths: Vec<&str> = world
        .app
        .config
        .dirs
        .iter()
        .map(|d| d.path.as_str())
        .collect();
    assert!(paths.contains(&"/srv/dep"), "{paths:?}");
}

#[test]
fn screenrc_escape_parser_covers_both_forms() {
    assert_eq!(
        parse_screenrc_escape("escape ^Aa\n").as_deref(),
        Some("Ctrl-A")
    );
    assert_eq!(parse_screenrc_escape("escape x x\n").as_deref(), Some("x"));
    assert_eq!(
        parse_screenrc_escape("  escape ^]]   # my prefix\n").as_deref(),
        Some("Ctrl-]")
    );
    assert_eq!(parse_screenrc_escape("term xterm-256color\n"), None);
    assert_eq!(parse_screenrc_escape(""), None);
    assert_eq!(
        parse_screenrc_escape("escape ^Aa"),
        parse_screenrc_escape("# nothing\nescape ^Aa")
    );
    assert_eq!(
        detect_escape_prefix(&Some("escape ^Bb".to_string())).as_deref(),
        Some("Ctrl-B")
    );
    assert_eq!(detect_escape_prefix(&None), None);
}

#[test]
fn m1_exit_criterion_full_walk() {
    let mut world = World::new(FOUR);

    world.typed('j');
    world.typed('j');
    assert_eq!(world.app.sessions()[world.app.selected].name, "llm");

    world.app.plan_connect(enumeration(FOUR));
    assert_eq!(world.app.mode, Mode::AttachChoice);
    world.typed('2');
    let request = world.app.take_attach_request().expect("attach request");
    assert_eq!(request.kind, AttachKind::Takeover);
    assert_eq!(request.target, "llm");

    world.attached(&request, &run("screen -U -d -r llm", 0, ""));
    assert_eq!(world.app.mode, Mode::List);
    assert!(!world.app.should_quit);

    world.typed('q');
    assert!(world.app.should_quit);
}

// ------------------------------------------------------------------ the loop

fn frame(now: u64) -> Frame {
    Frame {
        width: 120,
        height: 40,
        now,
        shutdown: false,
    }
}

#[test]
fn the_loop_draws_then_waits() {
    let mut app = World::new(FOUR).app;
    let (action, next) = app.advance(Stage::Draw, frame(0));
    assert!(matches!(action, LoopAction::Draw));
    assert_eq!(next, Stage::Input);
    let (action, next) = app.advance(Stage::Input, frame(0));
    assert!(matches!(action, LoopAction::Poll(ms) if ms == POLL_CAP));
    assert_eq!(next, Stage::Tick);
}

#[test]
fn the_loop_stops_when_asked() {
    let mut app = World::new(FOUR).app;
    let asked = Frame {
        shutdown: true,
        ..frame(0)
    };
    assert!(matches!(
        app.advance(Stage::Tick, asked).0,
        LoopAction::Stop
    ));
    app.should_quit = true;
    assert!(matches!(
        app.advance(Stage::Draw, frame(0)).0,
        LoopAction::Stop
    ));
}

#[test]
fn a_request_leaves_the_loop_once() {
    let mut world = World::new(FOUR);
    world.press(KeyCode::Enter);
    let (action, _) = world.app.advance(Stage::Attach, frame(0));
    match action {
        LoopAction::Attach { request, hint } => {
            assert_eq!(request.target, "dep");
            assert!(hint.contains("Ctrl-A D"));
        }
        other => panic!("expected an attachment, got {other:?}"),
    }
    let (action, _) = world.app.advance(Stage::Attach, frame(0));
    assert!(matches!(action, LoopAction::Nothing));
}

#[test]
fn windows_are_counted_where_details_show() {
    let mut app = World::new(FOUR).app;
    app.caps.query = Support::Yes;
    let small = Frame {
        width: 60,
        ..frame(0)
    };
    assert!(matches!(
        app.advance(Stage::Windows, small).0,
        LoopAction::Nothing
    ));
    assert!(matches!(
        app.advance(Stage::Windows, frame(0)).0,
        LoopAction::CountWindows(full) if full == "12347.dep"
    ));
}

#[test]
fn a_wide_screen_takes_snapshots_by_itself() {
    let mut app = World::new(FOUR).app;
    app.caps.hardcopy = Support::Yes;
    let (action, next) = app.advance(Stage::Wide, frame(0));
    assert!(matches!(action, LoopAction::Preview(request) if !request.manual));
    assert_eq!(next, Stage::Draw);
    assert!(matches!(
        app.advance(Stage::Wide, frame(0)).0,
        LoopAction::Nothing
    ));
}

#[test]
fn the_start_takes_its_settings() {
    let mut config = Config::new();
    config.defaults.escape_prefix = Some("Ctrl-B".into());
    let mut app = App::start(
        Caps::default(),
        config,
        true,
        Lang::En,
        "5",
        Some("Ctrl-X".into()),
        None,
    );
    assert_eq!(app.escape_prefix.as_deref(), Some("Ctrl-B"));
    assert_eq!(app.refresh_interval, Some(5000));
    assert!(app.config_read_only);
    app.show_warnings(&vec!["first".into(), "second".into()]);
    assert_eq!(app.status.as_deref(), Some("first; second"));

    let start = |sty: &str| {
        App::start(
            Caps::default(),
            Config::new(),
            false,
            Lang::En,
            "",
            None,
            Some(sty.to_string()),
        )
    };
    let mut app = start("");
    app.show_warnings(&vec![]);
    assert_eq!(app.status, None);
    assert_eq!(app.own, None);
    let mut app = start("123.pts-0");
    app.show_warnings(&vec![]);
    assert!(app.status.is_some());
    assert!(app.is_own("123.pts-0"));
}

const NAMESAKES: &str = "\t111.dup\t(Detached)\n\t222.dup\t(Detached)\n\t333.dup\t(Attached)\n";

#[test]
fn namesakes_are_addressed_in_full_under_every_filter() {
    let mut app = World::new(NAMESAKES).app;
    app.filter = "111".into();
    app.plan_connect(enumeration(NAMESAKES));
    let request = app.take_attach_request().unwrap();
    assert_eq!(request.kind, AttachKind::Resume);
    assert_eq!(request.target, "111.dup");
    assert!(app.take_attach_request().is_none());

    app.filter.clear();
    app.selected = 1;
    app.plan_connect(enumeration(NAMESAKES));
    assert_eq!(app.take_attach_request().unwrap().target, "222.dup");

    app.filter = "333".into();
    app.selected = 0;
    app.plan_connect(enumeration(NAMESAKES));
    assert_eq!(app.mode, Mode::AttachChoice);
    app.on_key(key(KeyCode::Char('2')));
    let request = app.take_attach_request().unwrap();
    assert_eq!(request.kind, AttachKind::Takeover);
    assert_eq!(request.target, "333.dup");

    app.finish_share(Ok(enumeration(NAMESAKES)));
    assert_eq!(app.take_attach_request().unwrap().target, "333.dup");
}

#[test]
fn a_session_that_was_restarted_is_found_by_its_name() {
    let mut app = World::new("\t111.work\t(Detached)\n").app;
    app.plan_connect(enumeration("\t999.work\t(Detached)\n"));
    assert_eq!(app.take_attach_request().unwrap().target, "work");
}

#[test]
fn records_are_kept_under_the_name_of_the_session() {
    let run = Run {
        command: "screen".into(),
        code: 0,
        stdout: String::new(),
        stderr: String::new(),
    };
    let listing = "\t111.a.b\t(Detached)\n\t222.7.x\t(Detached)\n\t333.dup\t(Detached)\n";
    for (target, name) in [
        ("a.b", "a.b"),
        ("111.a.b", "a.b"),
        ("7.x", "7.x"),
        ("333.dup", "dup"),
        ("444.gone", "gone"),
        ("gone.for.good", "gone.for.good"),
        (".odd", ".odd"),
    ] {
        let mut app = World::new(listing).app;
        let request = AttachRequest {
            kind: AttachKind::Resume,
            target: target.into(),
        };
        app.note_attach_outcome(&request, &run, "now");
        assert_eq!(app.config.sessions.len(), 1, "{target}");
        let meta = app.config.sessions.get(name).expect(target);
        assert_eq!(meta.last_seen.as_deref(), Some("now"));
        assert_eq!(app.mode, Mode::List);
        assert!(!app.should_quit);
    }
}

#[test]
fn a_name_that_reads_like_an_address_is_not_used_as_one() {
    let listing = "\t111.dup\t(Detached)\n\t222.111.dup\t(Detached)\n";
    let mut app = World::new(listing).app;
    app.selected = 0;
    assert_eq!(app.sessions()[0].full, "222.111.dup");
    app.plan_connect(enumeration(listing));
    assert_eq!(app.take_attach_request().unwrap().target, "222.111.dup");
    app.selected = 1;
    app.plan_connect(enumeration(listing));
    assert_eq!(app.take_attach_request().unwrap().target, "dup");
}

#[test]
fn the_own_session_is_neither_entered_nor_killed() {
    let mut app = World::new(FOUR).app;
    app.own = Some("12347.dep".into());
    app.selected = 0;
    app.plan_connect(enumeration(FOUR));
    assert!(app.take_attach_request().is_none());
    assert!(app.status.as_deref().unwrap().contains("inside 'dep'"));
    app.finish_share(Ok(enumeration(FOUR)));
    assert!(app.take_attach_request().is_none());
    let kill = confirm_action(ActionKind::Kill, "12347.dep");
    assert!(app
        .validate_action(enumeration(FOUR), &kill)
        .unwrap_err()
        .contains("kill refused"));
    app.own = None;
    assert!(app.validate_action(enumeration(FOUR), &kill).is_ok());
}

#[test]
fn the_created_session_is_selected_under_a_filter() {
    let mut app = World::new("\t1.aaa\t(Detached)\n").app;
    app.filter = "b".into();
    app.open_new_session("/srv/bbb", &None);
    let fresh = "\t1.aaa\t(Detached)\n\t2.abc\t(Detached)\n\t3.bbb\t(Detached)\n";
    app.select_created(Ok(enumeration(fresh)), 0);
    assert_eq!(app.sessions().len(), 2);
    assert_eq!(app.sessions()[app.selected].name, "bbb");
    app.announce_created();
    assert_eq!(app.take_attach_request().unwrap().target, "bbb");
}

#[test]
fn a_created_session_is_not_entered_while_a_namesake_is_hidden() {
    let mut app = World::new("\t1.bbb\t(Detached)\n").app;
    app.open_new_session("/srv/other", &None);
    app.draft.as_mut().unwrap().name = "bbb".into();
    app.filter = "777".into();
    app.select_created(Ok(enumeration("\t1.bbb\t(Detached)\n\t777.bbb\t(Detached)\n")), 0);
    assert_eq!(app.sessions().len(), 1);
    app.announce_created();
    assert!(app.take_attach_request().is_none());
    assert!(app.status.as_deref().unwrap().contains("created"));
}

#[test]
fn details_are_counted_by_the_configured_widths() {
    let mut app = World::new(FOUR).app;
    app.caps.query = Support::Yes;
    let size = |now: u64| Frame { width: 70, height: 30, now, shutdown: false };
    app.config.ui.narrow_cols = 60;
    assert!(matches!(app.advance(Stage::Windows, size(0)).0, LoopAction::CountWindows(_)));
    app.config.ui.narrow_cols = 90;
    app.config.ui.wide_cols = 120;
    assert!(matches!(app.advance(Stage::Windows, size(0)).0, LoopAction::Nothing));
}

#[test]
fn ascii_filters_take_capitals_for_small_letters() {
    let mut app = World::new("\t1.Work-LLM\t(Detached)\n\t2.other\t(Detached)\n").app;
    app.filter = "k-llM".into();
    assert_eq!(app.sessions().len(), 1);
    assert_eq!(app.sessions()[0].name, "Work-LLM");
    app.store_meta(2, Some(Meta { cwd: Some("/SRV/Data".into()), command: None }));
    app.filter = "srv/dATA".into();
    assert_eq!(app.sessions()[0].name, "other");
    app.filter = "nothing".into();
    assert!(app.sessions().is_empty());
}
