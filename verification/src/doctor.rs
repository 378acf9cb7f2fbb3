//! The check of the environment: eleven questions, each answered with a level, a
//! reason and, where something can be done, a remedy.
//!
//! What cannot be found out is a warning, never a pass; and only failures count
//! as an error.

use crate::app::state::{
    fmt1, fmt2, fmt3,
};
use crate::config::{
    DirSource, dir_source_label, keep_non_empty, non_empty,
};
use crate::i18n::{
    Lang, dict, dict_of, fmt_of,
};
use crate::screen::caps::{
    Caps, HardcopyProbe, Support, version_text,
};
use crate::screen::parse::{
    Enumeration, Outlook, SessionView, Status, connectable, extend_strings, notes_of,
    outlook_label, push_string, session_views,
};
use crate::screen::{
    Error, error_text,
};
use crate::text::{
    chars_of, clone_opt, contains_text, decimal, decimal_of, find, join, join_of, lower,
    lowercase_ascii, opt_view, signed_decimal, signed_decimal_of, views,
};
use crate::util::width::{
    display_width, pad_of, pad_right, push_spaces, spaces, text_columns,
};
use vstd::prelude::*;

verus! {

/// How many questions there are.
pub const CHECK_COUNT: usize = 11;

#[derive(Debug, Clone, Copy, PartialEq, Eq, Structural)]
pub enum Level {
    Pass,
    Warn,
    Fail,
}

pub open spec fn level_label(level: Level) -> Seq<char> {
    match level {
        Level::Pass => "PASS"@,
        Level::Warn => "WARN"@,
        Level::Fail => "FAIL"@,
    }
}

impl Level {
    pub fn label(self) -> (r: &'static str)
        ensures
            r@ == level_label(self),
    {
        match self {
            Level::Pass => "PASS",
            Level::Warn => "WARN",
            Level::Fail => "FAIL",
        }
    }
}

/// One answer.
#[derive(Debug)]
pub struct Check {
    pub name: &'static str,
    pub level: Level,
    pub detail: String,
    pub fix: Option<String>,
}

/// The model of a [`Check`].
#[verifier::ext_equal]
pub struct CheckModel {
    pub name: Seq<char>,
    pub level: Level,
    pub detail: Seq<char>,
    pub fix: Option<Seq<char>>,
}

impl View for Check {
    type V = CheckModel;

    open spec fn view(&self) -> CheckModel {
        CheckModel {
            name: self.name@,
            level: self.level,
            detail: self.detail@,
            fix: opt_view(self.fix),
        }
    }
}

pub open spec fn check_views(v: Seq<Check>) -> Seq<CheckModel> {
    v.map_values(|c: Check| c@)
}

pub open spec fn passing(name: Seq<char>, detail: Seq<char>) -> CheckModel {
    CheckModel { name, level: Level::Pass, detail, fix: None }
}

pub open spec fn warning(name: Seq<char>, detail: Seq<char>, fix: Option<Seq<char>>) -> CheckModel {
    CheckModel { name, level: Level::Warn, detail, fix }
}

pub open spec fn failing(name: Seq<char>, detail: Seq<char>, fix: Seq<char>) -> CheckModel {
    CheckModel { name, level: Level::Fail, detail, fix: Some(fix) }
}

impl Check {
    pub fn pass(name: &'static str, detail: &str) -> (r: Check)
        ensures
            r@ == passing(name@, detail@),
    {
        Check { name, level: Level::Pass, detail: detail.to_owned(), fix: None }
    }

    pub fn warn(name: &'static str, detail: &str) -> (r: Check)
        ensures
            r@ == warning(name@, detail@, None),
    {
        Check { name, level: Level::Warn, detail: detail.to_owned(), fix: None }
    }

    pub fn fail(name: &'static str, detail: &str, fix: &str) -> (r: Check)
        ensures
            r@ == failing(name@, detail@, fix@),
    {
        Check { name, level: Level::Fail, detail: detail.to_owned(), fix: Some(fix.to_owned()) }
    }

    /// Adds a remedy where there is none.
    pub fn with_fix(self, fix: &str) -> (r: Check)
        ensures
            r@ == (CheckModel {
                fix: match self@.fix {
                    Some(known) => Some(known),
                    None => Some(fix@),
                },
                ..self@
            }),
    {
        let fix: Option<String> = match self.fix {
            Some(known) => Some(known),
            None => Some(fix.to_owned()),
        };
        Check { name: self.name, level: self.level, detail: self.detail, fix }
    }
}

// ---------------------------------------------------------------------------
// What the answers rest on
// ---------------------------------------------------------------------------
/// What `infocmp screen-256color` did, where there is such a program.
#[derive(Debug, Clone, Copy, PartialEq, Eq, Structural)]
pub enum Terminfo {
    Present,
    /// The exit code, or -1 if there was none.
    Failed(i32),
    NoTool,
}

/// Everything that was found out about the environment.
#[derive(Debug)]
pub struct Facts {
    pub program: Result<String, Error>,
    pub enumeration: Result<Enumeration, Error>,
    pub caps: Result<Caps, Error>,
    /// `$SCREENDIR` is exported with an empty value.
    pub screendir_empty: bool,
    pub terminfo: Terminfo,
    pub lc_all: Option<String>,
    pub lc_ctype: Option<String>,
    pub lang: Option<String>,
    pub sty: Option<String>,
    /// Columns and rows, or why they are not known.
    pub size: Result<(u16, u16), String>,
    pub config_dir: Option<(String, DirSource)>,
    /// Whether a file could be written to the configuration directory.
    pub writable: Result<(), String>,
    /// The outcome of a snapshot of the session that is tried; not looked at where
    /// there is none to try.
    pub hardcopy: Result<HardcopyProbe, Error>,
}

// ---------------------------------------------------------------------------
// The questions
// ---------------------------------------------------------------------------
pub open spec fn screen_check(program: Result<String, Error>, lang: Lang) -> CheckModel {
    let t = dict_of(lang);
    match program {
        Ok(path) => passing(t.d_name_screen@, path@),
        Err(err) => failing(t.d_name_screen@, error_text(err@), t.d_screen_missing_fix@),
    }
}

pub fn check_screen_executable(program: &Result<String, Error>, lang: Lang) -> (r: Check)
    ensures
        r@ == screen_check(*program, lang),
{
    let t = dict(lang);
    match program {
        Ok(path) => Check::pass(t.d_name_screen, path.as_str()),
        Err(err) => Check::fail(t.d_name_screen, err.message().as_str(), t.d_screen_missing_fix),
    }
}

/// The version is for show only; what works is decided by trying it.
pub open spec fn version_check(caps: Result<Caps, Error>, lang: Lang) -> CheckModel {
    let t = dict_of(lang);
    match caps {
        Err(_) => failing(t.d_name_version@, t.d_version_na@, t.d_install_screen@),
        Ok(caps) => match caps.version {
            None => warning(
                t.d_name_version@,
                fmt_of(
                    t.d_version_unparsed@,
                    seq![
                        if caps.version_line@.len() == 0 {
                            t.d_value_empty@
                        } else {
                            caps.version_line@
                        },
                    ],
                ),
                Some(t.d_caps_live_fix@),
            ),
            Some(version) => {
                let detail = version_text(version) + " — "@ + caps.version_line@;
                match caps.query {
                    Support::Yes => passing(t.d_name_version@, fmt_of(t.d_q_ok@, seq![detail])),
                    Support::No => warning(
                        t.d_name_version@,
                        fmt_of(t.d_q_no@, seq![detail]),
                        Some(t.d_q_no_fix@),
                    ),
                    Support::Unknown => warning(
                        t.d_name_version@,
                        fmt_of(t.d_q_unknown@, seq![detail]),
                        Some(t.d_q_unknown_fix@),
                    ),
                }
            },
        },
    }
}

pub fn check_version(caps: &Result<Caps, Error>, lang: Lang) -> (r: Check)
    ensures
        r@ == version_check(*caps, lang),
{
    let t = dict(lang);
    match caps {
        Err(_) => Check::fail(t.d_name_version, t.d_version_na, t.d_install_screen),
        Ok(caps) => match caps.version {
            None => {
                let shown: &str = if caps.version_line.as_str().is_empty() {
                    t.d_value_empty
                } else {
                    caps.version_line.as_str()
                };
                Check::warn(t.d_name_version, fmt1(t.d_version_unparsed, shown).as_str()).with_fix(
                    t.d_caps_live_fix,
                )
            },
            Some(version) => {
                let mut detail: String = version.text();
                detail.append(" — ");
                detail.append(caps.version_line.as_str());
                match caps.query {
                    Support::Yes => Check::pass(
                        t.d_name_version,
                        fmt1(t.d_q_ok, detail.as_str()).as_str(),
                    ),
                    Support::No => Check::warn(
                        t.d_name_version,
                        fmt1(t.d_q_no, detail.as_str()).as_str(),
                    ).with_fix(t.d_q_no_fix),
                    Support::Unknown => Check::warn(
                        t.d_name_version,
                        fmt1(t.d_q_unknown, detail.as_str()).as_str(),
                    ).with_fix(t.d_q_unknown_fix),
                }
            },
        },
    }
}

pub open spec fn socket_check(
    enumeration: Result<Enumeration, Error>,
    screendir_empty: bool,
    lang: Lang,
) -> CheckModel {
    let t = dict_of(lang);
    match enumeration {
        Err(err) => failing(
            t.d_name_socket@,
            fmt_of(t.d_ls_failed@, seq![error_text(err@)]),
            t.d_screendir_fix@,
        ),
        Ok(e) => if screendir_empty {
            warning(t.d_name_socket@, t.d_screendir_empty@, Some(t.d_screendir_empty_fix@))
        } else {
            passing(
                t.d_name_socket@,
                fmt_of(
                    t.d_socket_ok@,
                    seq![
                        match e@.list.socket_dir {
                            Some(dir) => dir,
                            None => t.d_not_reported@,
                        },
                    ],
                ),
            )
        },
    }
}

pub fn check_socket_dir(
    enumeration: &Result<Enumeration, Error>,
    screendir_empty: bool,
    lang: Lang,
) -> (r: Check)
    ensures
        r@ == socket_check(*enumeration, screendir_empty, lang),
{
    let t = dict(lang);
    match enumeration {
        Err(err) => Check::fail(
            t.d_name_socket,
            fmt1(t.d_ls_failed, err.message().as_str()).as_str(),
            t.d_screendir_fix,
        ),
        Ok(e) => {
            if screendir_empty {
                return Check::warn(t.d_name_socket, t.d_screendir_empty).with_fix(
                    t.d_screendir_empty_fix,
                );
            }
            let dir: &str = match &e.list.socket_dir {
                Some(d) => d.as_str(),
                None => t.d_not_reported,
            };
            Check::pass(t.d_name_socket, fmt1(t.d_socket_ok, dir).as_str())
        },
    }
}

/// The two listings are held against each other; where they disagree the one
/// with the details is believed, and that is a warning.
pub open spec fn listing_check(enumeration: Result<Enumeration, Error>, lang: Lang) -> CheckModel {
    let t = dict_of(lang);
    match enumeration {
        Err(_) => failing(t.d_name_enum@, t.d_enum_cannot@, t.d_fix_screen_first@),
        Ok(e) => {
            let n = e@.list.sessions.len();
            match e@.outlook {
                Outlook::Unconnectable => warning(
                    t.d_name_enum@,
                    fmt_of(t.d_enum_exit10@, seq![decimal_of(n)]),
                    Some(t.d_enum_perm_fix@),
                ),
                Outlook::NoSessions if n > 0 => warning(
                    t.d_name_enum@,
                    fmt_of(t.d_enum_exit9@, seq![decimal_of(n)]),
                    None,
                ),
                Outlook::Available(k) if k != n => warning(
                    t.d_name_enum@,
                    fmt_of(t.d_enum_mismatch@, seq![decimal_of(k as nat), decimal_of(n)]),
                    None,
                ),
                Outlook::Inconclusive(code) => warning(
                    t.d_name_enum@,
                    fmt_of(t.d_enum_code@, seq![signed_decimal_of(code as int), decimal_of(n)]),
                    Some(t.d_enum_code_fix@),
                ),
                outlook => passing(
                    t.d_name_enum@,
                    fmt_of(t.d_enum_ok@, seq![decimal_of(n), outlook_label(outlook)]),
                ),
            }
        },
    }
}

pub fn check_enumeration(enumeration: &Result<Enumeration, Error>, lang: Lang) -> (r: Check)
    ensures
        r@ == listing_check(*enumeration, lang),
{
    let t = dict(lang);
    match enumeration {
        Err(_) => Check::fail(t.d_name_enum, t.d_enum_cannot, t.d_fix_screen_first),
        Ok(e) => {
            let n: usize = e.count();
            let shown: String = decimal(n as u64);
            match e.outlook {
                Outlook::Unconnectable => Check::warn(
                    t.d_name_enum,
                    fmt1(t.d_enum_exit10, shown.as_str()).as_str(),
                ).with_fix(t.d_enum_perm_fix),
                Outlook::NoSessions if n > 0 => Check::warn(
                    t.d_name_enum,
                    fmt1(t.d_enum_exit9, shown.as_str()).as_str(),
                ),
                Outlook::Available(k) if k as usize != n => Check::warn(
                    t.d_name_enum,
                    fmt2(t.d_enum_mismatch, decimal(k as u64).as_str(), shown.as_str()).as_str(),
                ),
                Outlook::Inconclusive(code) => Check::warn(
                    t.d_name_enum,
                    fmt2(
                        t.d_enum_code,
                        signed_decimal(code as i64).as_str(),
                        shown.as_str(),
                    ).as_str(),
                ).with_fix(t.d_enum_code_fix),
                outlook => Check::pass(
                    t.d_name_enum,
                    fmt2(t.d_enum_ok, shown.as_str(), outlook.label().as_str()).as_str(),
                ),
            }
        },
    }
}

pub open spec fn terminfo_check(found: Terminfo, lang: Lang) -> CheckModel {
    let t = dict_of(lang);
    match found {
        Terminfo::Present => passing(t.d_name_terminfo@, t.d_ti_present@),
        Terminfo::Failed(code) => warning(
            t.d_name_terminfo@,
            fmt_of(t.d_ti_failed@, seq![signed_decimal_of(code as int)]),
            Some(t.d_ti_fix@),
        ),
        Terminfo::NoTool => warning(
            t.d_name_terminfo@,
            t.d_ti_missing@,
            Some(t.d_ti_missing_fix@),
        ),
    }
}

pub fn check_terminfo(found: Terminfo, lang: Lang) -> (r: Check)
    ensures
        r@ == terminfo_check(found, lang),
{
    let t = dict(lang);
    match found {
        Terminfo::Present => Check::pass(t.d_name_terminfo, t.d_ti_present),
        Terminfo::Failed(code) => Check::warn(
            t.d_name_terminfo,
            fmt1(t.d_ti_failed, signed_decimal(code as i64).as_str()).as_str(),
        ).with_fix(t.d_ti_fix),
        Terminfo::NoTool => Check::warn(t.d_name_terminfo, t.d_ti_missing).with_fix(
            t.d_ti_missing_fix,
        ),
    }
}

/// A locale that names the encoding.
pub open spec fn names_utf8(value: Seq<char>) -> bool {
    contains_text(lower(value), "utf-8"@) || contains_text(lower(value), "utf8"@)
}

pub open spec fn opt_names_utf8(value: Option<Seq<char>>) -> bool {
    match value {
        Some(v) => names_utf8(v),
        None => false,
    }
}

/// A variable as it would be set.
pub open spec fn setting(key: Seq<char>, value: Option<Seq<char>>) -> Seq<Seq<char>> {
    match value {
        Some(v) => seq![key + "="@ + v],
        None => Seq::empty(),
    }
}

/// The variables that are set.
pub open spec fn settings(
    lc_all: Option<Seq<char>>,
    lc_ctype: Option<Seq<char>>,
    lang: Option<Seq<char>>,
) -> Seq<Seq<char>> {
    setting("LC_ALL"@, lc_all) + setting("LC_CTYPE"@, lc_ctype) + setting("LANG"@, lang)
}

pub open spec fn utf8_check(
    lc_all: Option<Seq<char>>,
    lc_ctype: Option<Seq<char>>,
    lang_var: Option<Seq<char>>,
    lang: Lang,
) -> CheckModel {
    let t = dict_of(lang);
    let seen = settings(lc_all, lc_ctype, lang_var);
    if opt_names_utf8(lc_all) || opt_names_utf8(lc_ctype) || opt_names_utf8(lang_var) {
        passing(t.d_name_utf8@, join_of(seen, " "@))
    } else if seen.len() == 0 {
        warning(t.d_name_utf8@, t.d_utf8_none@, Some(t.d_utf8_none_fix@))
    } else {
        warning(
            t.d_name_utf8@,
            fmt_of(t.d_utf8_not@, seq![join_of(seen, " "@)]),
            Some(t.d_utf8_fix@),
        )
    }
}

/// Notes a variable, and says whether it names the encoding.
fn observe(seen: &mut Vec<String>, key: &str, value: &Option<String>) -> (r: bool)
    ensures
        views(final(seen)@) == views(old(seen)@) + setting(key@, opt_view(*value)),
        r == opt_names_utf8(opt_view(*value)),
{
    match value {
        None => {
            assert(views(seen@) + Seq::<Seq<char>>::empty() =~= views(seen@));
            false
        },
        Some(v) => {
            let chars: Vec<char> = chars_of(v.as_str());
            let small: Vec<char> = lowercase_ascii(chars.as_slice());
            let found: bool = find(small.as_slice(), "utf-8").is_some() || find(
                small.as_slice(),
                "utf8",
            ).is_some();
            let mut line: String = key.to_owned();
            line.append("=");
            line.append(v.as_str());
            let ghost before = views(seen@);
            push_string(seen, line);
            assert(views(seen@) =~= before + setting(key@, opt_view(*value)));
            found
        },
    }
}

pub fn check_utf8(
    lc_all: &Option<String>,
    lc_ctype: &Option<String>,
    lang_var: &Option<String>,
    lang: Lang,
) -> (r: Check)
    ensures
        r@ == utf8_check(opt_view(*lc_all), opt_view(*lc_ctype), opt_view(*lang_var), lang),
{
    let t = dict(lang);
    let mut seen: Vec<String> = Vec::new();
    assert(views(seen@) =~= Seq::empty());
    let a: bool = observe(&mut seen, "LC_ALL", lc_all);
    let b: bool = observe(&mut seen, "LC_CTYPE", lc_ctype);
    let c: bool = observe(&mut seen, "LANG", lang_var);
    assert(views(seen@) =~= settings(opt_view(*lc_all), opt_view(*lc_ctype), opt_view(*lang_var)));
    assert(views(seen@).len() == seen@.len());
    if a || b || c {
        return Check::pass(t.d_name_utf8, join(&seen, " ").as_str());
    }
    if seen.len() == 0 {
        return Check::warn(t.d_name_utf8, t.d_utf8_none).with_fix(t.d_utf8_none_fix);
    }
    Check::warn(
        t.d_name_utf8,
        fmt1(t.d_utf8_not, join(&seen, " ").as_str()).as_str(),
    ).with_fix(t.d_utf8_fix)
}

/// The names of the dead sessions, in their order.
pub open spec fn dead_names(sessions: Seq<SessionView>) -> Seq<Seq<char>>
    decreases sessions.len(),
{
    if sessions.len() == 0 {
        Seq::empty()
    } else if sessions.last().status is Dead {
        dead_names(sessions.drop_last()).push(sessions.last().name)
    } else {
        dead_names(sessions.drop_last())
    }
}

pub open spec fn unreachable_count(sessions: Seq<SessionView>) -> nat
    decreases sessions.len(),
{
    if sessions.len() == 0 {
        0
    } else {
        unreachable_count(sessions.drop_last()) + if sessions.last().status is Unreachable {
            1nat
        } else {
            0
        }
    }
}

pub open spec fn dead_check(enumeration: Result<Enumeration, Error>, lang: Lang) -> CheckModel {
    let t = dict_of(lang);
    match enumeration {
        Err(_) => failing(t.d_name_dead@, t.d_cannot_enum@, t.d_fix_screen_first@),
        Ok(e) => {
            let dead = dead_names(e@.list.sessions);
            let unreachable = unreachable_count(e@.list.sessions);
            if dead.len() == 0 {
                passing(
                    t.d_name_dead@,
                    if unreachable == 0 {
                        t.d_dead_none@
                    } else {
                        fmt_of(t.d_dead_unreachable@, seq![decimal_of(unreachable)])
                    },
                )
            } else {
                warning(
                    t.d_name_dead@,
                    fmt_of(
                        t.d_dead_list@,
                        seq![decimal_of(dead.len()), join_of(dead, ", "@)],
                    ),
                    Some(t.d_dead_fix@),
                )
            }
        },
    }
}

pub fn check_dead_sessions(enumeration: &Result<Enumeration, Error>, lang: Lang) -> (r: Check)
    ensures
        r@ == dead_check(*enumeration, lang),
{
    let t = dict(lang);
    match enumeration {
        Err(_) => Check::fail(t.d_name_dead, t.d_cannot_enum, t.d_fix_screen_first),
        Ok(e) => {
            let sessions = &e.list.sessions;
            let ghost all = session_views(sessions@);
            let mut dead: Vec<String> = Vec::new();
            let mut unreachable: usize = 0;
            let mut i: usize = 0;
            assert(views(dead@) =~= dead_names(all.take(0)));
            while i < sessions.len()
                invariant
                    all == session_views(sessions@),
                    i <= sessions@.len(),
                    views(dead@) == dead_names(all.take(i as int)),
                    unreachable <= i,
                    unreachable == unreachable_count(all.take(i as int)),
                decreases sessions.len() - i,
            {
                assert(all.take(i + 1).drop_last() =~= all.take(i as int));
                assert(all.take(i + 1).last() == sessions@[i as int]@);
                match sessions[i].status {
                    Status::Dead => {
                        push_string(&mut dead, sessions[i].name.as_str().to_owned());
                    },
                    Status::Unreachable => {
                        unreachable += 1;
                    },
                    _ => {},
                }
                i += 1;
            }
            assert(all.take(i as int) =~= all);
            assert(views(dead@).len() == dead@.len());
            if dead.len() == 0 {
                if unreachable == 0 {
                    return Check::pass(t.d_name_dead, t.d_dead_none);
                }
                return Check::pass(
                    t.d_name_dead,
                    fmt1(t.d_dead_unreachable, decimal(unreachable as u64).as_str()).as_str(),
                );
            }
            Check::warn(
                t.d_name_dead,
                fmt2(
                    t.d_dead_list,
                    decimal(dead.len() as u64).as_str(),
                    join(&dead, ", ").as_str(),
                ).as_str(),
            ).with_fix(t.d_dead_fix)
        },
    }
}

pub open spec fn nesting_check(sty: Option<Seq<char>>, lang: Lang) -> CheckModel {
    let t = dict_of(lang);
    match non_empty(sty) {
        None => passing(t.d_name_nesting@, t.d_not_inside@),
        Some(s) => warning(
            t.d_name_nesting@,
            fmt_of(t.d_inside@, seq![s]),
            Some(t.d_inside_fix@),
        ),
    }
}

pub fn check_inside_screen(sty: &Option<String>, lang: Lang) -> (r: Check)
    ensures
        r@ == nesting_check(opt_view(*sty), lang),
{
    let t = dict(lang);
    match keep_non_empty(clone_opt(sty)) {
        None => Check::pass(t.d_name_nesting, t.d_not_inside),
        Some(s) => Check::warn(t.d_name_nesting, fmt1(t.d_inside, s.as_str()).as_str()).with_fix(
            t.d_inside_fix,
        ),
    }
}

pub open spec fn size_check(size: Result<(u16, u16), String>, lang: Lang) -> CheckModel {
    let t = dict_of(lang);
    match size {
        Ok((cols, rows)) => if cols < 40 || rows < 10 {
            warning(
                t.d_name_size@,
                fmt_of(t.d_size_small@, seq![decimal_of(cols as nat), decimal_of(rows as nat)]),
                None,
            )
        } else {
            passing(t.d_name_size@, decimal_of(cols as nat) + "x"@ + decimal_of(rows as nat))
        },
        Err(err) => warning(t.d_name_size@, fmt_of(t.d_size_err@, seq![err@]), None),
    }
}

pub fn check_terminal_size(size: &Result<(u16, u16), String>, lang: Lang) -> (r: Check)
    ensures
        r@ == size_check(*size, lang),
{
    let t = dict(lang);
    match size {
        Ok((cols, rows)) => {
            let c: String = decimal(*cols as u64);
            let h: String = decimal(*rows as u64);
            if *cols < 40 || *rows < 10 {
                return Check::warn(
                    t.d_name_size,
                    fmt2(t.d_size_small, c.as_str(), h.as_str()).as_str(),
                );
            }
            let mut shown: String = c;
            shown.append("x");
            shown.append(h.as_str());
            Check::pass(t.d_name_size, shown.as_str())
        },
        Err(err) => Check::warn(t.d_name_size, fmt1(t.d_size_err, err.as_str()).as_str()),
    }
}

pub open spec fn config_check(
    dir: Option<(String, DirSource)>,
    writable: Result<(), String>,
    lang: Lang,
) -> CheckModel {
    let t = dict_of(lang);
    match dir {
        None => failing(t.d_name_config@, t.d_config_missing@, t.d_config_missing_fix@),
        Some((d, source)) => {
            let shown = d@ + " (from "@ + dir_source_label(source) + ")"@;
            match writable {
                Ok(_) => passing(t.d_name_config@, fmt_of(t.d_config_ok@, seq![shown])),
                Err(err) => failing(
                    t.d_name_config@,
                    fmt_of(t.d_config_fail@, seq![shown, err@]),
                    fmt_of(t.d_config_perm_fix@, seq![d@]),
                ),
            }
        },
    }
}

pub fn check_config_writable(
    dir: &Option<(String, DirSource)>,
    writable: &Result<(), String>,
    lang: Lang,
) -> (r: Check)
    ensures
        r@ == config_check(*dir, *writable, lang),
{
    let t = dict(lang);
    match dir {
        None => Check::fail(t.d_name_config, t.d_config_missing, t.d_config_missing_fix),
        Some((d, source)) => {
            let mut shown: String = d.as_str().to_owned();
            shown.append(" (from ");
            shown.append(source.label());
            shown.append(")");
            match writable {
                Ok(_) => Check::pass(
                    t.d_name_config,
                    fmt1(t.d_config_ok, shown.as_str()).as_str(),
                ),
                Err(err) => Check::fail(
                    t.d_name_config,
                    fmt2(t.d_config_fail, shown.as_str(), err.as_str()).as_str(),
                    fmt1(t.d_config_perm_fix, d.as_str()).as_str(),
                ),
            }
        },
    }
}

/// The first session that can be connected to.
pub open spec fn first_connectable(sessions: Seq<SessionView>) -> Option<SessionView>
    decreases sessions.len(),
{
    if sessions.len() == 0 {
        None
    } else if connectable(sessions[0].status) {
        Some(sessions[0])
    } else {
        first_connectable(sessions.drop_first())
    }
}

proof fn lemma_first_connectable(sessions: Seq<SessionView>, i: int)
    requires
        0 <= i <= sessions.len(),
        i < sessions.len() ==> connectable(sessions[i].status),
        forall|j: int| 0 <= j < i ==> !connectable((#[trigger] sessions[j]).status),
    ensures
        first_connectable(sessions) == if i < sessions.len() {
            Some(sessions[i])
        } else {
            None
        },
    decreases sessions.len(),
{
    if sessions.len() > 0 && i > 0 {
        assert(!connectable(sessions[0].status));
        let rest = sessions.drop_first();
        assert forall|j: int| 0 <= j < i - 1 implies !connectable((#[trigger] rest[j]).status) by {
            assert(rest[j] == sessions[j + 1]);
        }
        lemma_first_connectable(rest, i - 1);
    }
}

/// The session on which a snapshot is tried out.
pub open spec fn trial_of(enumeration: Result<Enumeration, Error>) -> Option<Seq<char>> {
    match enumeration {
        Ok(e) => match first_connectable(e@.list.sessions) {
            Some(s) => Some(s.full),
            None => None,
        },
        Err(_) => None,
    }
}

/// The session on which capabilities are tried out.
pub fn trial_session(enumeration: &Result<Enumeration, Error>) -> (r: Option<String>)
    ensures
        opt_view(r) == trial_of(*enumeration),
{
    match enumeration {
        Err(_) => None,
        Ok(e) => {
            let ghost all = session_views(e.list.sessions@);
            match e.list.probe_target() {
                Some(s) => {
                    proof {
                        let i = choose|i: int|
                            {
                                &&& 0 <= i < e.list.sessions@.len()
                                &&& *s == #[trigger] e.list.sessions@[i]
                                &&& connectable(s@.status)
                                &&& forall|j: int|
                                    0 <= j < i ==> !connectable(
                                        (#[trigger] e.list.sessions@[j])@.status,
                                    )
                            };
                        assert forall|j: int| 0 <= j < i implies !connectable(
                            (#[trigger] all[j]).status,
                        ) by {
                            assert(all[j] == e.list.sessions@[j]@);
                        }
                        assert(all[i] == s@);
                        lemma_first_connectable(all, i);
                    }
                    Some(s.full.as_str().to_owned())
                },
                None => {
                    proof {
                        assert forall|j: int| 0 <= j < all.len() implies !connectable(
                            (#[trigger] all[j]).status,
                        ) by {
                            assert(all[j] == e.list.sessions@[j]@);
                        }
                        lemma_first_connectable(all, all.len() as int);
                    }
                    None
                },
            }
        },
    }
}

pub open spec fn history_text(history: Support, lang: Lang) -> Seq<char> {
    let t = dict_of(lang);
    match history {
        Support::Yes => t.d_hist_yes@,
        Support::No => t.d_hist_no@,
        Support::Unknown => t.d_hist_unknown@,
    }
}

/// That snapshots do not work is no failure: previews then show less.
pub open spec fn preview_check(
    caps: Result<Caps, Error>,
    enumeration: Result<Enumeration, Error>,
    hardcopy: Result<HardcopyProbe, Error>,
    lang: Lang,
) -> CheckModel {
    let t = dict_of(lang);
    match caps {
        Err(err) => failing(t.d_name_preview@, error_text(err@), t.d_install_screen@),
        Ok(_) => match trial_of(enumeration) {
            None => warning(
                t.d_name_preview@,
                t.d_no_session_probe@,
                Some(t.d_no_session_probe_fix@),
            ),
            Some(full) => match hardcopy {
                Err(err) => warning(
                    t.d_name_preview@,
                    fmt_of(t.d_hc_probe_failed@, seq![error_text(err@)]),
                    None,
                ),
                Ok(probe) => match probe.hardcopy {
                    Support::Yes => passing(
                        t.d_name_preview@,
                        fmt_of(t.d_hc_ok@, seq![full, history_text(probe.history, lang)]),
                    ),
                    Support::No => warning(
                        t.d_name_preview@,
                        fmt_of(t.d_hc_no@, seq![probe.detail@]),
                        None,
                    ),
                    Support::Unknown => warning(
                        t.d_name_preview@,
                        fmt_of(t.d_hc_unknown@, seq![probe.detail@]),
                        None,
                    ),
                },
            },
        },
    }
}

pub fn check_preview(
    caps: &Result<Caps, Error>,
    enumeration: &Result<Enumeration, Error>,
    hardcopy: &Result<HardcopyProbe, Error>,
    lang: Lang,
) -> (r: Check)
    ensures
        r@ == preview_check(*caps, *enumeration, *hardcopy, lang),
{
    let t = dict(lang);
    if let Err(err) = caps {
        return Check::fail(t.d_name_preview, err.message().as_str(), t.d_install_screen);
    }
    match trial_session(enumeration) {
        None => Check::warn(t.d_name_preview, t.d_no_session_probe).with_fix(
            t.d_no_session_probe_fix,
        ),
        Some(full) => match hardcopy {
            Err(err) => Check::warn(
                t.d_name_preview,
                fmt1(t.d_hc_probe_failed, err.message().as_str()).as_str(),
            ),
            Ok(probe) => {
                let history: &str = match probe.history {
                    Support::Yes => t.d_hist_yes,
                    Support::No => t.d_hist_no,
                    Support::Unknown => t.d_hist_unknown,
                };
                match probe.hardcopy {
                    Support::Yes => Check::pass(
                        t.d_name_preview,
                        fmt2(t.d_hc_ok, full.as_str(), history).as_str(),
                    ),
                    Support::No => Check::warn(
                        t.d_name_preview,
                        fmt1(t.d_hc_no, probe.detail.as_str()).as_str(),
                    ),
                    Support::Unknown => Check::warn(
                        t.d_name_preview,
                        fmt1(t.d_hc_unknown, probe.detail.as_str()).as_str(),
                    ),
                }
            },
        },
    }
}

// ---------------------------------------------------------------------------
// The report
// ---------------------------------------------------------------------------
#[derive(Debug)]
pub struct Report {
    pub checks: Vec<Check>,
    /// Remarks that decide nothing.
    pub notes: Vec<String>,
}

/// The model of a [`Report`].
#[verifier::ext_equal]
pub struct ReportModel {
    pub checks: Seq<CheckModel>,
    pub notes: Seq<Seq<char>>,
}

impl View for Report {
    type V = ReportModel;

    open spec fn view(&self) -> ReportModel {
        ReportModel { checks: check_views(self.checks@), notes: views(self.notes@) }
    }
}

impl Default for Report {
    fn default() -> (r: Self)
        ensures
            r@ == (ReportModel { checks: Seq::empty(), notes: Seq::empty() }),
    {
        let r = Report { checks: Vec::new(), notes: Vec::new() };
        assert(r@ =~= ReportModel { checks: Seq::empty(), notes: Seq::empty() });
        r
    }
}

/// How many answers are of a level.
pub open spec fn level_count(checks: Seq<CheckModel>, level: Level) -> nat
    decreases checks.len(),
{
    if checks.len() == 0 {
        0
    } else {
        level_count(checks.drop_last(), level) + if checks.last().level == level {
            1nat
        } else {
            0
        }
    }
}

pub open spec fn any_failure(checks: Seq<CheckModel>) -> bool {
    exists|i: int| 0 <= i < checks.len() && (#[trigger] checks[i]).level == Level::Fail
}

/// The widest name of a question.
pub open spec fn widest_name(checks: Seq<CheckModel>) -> nat
    decreases checks.len(),
{
    if checks.len() == 0 {
        0
    } else {
        let rest = widest_name(checks.drop_last());
        let last = text_columns(checks.last().name);
        if last > rest {
            last
        } else {
            rest
        }
    }
}

/// The number and the level.
pub open spec fn check_head(i: nat, level: Level) -> Seq<char> {
    let number = decimal_of(i + 1);
    spaces(2 - number.len()) + number + ". ["@ + level_label(level) + "] "@
}

/// The lines of an answer.
pub open spec fn check_text(i: nat, c: CheckModel, width: nat, lang: Lang) -> Seq<char> {
    let head = check_head(i, c.level);
    head + pad_of(c.name, width) + "  "@ + c.detail + "\n"@ + match c.fix {
        Some(fix) => spaces(text_columns(head) as int) + dict_of(lang).d_fix@ + fix + "\n"@,
        None => Seq::empty(),
    }
}

pub open spec fn checks_text(checks: Seq<CheckModel>, width: nat, lang: Lang) -> Seq<char>
    decreases checks.len(),
{
    if checks.len() == 0 {
        Seq::empty()
    } else {
        checks_text(checks.drop_last(), width, lang) + check_text(
            (checks.len() - 1) as nat,
            checks.last(),
            width,
            lang,
        )
    }
}

pub open spec fn notes_text(notes: Seq<Seq<char>>) -> Seq<char>
    decreases notes.len(),
{
    if notes.len() == 0 {
        Seq::empty()
    } else {
        notes_text(notes.drop_last()) + "  - "@ + notes.last() + "\n"@
    }
}

/// The whole report: a title, the answers, how many there are of each level, and
/// the remarks.
pub open spec fn report_text(m: ReportModel, lang: Lang) -> Seq<char> {
    let t = dict_of(lang);
    let c = m.checks;
    t.d_title@ + "\n"@ + checks_text(c, widest_name(c), lang) + "\n"@ + fmt_of(
        t.d_summary@,
        seq![
            decimal_of(level_count(c, Level::Pass)),
            decimal_of(level_count(c, Level::Warn)),
            decimal_of(level_count(c, Level::Fail)),
        ],
    ) + "\n"@ + if m.notes.len() == 0 {
        Seq::empty()
    } else {
        "\n"@ + t.d_notes@ + "\n"@ + notes_text(m.notes)
    }
}

/// A character that a terminal may take for the beginning of an escape sequence: the
/// escape character, or one of the controls that stand for two characters of a sequence.
pub open spec fn begins_escape(c: char) -> bool {
    c as int == 0x1b || 0x80 <= c as int <= 0x9f
}

/// What could begin an escape sequence becomes a question mark; everything else stays.
pub open spec fn plain_of(s: Seq<char>) -> Seq<char> {
    s.map_values(
        |c: char|
            if begins_escape(c) {
                '?'
            } else {
                c
            },
    )
}

fn may_escape(c: char) -> (r: bool)
    ensures
        r == begins_escape(c),
{
    let n: u32 = c as u32;
    n == 0x1b || (0x80 <= n && n <= 0x9f)
}

fn plain(text: &str) -> (r: String)
    ensures
        r@ == plain_of(text@),
{
    let chars: Vec<char> = chars_of(text);
    let mut out: String = String::new();
    let mut i: usize = 0;
    while i < chars.len()
        invariant
            i <= chars@.len(),
            chars@ == text@,
            out@.len() == i,
            forall|k: int| 0 <= k < i ==> out@[k] == plain_of(text@)[k],
        decreases chars.len() - i,
    {
        if may_escape(chars[i]) {
            out.push('?');
        } else {
            out.push(chars[i]);
        }
        i += 1;
    }
    assert(out@ =~= plain_of(text@));
    out
}

/// Whatever the environment holds, nothing in a report begins an escape sequence, and
/// whatever begins none is printed as it is.
pub proof fn reports_are_safe_to_pipe(m: ReportModel, lang: Lang, i: int)
    requires
        0 <= i < report_text(m, lang).len(),
    ensures
        plain_of(report_text(m, lang)).len() == report_text(m, lang).len(),
        !begins_escape(plain_of(report_text(m, lang))[i]),
        !begins_escape(report_text(m, lang)[i]) ==> plain_of(report_text(m, lang))[i]
            == report_text(m, lang)[i],
{
}

impl Report {
    pub fn has_failure(&self) -> (r: bool)
        ensures
            r == any_failure(self@.checks),
    {
        let ghost all = check_views(self.checks@);
        let mut i: usize = 0;
        while i < self.checks.len()
            invariant
                all == check_views(self.checks@),
                i <= self.checks@.len(),
                forall|k: int| 0 <= k < i ==> (#[trigger] all[k]).level != Level::Fail,
            decreases self.checks.len() - i,
        {
            assert(all[i as int] == self.checks@[i as int]@);
            if self.checks[i].level == Level::Fail {
                return true;
            }
            i += 1;
        }
        false
    }

    /// Zero, or two if anything failed.
    pub fn exit_code(&self) -> (r: u8)
        ensures
            r == if any_failure(self@.checks) {
                2u8
            } else {
                0u8
            },
    {
        if self.has_failure() {
            2
        } else {
            0
        }
    }

    fn count(&self, level: Level) -> (r: usize)
        ensures
            r == level_count(self@.checks, level),
    {
        let ghost all = check_views(self.checks@);
        let mut n: usize = 0;
        let mut i: usize = 0;
        while i < self.checks.len()
            invariant
                all == check_views(self.checks@),
                i <= self.checks@.len(),
                n <= i,
                n == level_count(all.take(i as int), level),
            decreases self.checks.len() - i,
        {
            assert(all.take(i + 1).drop_last() =~= all.take(i as int));
            assert(all.take(i + 1).last() == self.checks@[i as int]@);
            if self.checks[i].level == level {
                n += 1;
            }
            i += 1;
        }
        assert(all.take(i as int) =~= all);
        n
    }

    /// How many passed, how many are warnings, and how many failed.
    pub fn counts(&self) -> (r: (usize, usize, usize))
        ensures
            r.0 == level_count(self@.checks, Level::Pass),
            r.1 == level_count(self@.checks, Level::Warn),
            r.2 == level_count(self@.checks, Level::Fail),
    {
        (self.count(Level::Pass), self.count(Level::Warn), self.count(Level::Fail))
    }

    fn name_width(&self) -> (r: usize)
        ensures
            r == widest_name(self@.checks),
    {
        let ghost all = check_views(self.checks@);
        let mut max: usize = 0;
        let mut i: usize = 0;
        while i < self.checks.len()
            invariant
                all == check_views(self.checks@),
                i <= self.checks@.len(),
                max == widest_name(all.take(i as int)),
            decreases self.checks.len() - i,
        {
            assert(all.take(i + 1).drop_last() =~= all.take(i as int));
            assert(all.take(i + 1).last() == self.checks@[i as int]@);
            let w: usize = display_width(self.checks[i].name);
            if w > max {
                max = w;
            }
            i += 1;
        }
        assert(all.take(i as int) =~= all);
        max
    }

    /// The report as text.
    pub fn render(&self, lang: Lang) -> (r: String)
        ensures
            r@ == plain_of(report_text(self@, lang)),
    {
        let t = dict(lang);
        let ghost all = check_views(self.checks@);
        let width: usize = self.name_width();
        let mut out: String = t.d_title.to_owned();
        out.append("\n");
        let ghost title = out@;
        let mut i: usize = 0;
        assert(title + checks_text(all.take(0), width as nat, lang) =~= title);
        while i < self.checks.len()
            invariant
                all == check_views(self.checks@),
                i <= self.checks@.len(),
                out@ == title + checks_text(all.take(i as int), width as nat, lang),
            decreases self.checks.len() - i,
        {
            assert(all.take(i + 1).drop_last() =~= all.take(i as int));
            assert(all.take(i + 1).last() == self.checks@[i as int]@);
            let text: String = check_lines(i, &self.checks[i], width, lang);
            let ghost before = out@;
            out.append(text.as_str());
            assert(out@ =~= title + (checks_text(all.take(i as int), width as nat, lang)
                + text@));
            i += 1;
        }
        assert(all.take(i as int) =~= all);
        let (passed, warned, failed) = self.counts();
        out.append("\n");
        out.append(
            fmt3(
                t.d_summary,
                decimal(passed as u64).as_str(),
                decimal(warned as u64).as_str(),
                decimal(failed as u64).as_str(),
            ).as_str(),
        );
        out.append("\n");
        let ghost upper = out@;
        assert(views(self.notes@).len() == self.notes@.len());
        if self.notes.len() > 0 {
            out.append("\n");
            out.append(t.d_notes);
            out.append("\n");
            out.append(note_lines(&self.notes).as_str());
            assert(out@ =~= upper + ("\n"@ + t.d_notes@ + "\n"@ + notes_text(self@.notes)));
        } else {
            assert(out@ =~= upper + Seq::<char>::empty());
        }
        assert(out@ =~= report_text(self@, lang));
        plain(out.as_str())
    }
}

fn check_lines(i: usize, check: &Check, width: usize, lang: Lang) -> (r: String)
    requires
        i < usize::MAX,
    ensures
        r@ == check_text(i as nat, check@, width as nat, lang),
{
    let t = dict(lang);
    let number: String = decimal(i as u64 + 1);
    let digits: usize = number.as_str().unicode_len();
    let mut head: String = String::new();
    if digits < 2 {
        push_spaces(&mut head, 2 - digits);
    }
    assert(head@ =~= spaces(2 - number@.len()));
    head.append(number.as_str());
    head.append(". [");
    head.append(check.level.label());
    head.append("] ");
    assert(head@ =~= check_head(i as nat, check.level));
    let indent: usize = display_width(head.as_str());
    let mut out: String = head;
    out.append(pad_right(check.name, width).as_str());
    out.append("  ");
    out.append(check.detail.as_str());
    out.append("\n");
    let ghost first = out@;
    match &check.fix {
        Some(fix) => {
            push_spaces(&mut out, indent);
            out.append(t.d_fix);
            out.append(fix.as_str());
            out.append("\n");
            assert(out@ =~= first + (spaces(indent as int) + t.d_fix@ + fix@ + "\n"@));
        },
        None => {
            assert(out@ =~= first + Seq::<char>::empty());
        },
    }
    assert(out@ =~= check_text(i as nat, check@, width as nat, lang));
    out
}

fn note_lines(notes: &Vec<String>) -> (r: String)
    ensures
        r@ == notes_text(views(notes@)),
{
    let ghost all = views(notes@);
    let mut out: String = String::new();
    let mut i: usize = 0;
    assert(out@ =~= notes_text(all.take(0)));
    while i < notes.len()
        invariant
            all == views(notes@),
            i <= notes@.len(),
            out@ == notes_text(all.take(i as int)),
        decreases notes.len() - i,
    {
        assert(all.take(i + 1).drop_last() =~= all.take(i as int));
        assert(all.take(i + 1).last() == notes@[i as int]@);
        out.append("  - ");
        out.append(notes[i].as_str());
        out.append("\n");
        i += 1;
    }
    assert(all.take(i as int) =~= all);
    out
}

/// The answers, in their order.
pub open spec fn all_checks(f: Facts, lang: Lang) -> Seq<CheckModel> {
    seq![
        screen_check(f.program, lang),
        version_check(f.caps, lang),
        socket_check(f.enumeration, f.screendir_empty, lang),
        listing_check(f.enumeration, lang),
        terminfo_check(f.terminfo, lang),
        utf8_check(opt_view(f.lc_all), opt_view(f.lc_ctype), opt_view(f.lang), lang),
        dead_check(f.enumeration, lang),
        nesting_check(opt_view(f.sty), lang),
        size_check(f.size, lang),
        config_check(f.config_dir, f.writable, lang),
        preview_check(f.caps, f.enumeration, f.hardcopy, lang),
    ]
}

/// The remarks: on the listing, on what was tried, and that one of the checks
/// writes a file.
pub open spec fn all_notes(f: Facts, lang: Lang) -> Seq<Seq<char>> {
    let listing = match f.enumeration {
        Ok(e) => notes_of(e@),
        Err(_) => Seq::empty(),
    };
    let tried = match f.caps {
        Ok(c) => c@.probe_notes.map_values(|n: Seq<char>| "caps: "@ + n),
        Err(_) => Seq::empty(),
    };
    (listing + tried).push(dict_of(lang).d_note11@)
}

/// Answers every question.
pub fn run(facts: &Facts, lang: Lang) -> (r: Report)
    ensures
        r@ == (ReportModel { checks: all_checks(*facts, lang), notes: all_notes(*facts, lang) }),
        r.checks@.len() == CHECK_COUNT,
{
    let t = dict(lang);
    let mut checks: Vec<Check> = Vec::new();
    checks.push(check_screen_executable(&facts.program, lang));
    checks.push(check_version(&facts.caps, lang));
    checks.push(check_socket_dir(&facts.enumeration, facts.screendir_empty, lang));
    checks.push(check_enumeration(&facts.enumeration, lang));
    checks.push(check_terminfo(facts.terminfo, lang));
    checks.push(check_utf8(&facts.lc_all, &facts.lc_ctype, &facts.lang, lang));
    checks.push(check_dead_sessions(&facts.enumeration, lang));
    checks.push(check_inside_screen(&facts.sty, lang));
    checks.push(check_terminal_size(&facts.size, lang));
    checks.push(check_config_writable(&facts.config_dir, &facts.writable, lang));
    checks.push(check_preview(&facts.caps, &facts.enumeration, &facts.hardcopy, lang));
    assert(check_views(checks@) =~= all_checks(*facts, lang));
    let mut notes: Vec<String> = Vec::new();
    assert(views(notes@) =~= Seq::empty());
    if let Ok(e) = &facts.enumeration {
        let found: Vec<String> = e.notes();
        extend_strings(&mut notes, &found);
        assert(views(notes@) =~= notes_of(e@));
    }
    let ghost listing = views(notes@);
    if let Ok(c) = &facts.caps {
        let ghost tried = c@.probe_notes.map_values(|n: Seq<char>| "caps: "@ + n);
        let mut i: usize = 0;
        assert(views(notes@) =~= listing + tried.take(0));
        while i < c.probe_notes.len()
            invariant
                tried == c@.probe_notes.map_values(|n: Seq<char>| "caps: "@ + n),
                i <= c.probe_notes@.len(),
                views(notes@) == listing + tried.take(i as int),
            decreases c.probe_notes.len() - i,
        {
            let mut line: String = "caps: ".to_owned();
            line.append(c.probe_notes[i].as_str());
            assert(tried[i as int] == line@);
            push_string(&mut notes, line);
            i += 1;
            assert(views(notes@) =~= listing + tried.take(i as int));
        }
        assert(tried.take(i as int) =~= tried);
    } else {
        assert(listing + Seq::<Seq<char>>::empty() =~= listing);
    }
    push_string(&mut notes, t.d_note11.to_owned());
    let r = Report { checks, notes };
    assert(r@.notes =~= all_notes(*facts, lang));
    r
}

/// The levels make up all answers, and the report counts as an error exactly if
/// one of them is a failure: warnings alone never do.
pub proof fn only_failures_count(checks: Seq<CheckModel>)
    ensures
        any_failure(checks) <==> level_count(checks, Level::Fail) > 0,
        level_count(checks, Level::Pass) + level_count(checks, Level::Warn) + level_count(
            checks,
            Level::Fail,
        ) == checks.len(),
    decreases checks.len(),
{
    if checks.len() > 0 {
        let rest = checks.drop_last();
        only_failures_count(rest);
        if any_failure(rest) {
            let i = choose|i: int| 0 <= i < rest.len() && (#[trigger] rest[i]).level == Level::Fail;
            assert(checks[i].level == Level::Fail);
        }
        if checks.last().level == Level::Fail {
            assert(checks[checks.len() - 1].level == Level::Fail);
        } else if any_failure(checks) {
            let i = choose|i: int|
                0 <= i < checks.len() && (#[trigger] checks[i]).level == Level::Fail;
            assert(rest[i].level == Level::Fail);
        }
    }
}

/// What could not be found out is never reported as a pass: not an unknown
/// ability to query, not one to take snapshots, and not a terminal whose size is
/// not known.
pub proof fn the_unknown_is_no_pass(f: Facts, lang: Lang)
    ensures
        f.caps matches Ok(c) ==> (c.query == Support::Unknown ==> version_check(f.caps, lang).level
            == Level::Warn),
        (f.caps is Ok && (trial_of(f.enumeration) is None || (f.hardcopy matches Ok(p) && p.hardcopy
            == Support::Unknown) || f.hardcopy is Err)) ==> preview_check(
            f.caps,
            f.enumeration,
            f.hardcopy,
            lang,
        ).level == Level::Warn,
        f.size is Err ==> size_check(f.size, lang).level == Level::Warn,
        f.terminfo == Terminfo::NoTool ==> terminfo_check(f.terminfo, lang).level == Level::Warn,
{
}

} // verus!
