//! When each check of the doctor passes, and what the report says of it.

use crate::doctor::{
    CheckModel, Facts, Level, ReportModel, Terminfo, all_checks, all_notes, check_head,
    checks_text, config_check, dead_check, dead_names, first_connectable, level_count,
    listing_check, nesting_check, notes_text, opt_names_utf8, preview_check, report_text,
    screen_check, settings, size_check, socket_check, terminfo_check, trial_of, utf8_check,
    version_check, widest_name,
};
use crate::i18n::{
    Lang, dict_of, fmt_of,
};
use crate::screen::caps::{
    Caps, Support, Version, version_text,
};
use crate::screen::parse::{
    Enumeration, Outlook, SessionView, connectable, notes_of, outlook_label,
};
use crate::screen::Error;
use crate::text::{
    decimal_of, join_of, lower, occurs_at, opt_view,
};
use crate::text_laws::{
    separators_stand_between, texts_are_found_where_they_stand_first,
};
use crate::util::width::{
    pad_of, spaces, text_columns,
};
use crate::config::{
    DirSource, dir_source_label,
};
use vstd::prelude::*;

verus! {

/// Without a usable screen, its checks fail. With one, a version passes if it is known and
/// queries work, the sockets if their directory is set sensibly, the listing if the quick
/// look agrees with it, and all of them warn otherwise.
pub proof fn checks_of_screen_pass_when_it_works(f: Facts, lang: Lang)
    ensures
        f.program is Ok ==> screen_check(f.program, lang).level == Level::Pass,
        f.program matches Ok(path) ==> screen_check(f.program, lang).detail == path@,
        f.program is Err ==> screen_check(f.program, lang).level == Level::Fail,
        f.caps is Err ==> version_check(f.caps, lang).level == Level::Fail,
        f.caps matches Ok(c) ==> version_check(f.caps, lang).level == if c.version is Some && c.query
            == Support::Yes {
            Level::Pass
        } else {
            Level::Warn
        },
        f.enumeration is Err ==> socket_check(f.enumeration, f.screendir_empty, lang).level
            == Level::Fail && listing_check(f.enumeration, lang).level == Level::Fail && dead_check(
            f.enumeration,
            lang,
        ).level == Level::Fail,
        f.enumeration is Ok ==> socket_check(f.enumeration, true, lang).level == Level::Warn
            && socket_check(f.enumeration, false, lang).level == Level::Pass,
        f.enumeration matches Ok(e) ==> listing_check(f.enumeration, lang).level == {
            let n = e@.list.sessions.len();
            let agrees = (e@.outlook == Outlook::NoSessions && n == 0) || (
            e@.outlook matches Outlook::Available(k) && k == n);
            if agrees {
                Level::Pass
            } else {
                Level::Warn
            }
        },
{
}

proof fn lemma_dead_names(sessions: Seq<SessionView>)
    ensures
        dead_names(sessions) == sessions.filter(|s: SessionView| s.status is Dead).map_values(
            |s: SessionView| s.name,
        ),
        dead_names(sessions).len() > 0 <==> exists|i: int|
            0 <= i < sessions.len() && (#[trigger] sessions[i]).status is Dead,
    decreases sessions.len(),
{
    reveal(Seq::filter);
    if sessions.len() == 0 {
        assert(sessions.filter(|s: SessionView| s.status is Dead).map_values(
            |s: SessionView| s.name,
        ) =~= Seq::<Seq<char>>::empty());
    } else {
        let front = sessions.drop_last();
        lemma_dead_names(front);
        let f = front.filter(|s: SessionView| s.status is Dead);
        assert(f.push(sessions.last()).map_values(|s: SessionView| s.name) =~= f.map_values(
            |s: SessionView| s.name,
        ).push(sessions.last().name));
        if dead_names(front).len() > 0 {
            let i = choose|i: int| 0 <= i < front.len() && (#[trigger] front[i]).status is Dead;
            assert(sessions[i].status is Dead);
        }
        if sessions.last().status is Dead {
            assert(sessions[sessions.len() - 1].status is Dead);
        }
        if exists|i: int| 0 <= i < sessions.len() && (#[trigger] sessions[i]).status is Dead {
            let i = choose|i: int|
                0 <= i < sessions.len() && (#[trigger] sessions[i]).status is Dead;
            if i < front.len() {
                assert(front[i].status is Dead);
            }
        }
    }
}

/// Dead sessions are warned about, by their names; where there are none, the check passes.
pub proof fn dead_sessions_are_named(e: Enumeration, lang: Lang)
    ensures
        ({
            let sessions = e@.list.sessions;
            let some = exists|i: int|
                0 <= i < sessions.len() && (#[trigger] sessions[i]).status is Dead;
            let names = sessions.filter(|s: SessionView| s.status is Dead).map_values(
                |s: SessionView| s.name,
            );
            let c = dead_check(Ok(e), lang);
            &&& !some ==> c.level == Level::Pass
            &&& some ==> c.level == Level::Warn && c.detail == fmt_of(
                dict_of(lang).d_dead_list@,
                seq![decimal_of(names.len()), join_of(names, ", "@)],
            )
        }),
{
    lemma_dead_names(e@.list.sessions);
}

/// The part stands in the text, in capitals or not.
pub open spec fn mentions(text: Option<Seq<char>>, part: Seq<char>) -> bool {
    text matches Some(t) && exists|i: int| #[trigger] occurs_at(lower(t), part, i)
}

/// The environment passes where a locale variable names UTF-8, the terminal is described
/// and large enough, and the program does not run inside of a screen; it warns otherwise.
pub proof fn checks_of_the_environment_pass_when_it_is_right(f: Facts, lang: Lang)
    ensures
        terminfo_check(f.terminfo, lang).level == if f.terminfo == Terminfo::Present {
            Level::Pass
        } else {
            Level::Warn
        },
        ({
            let a = opt_view(f.lc_all);
            let b = opt_view(f.lc_ctype);
            let c = opt_view(f.lang);
            let utf8 = mentions(a, "utf-8"@) || mentions(a, "utf8"@) || mentions(b, "utf-8"@)
                || mentions(b, "utf8"@) || mentions(c, "utf-8"@) || mentions(c, "utf8"@);
            utf8_check(a, b, c, lang).level == if utf8 {
                Level::Pass
            } else {
                Level::Warn
            }
        }),
        nesting_check(opt_view(f.sty), lang).level == if opt_view(f.sty) matches Some(s) && s.len()
            > 0 {
            Level::Warn
        } else {
            Level::Pass
        },
        f.size is Err ==> size_check(f.size, lang).level == Level::Warn,
        f.size matches Ok(size) ==> size_check(f.size, lang).level == if size.0 >= 40 && size.1
            >= 10 {
            Level::Pass
        } else {
            Level::Warn
        },
{
    lemma_mentions(opt_view(f.lc_all));
    lemma_mentions(opt_view(f.lc_ctype));
    lemma_mentions(opt_view(f.lang));
}

proof fn lemma_mentions(v: Option<Seq<char>>)
    ensures
        opt_names_utf8(v) == (mentions(v, "utf-8"@) || mentions(v, "utf8"@)),
{
    if let Some(t) = v {
        texts_are_found_where_they_stand_first(lower(t), "utf-8"@);
        texts_are_found_where_they_stand_first(lower(t), "utf8"@);
    }
}

/// The configuration passes where its directory is known and can be written, and fails
/// otherwise.
pub proof fn the_configuration_must_be_writable(f: Facts, lang: Lang)
    ensures
        config_check(f.config_dir, f.writable, lang).level == if f.config_dir is Some && f.writable
            is Ok {
            Level::Pass
        } else {
            Level::Fail
        },
{
}

proof fn lemma_first_connectable(sessions: Seq<SessionView>, i: int)
    requires
        0 <= i <= sessions.len(),
        i < sessions.len() ==> connectable(sessions[i].status),
        forall|k: int| 0 <= k < i ==> !connectable((#[trigger] sessions[k]).status),
    ensures
        i < sessions.len() ==> first_connectable(sessions) == Some(sessions[i]),
        i == sessions.len() ==> first_connectable(sessions) is None,
    decreases sessions.len(),
{
    if sessions.len() > 0 && i > 0 {
        assert(!connectable(sessions[0].status));
        let rest = sessions.drop_first();
        assert forall|k: int| 0 <= k < i - 1 implies !connectable((
        #[trigger] rest[k]).status) by {
            assert(rest[k] == sessions[k + 1]);
        }
        lemma_first_connectable(rest, i - 1);
    }
}

/// Snapshots are tried on the first session that is detached or in use; the check passes
/// if that worked, fails without a screen, and warns otherwise.
pub proof fn snapshots_are_tried_on_a_running_session(f: Facts, e: Enumeration, i: int, lang: Lang)
    requires
        f.enumeration == Ok::<Enumeration, Error>(e),
        0 <= i < e@.list.sessions.len(),
        ({
            let s = e@.list.sessions[i].status;
            s is Detached || s is Attached || s is Multi
        }),
        forall|k: int|
            0 <= k < i ==> {
                let s = (#[trigger] e@.list.sessions[k]).status;
                !(s is Detached || s is Attached || s is Multi)
            },
    ensures
        trial_of(f.enumeration) == Some(e@.list.sessions[i].full),
        preview_check(f.caps, f.enumeration, f.hardcopy, lang).level == if f.caps is Err {
            Level::Fail
        } else if f.hardcopy matches Ok(p) && p.hardcopy == Support::Yes {
            Level::Pass
        } else {
            Level::Warn
        },
{
    lemma_first_connectable(e@.list.sessions, i);
}

/// The report holds the eleven checks in their order.
pub proof fn all_checks_are_made(f: Facts, lang: Lang)
    ensures
        ({
            let c = all_checks(f, lang);
            let t = dict_of(lang);
            &&& c.len() == 11
            &&& c[0].name == t.d_name_screen@ && c[1].name == t.d_name_version@
            &&& c[2].name == t.d_name_socket@ && c[3].name == t.d_name_enum@
            &&& c[4].name == t.d_name_terminfo@ && c[5].name == t.d_name_utf8@
            &&& c[6].name == t.d_name_dead@ && c[7].name == t.d_name_nesting@
            &&& c[8].name == t.d_name_size@ && c[9].name == t.d_name_config@
            &&& c[10].name == t.d_name_preview@
            &&& forall|i: int|
                0 <= i < c.len() && (#[trigger] c[i]).level == Level::Fail ==> c[i].fix is Some
        }),
{
}

proof fn lemma_level_count(checks: Seq<CheckModel>, level: Level)
    ensures
        level_count(checks, level) == checks.filter(|c: CheckModel| c.level == level).len(),
    decreases checks.len(),
{
    reveal(Seq::filter);
    if checks.len() > 0 {
        lemma_level_count(checks.drop_last(), level);
    }
}

/// The report begins with its title, then has every check with its number, its level, its
/// name and its detail, and then says how many there are of each level.
pub proof fn reports_hold_every_check(m: ReportModel, lang: Lang)
    requires
        m.notes.len() == 0,
    ensures
        ({
            let t = dict_of(lang);
            let count = |level: Level|
                decimal_of(m.checks.filter(|c: CheckModel| c.level == level).len());
            report_text(m, lang) == t.d_title@ + "\n"@ + checks_text(
                m.checks,
                widest_name(m.checks),
                lang,
            ) + "\n"@ + fmt_of(
                t.d_summary@,
                seq![count(Level::Pass), count(Level::Warn), count(Level::Fail)],
            ) + "\n"@
        }),
{
    lemma_level_count(m.checks, Level::Pass);
    lemma_level_count(m.checks, Level::Warn);
    lemma_level_count(m.checks, Level::Fail);
    let t = dict_of(lang);
    let all = t.d_title@ + "\n"@ + checks_text(m.checks, widest_name(m.checks), lang) + "\n"@
        + fmt_of(
        t.d_summary@,
        seq![
            decimal_of(level_count(m.checks, Level::Pass)),
            decimal_of(level_count(m.checks, Level::Warn)),
            decimal_of(level_count(m.checks, Level::Fail)),
        ],
    ) + "\n"@;
    assert(all + Seq::<char>::empty() =~= all);
}

/// A check is a line with its number from one on, its level, its name and its detail, and
/// a line with what to do about it where there is something to do.
pub proof fn checks_are_written_in_full(
    checks: Seq<CheckModel>,
    c: CheckModel,
    width: nat,
    lang: Lang,
)
    ensures
        ({
            let number = decimal_of(checks.len() + 1);
            let level = match c.level {
                Level::Pass => "PASS"@,
                Level::Warn => "WARN"@,
                Level::Fail => "FAIL"@,
            };
            let head = spaces(2 - number.len()) + number + ". ["@ + level + "] "@;
            let line = head + c.name + spaces(width - text_columns(c.name)) + "  "@ + c.detail
                + "\n"@;
            checks_text(checks.push(c), width, lang) == checks_text(checks, width, lang) + (line
                + match c.fix {
                Some(fix) => spaces(text_columns(head) as int) + dict_of(lang).d_fix@ + fix
                    + "\n"@,
                None => Seq::empty(),
            })
        }),
{
    assert(checks.push(c).drop_last() =~= checks);
    let number = decimal_of(checks.len() + 1);
    let head = check_head(checks.len(), c.level);
    assert(head + pad_of(c.name, width) =~= head + c.name + spaces(width - text_columns(c.name)));
}

/// The remarks on the listing and on what was tried are all passed on, in order.
pub proof fn remarks_are_passed_on(f: Facts, e: Enumeration, c: Caps, lang: Lang)
    requires
        f.enumeration == Ok::<Enumeration, Error>(e),
        f.caps == Ok::<Caps, Error>(c),
    ensures
        ({
            let notes = all_notes(f, lang);
            let first = notes_of(e@);
            let second = c@.probe_notes;
            &&& notes.len() == first.len() + second.len() + 1
            &&& forall|i: int| 0 <= i < first.len() ==> #[trigger] notes[i] == first[i]
            &&& forall|i: int|
                0 <= i < second.len() ==> notes[first.len() + i] == "caps: "@
                    + #[trigger] second[i]
            &&& notes.last() == dict_of(lang).d_note11@
        }),
{
}

/// The remarks follow the report under their own heading, a line each.
pub proof fn remarks_are_written_below(notes: Seq<Seq<char>>, last: Seq<char>)
    ensures
        notes_text(notes.push(last)) == notes_text(notes) + "  - "@ + last + "\n"@,
        notes_text(Seq::empty()) == Seq::<char>::empty(),
{
    assert(notes.push(last).drop_last() =~= notes);
}

/// With remarks the report is what it is without them, then the heading and the remarks.
pub proof fn reports_end_with_the_remarks(m: ReportModel, lang: Lang)
    requires
        m.notes.len() > 0,
    ensures
        report_text(m, lang) == report_text(
            (ReportModel { checks: m.checks, notes: Seq::empty() }),
            lang,
        ) + ("\n"@ + dict_of(lang).d_notes@ + "\n"@ + notes_text(m.notes)),
{
    let bare_report = report_text(ReportModel { checks: m.checks, notes: Seq::empty() }, lang);
    let t = dict_of(lang);
    let c = m.checks;
    let head = t.d_title@ + "\n"@ + checks_text(c, widest_name(c), lang) + "\n"@ + fmt_of(
        t.d_summary@,
        seq![
            decimal_of(level_count(c, Level::Pass)),
            decimal_of(level_count(c, Level::Warn)),
            decimal_of(level_count(c, Level::Fail)),
        ],
    ) + "\n"@;
    assert(head + Seq::<char>::empty() =~= head);
    assert(bare_report == head);
}

/// Each check says what it found: the version and the line it was read from, the directory
/// of the sockets, how many sessions there are, the size, the settings, and where the
/// configuration is and why there.
pub proof fn checks_say_what_they_found(
    caps: Caps,
    v: Version,
    e: Enumeration,
    cols: u16,
    rows: u16,
    dir: String,
    source: DirSource,
    lang: Lang,
)
    requires
        caps.version == Some(v),
    ensures
        ({
            let t = dict_of(lang);
            let version = version_text(v) + " — "@ + caps.version_line@;
            let n = e@.list.sessions.len();
            let place = dir@ + " (from "@ + dir_source_label(source) + ")"@;
            &&& version_check(Ok(caps), lang).detail == fmt_of(
                match caps.query {
                    Support::Yes => t.d_q_ok@,
                    Support::No => t.d_q_no@,
                    Support::Unknown => t.d_q_unknown@,
                },
                seq![version],
            )
            &&& e@.list.socket_dir matches Some(d) ==> socket_check(Ok(e), false, lang).detail
                == fmt_of(t.d_socket_ok@, seq![d])
            &&& listing_check(Ok(e), lang).level == Level::Pass ==> listing_check(
                Ok(e),
                lang,
            ).detail == fmt_of(t.d_enum_ok@, seq![decimal_of(n), outlook_label(e@.outlook)])
            &&& e@.outlook matches Outlook::Available(k) ==> (k != n ==> listing_check(
                Ok(e),
                lang,
            ).detail == fmt_of(t.d_enum_mismatch@, seq![decimal_of(k as nat), decimal_of(n)]))
            &&& cols >= 40 && rows >= 10 ==> size_check(Ok((cols, rows)), lang).detail
                == decimal_of(cols as nat) + "x"@ + decimal_of(rows as nat)
            &&& config_check(Some((dir, source)), Ok(()), lang).detail == fmt_of(
                t.d_config_ok@,
                seq![place],
            )
        }),
{
}

/// The settings are quoted as they stand in the environment, in their order.
pub proof fn locale_settings_are_quoted(a: Seq<char>, b: Seq<char>, c: Seq<char>, lang: Lang)
    requires
        mentions(Some(a), "utf-8"@),
    ensures
        utf8_check(Some(a), None, None, lang).detail == "LC_ALL="@ + a,
        utf8_check(Some(a), Some(b), Some(c), lang).detail == "LC_ALL="@ + a + " "@ + "LC_CTYPE="@
            + b + " "@ + "LANG="@ + c,
        utf8_check(None, None, None, lang).detail == dict_of(lang).d_utf8_none@,
{
    reveal_strlit("LC_ALL");
    reveal_strlit("LC_CTYPE");
    reveal_strlit("LANG");
    reveal_strlit("=");
    reveal_strlit("LC_ALL=");
    reveal_strlit("LC_CTYPE=");
    reveal_strlit("LANG=");
    lemma_mentions(Some(a));
    let x = "LC_ALL="@ + a;
    let y = "LC_CTYPE="@ + b;
    let z = "LANG="@ + c;
    assert("LC_ALL"@ + "="@ + a =~= x);
    assert("LC_CTYPE"@ + "="@ + b =~= y);
    assert("LANG"@ + "="@ + c =~= z);
    assert(settings(Some(a), None, None) =~= seq![x]);
    assert(settings(Some(a), Some(b), Some(c)) =~= seq![x, y].push(z));
    assert(seq![x].push(y) =~= seq![x, y]);
    separators_stand_between(seq![x], " "@, x);
    separators_stand_between(seq![x], " "@, y);
    separators_stand_between(seq![x, y], " "@, z);
    let all = x + " "@ + y + " "@ + z;
    assert("LC_ALL="@ + a + " "@ + "LC_CTYPE="@ + b + " "@ + "LANG="@ + c =~= all);
    assert(settings(None, None, None).len() == 0);
}

} // verus!
