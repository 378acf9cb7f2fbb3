//! The English texts.

use super::dict::Dict;
use vstd::prelude::*;

verus! {

/// The English texts.
#[verifier::opaque]
pub open spec fn english_texts() -> Dict {
    Dict {
        note_label: "note",
        ls_no_sessions: "# no screen sessions found (socket dir {0})",
        ls_summary: "# {0} session(s) · socket dir {1} · {2}",
        ls_col_idx: "IDX",
        ls_col_name: "NAME",
        ls_col_status: "STATUS",
        ls_col_pid: "PID",
        ls_col_created: "CREATED",
        st_detached: "detached",
        st_attached: "attached",
        st_multi: "multi",
        st_dead: "dead",
        st_unreachable: "unreachable",
        outlook_no_sessions: "no sessions (exit 9)",
        outlook_unconnectable: "sessions exist but none connectable (exit 10)",
        outlook_available: "available (exit {0})",
        outlook_inconclusive: "inconclusive (exit {0}, outside the documented 9/10/11+ table)",
        d_title: "stui doctor — environment self-check",
        d_fix: "fix: ",
        d_summary: "{0} pass · {1} warn · {2} fail",
        d_notes: "notes:",
        d_name_screen: "screen executable",
        d_name_version: "version",
        d_name_socket: "socket dir",
        d_name_enum: "session enumeration",
        d_name_terminfo: "terminfo",
        d_name_utf8: "utf-8 locale",
        d_name_dead: "dead sessions",
        d_name_nesting: "screen nesting",
        d_name_size: "terminal size",
        d_name_config: "config directory",
        d_name_preview: "preview ability",
        d_screen_missing_fix: "install GNU Screen: `apt install screen` (Debian/Ubuntu) | `yum install screen` (RHEL) | `brew install screen` (macOS)",
        d_version_na: "screen is not available, cannot determine the version",
        d_install_screen: "install GNU Screen first",
        d_version_unparsed: "cannot parse a version number from `screen -v` output: {0}",
        d_value_empty: "<empty>",
        d_caps_live_fix: "capability flags still come from live probes, so stui keeps working",
        d_q_ok: "{0}; `-Q` query available",
        d_q_no: "{0}; `-Q` query unavailable on this build — window count/title need `-Q` and will be hidden. Core functions are unaffected.",
        d_q_no_fix: "no action needed; this is expected below Screen 4.6",
        d_q_unknown: "{0}; could not verify `-Q` (no session was available to test with)",
        d_q_unknown_fix: "run `stui doctor` again while a session exists to get a definitive answer",
        d_ls_failed: "`screen -ls` failed: {0}",
        d_screendir_fix: "check that $SCREENDIR and $TMPDIR are unset or non-empty — an empty value breaks every screen call; also verify the socket directory permissions",
        d_screendir_empty: "`-ls` works, but $SCREENDIR is exported and EMPTY. It happens to be tolerated on this build (screen falls back to `$TMPDIR/.screen`), yet an empty SCREENDIR has caused `Cannot access ...` on other builds.",
        d_screendir_empty_fix: "unset SCREENDIR, or export it with a real path",
        d_socket_ok: "`-ls` reachable; socket dir {0}",
        d_not_reported: "not reported by `-ls`",
        d_enum_cannot: "cannot run `screen -q -ls`",
        d_fix_screen_first: "fix the `screen executable` check first",
        d_enum_exit10: "`-q -ls` exit 10: sessions exist but none are connectable ({0} listed); the manual flags this as a permissions problem",
        d_enum_perm_fix: "check ownership and permissions of the socket directory",
        d_enum_exit9: "`-q -ls` said no sessions (exit 9) but `-ls` listed {0}; trusting `-ls`. The documented 9/10/11+ exit-code table is not reliable on every build.",
        d_enum_mismatch: "`-q -ls` reported {0} session(s) but `-ls` detailed {1}; trusting `-ls`",
        d_enum_code: "`-q -ls` exited {0}, which is outside the documented 9/10/11+ table (measured on Screen 4.00.03: 8 with no sessions). stui falls back to parsing `-ls` text; {1} session(s) found.",
        d_enum_code_fix: "no action needed; recorded for the version-capability matrix",
        d_enum_ok: "{0} session(s) · {1}",
        d_ti_present: "`screen-256color` is present",
        d_ti_failed: "`infocmp screen-256color` failed (exit {0}); stui degrades to the plain `screen` terminfo, and 256-color output inside sessions may not render",
        d_ti_fix: "install the ncurses terminfo extras: `apt install ncurses-term` (Debian/Ubuntu)",
        d_ti_missing: "`infocmp` is not available, cannot verify terminfo",
        d_ti_missing_fix: "install ncurses-bin (Debian/Ubuntu) if you want this check to work",
        d_utf8_none: "no locale variable is set",
        d_utf8_none_fix: "export LANG=<your>.UTF-8; CJK and emoji session names may otherwise misalign",
        d_utf8_not: "locale is not UTF-8 ({0}); CJK/emoji session names may render wrong or misalign",
        d_utf8_fix: "export LANG=<your>.UTF-8 (suggested, not applied): add `defutf8 on` to ~/.screenrc — stui never edits your screenrc",
        d_cannot_enum: "cannot enumerate sessions",
        d_dead_none: "none",
        d_dead_unreachable: "none dead, but {0} unreachable (display only, never connectable)",
        d_dead_list: "{0} dead session(s): {1} — they pollute the list and can be mis-clicked",
        d_dead_fix: "run `screen -wipe` (or press `W` in the TUI) — stui always asks for confirmation",
        d_not_inside: "not running inside a screen session ($STY unset)",
        d_inside: "running inside a screen session (STY={0}); screen refuses to attach from within itself",
        d_inside_fix: "detach first, or use shared attachment (`-x`) which is the only mode that works from inside",
        d_size_small: "{0}x{1} — very small; the TUI would fall back to the minimal layout (only affects the TUI, not `ls` or `doctor`)",
        d_size_err: "cannot determine terminal size ({0}); stdout is probably not a TTY — only the TUI needs it, `ls` and `doctor` do not",
        d_config_missing: "$HOME is unset and neither $SCREEN_TUI_HOME nor $XDG_CONFIG_HOME is usable",
        d_config_missing_fix: "set $HOME, or point $SCREEN_TUI_HOME at a writable directory",
        d_config_ok: "{0} — writable, mode 0700",
        d_config_fail: "{0} — write probe failed: {1}",
        d_config_perm_fix: "check ownership and permissions of {0}",
        d_no_session_probe: "no connectable session available to test `-X hardcopy`; capability left unverified (nothing was written to disk)",
        d_no_session_probe_fix: "create a session (`screen -dmS probe sleep 60`) and re-run doctor to verify preview",
        d_hist_yes: "history buffer (-h) available",
        d_hist_no: "history buffer (-h) unavailable",
        d_hist_unknown: "history buffer (-h) unverified",
        d_hc_ok: "`-X hardcopy` works on {0} ({1})",
        d_hc_no: "`-X hardcopy` is unsupported on this build ({0}); the preview pane will show metadata only — never stale or fabricated content",
        d_hc_unknown: "could not verify `-X hardcopy` ({0}); preview degrades to metadata only",
        d_hc_probe_failed: "hardcopy probe failed: {0}; preview degrades to metadata only",
        d_note11: "check 11 is the only side-effecting one: it writes a real `-X hardcopy` to a 0600 temp file and removes it immediately.",
        name_empty: "name must not be empty",
        name_leading_dash: "name must not start with '-' (screen would read it as an option)",
        name_bad_char: "name must not contain whitespace or control characters (found {0})",
        name_too_long: "name is longer than {0} characters",
        f_name: "Name",
        f_dir: "Directory",
        f_command: "Command",
        dir_empty: "directory must not be empty",
        not_a_directory: "not a directory: {0}",
        duplicate_note: "a session named '{0}' already exists; address it as <pid>.{0}",
        name_was_taken: "'{0}' was taken; used '{1}'",
        created: "created '{0}'",
        created_with_hint: "created '{0}' ({1})",
        skip_not_listed: "it is not in the session list yet",
        skip_not_unique: "the name is not unique; start it as <pid>.<name>",
        not_entering: "{0}; not entering: {1}",
        create_failed: "create failed: {0}",
        screen_refused: "screen refused to create '{0}' (exit {1}):\n  {2} ran in {3}\n  {4}",
        screen_no_diagnostic: "screen produced no diagnostic output; check the name and directory",
        act_detach: "detach",
        act_kill: "kill",
        act_wipe: "wipe",
        act_cleanup: "cleanup",
        consequence_detach: "detach the attached client (it keeps running)",
        consequence_kill: "TERMINATE the session and all its windows",
        consequence_wipe: "remove all dead session sockets",
        consequence_cleanup: "forget metadata of sessions that no longer exist",
        verify_failed: "cannot verify sessions before connecting: {0}",
        verify_failed_action: "cannot verify sessions before {0}: {1}",
        session_gone: "session '{0}' is gone; list refreshed",
        unknown_state: "'{0}' reports unknown state '{1}'; refusing to connect",
        not_connectable_share: "'{0}' is not connectable; cannot share",
        dead_wipe_hint: "'{0}' is dead; wipe it before connecting",
        unreachable_hint: "'{0}' is unreachable; check the socket dir",
        multi_note: "already shared by several displays; joining may resize everyone's window",
        not_attached: "'{0}' is not attached; nothing to detach (use Enter to connect)",
        no_dead_to_wipe: "no dead sessions; nothing to wipe",
        dead_sessions_display: "dead sessions",
        no_dead_left: "no dead sessions left; nothing to wipe",
        gone_kill: "'{0}' is gone; nothing to kill",
        kill_attached: "'{0}' is attached; kill refused (detach it first)",
        gone_detach: "'{0}' is gone; nothing to detach",
        no_longer_attached: "'{0}' is no longer attached (now {1}); nothing to detach",
        wiped: "dead sessions wiped",
        action_done: "'{0}' {1} done",
        action_failed: "{0} '{1}' failed (exit {2}){3}",
        action_failed_short: "{0} failed: {1}",
        nothing_to_do: "nothing to do",
        attach_failed: "attach failed: {0}",
        attach_exit_code: "attach failed: screen exited with code {0}",
        detached_from: "detached from '{0}'",
        screen_exit_code: "screen exited with code {0} ({1})",
        renamed_to: "session renamed to '{0}'",
        rename_failed: "rename failed (exit {0}): {1}",
        rename_failed_short: "rename failed: {0}",
        meta_alias: "alias",
        meta_note: "note",
        meta_updated: "'{0}' {1} updated",
        meta_kept_ro: "'{0}' {1} kept for this session only (no config file written)",
        no_stale_metadata: "no stale session metadata to clean",
        stale_entries: "{0} stale metadata entrie(s)",
        removed_stale: "removed {0} stale metadata entrie(s)",
        removed_stale_ro: "removed {0} stale metadata entrie(s) for this session only (no config file written)",
        restart_still_running: "'{0}' is still running; restart applies to dead sessions",
        restart_not_managed: "'{0}' was not created by stui; restart is unavailable",
        restart_unmanaged: "'{0}' is unmanaged; restart is only available for sessions created by stui",
        restart_no_record: "'{0}' has no recorded command/cwd; cannot restart",
        restarted: "restarted '{0}' with its recorded command",
        restart_failed: "restart of '{0}' failed (exit {1}): {2}",
        restart_failed_short: "restart failed: {0}",
        preview_not_running: "'{0}' is not running; there is nothing to preview",
        preview_unavailable: "preview unavailable: hardcopy support is {0} on this screen build (run `stui doctor` for details)",
        detach_hint_some: "Tip: detach with {0} d",
        detach_hint_default: "Tip: detach with Ctrl-A D (default prefix - use your own prefix + d if you changed it)",
        refresh_failed: "refresh failed: {0}",
        header_self: "  ·  ● in screen: {0}",
        inside_sty: "running inside a screen session; attaching nests screen in screen",
        attach_self: "you are inside '{0}'; screen refuses to attach from within itself",
        desc_self_marker: "the session you are currently inside",
        list_empty: "No screen sessions. Press n to create one.",
        list_filter_empty: "No sessions match '/{0}'. Esc clears the filter.",
        header_sessions: "  {0} session(s) · {1} attached",
        header_dead: " · {0} dead",
        footer_wide_1: " j/k move  Enter attach  1-9 quick  n new  x share  i detail  R refresh",
        footer_wide_2: " / filter  D detach  K kill  r rename  W wipe(dead)  s restart  X cleanup  ? help  q quit",
        footer_wipe_dead: "  W wipe dead",
        footer_mid: " n new  1-9 attach  i detail  / find  K kill  ? help  q quit",
        footer_wipe: "  W wipe",
        footer_tiny: " ? help  q quit",
        footer_refresh: " refresh every {0}s",
        footer_manual: " manual refresh (R)",
        error_title: " Error ",
        error_hint: "Enter / Esc close",
        help_title: " Help ",
        desc_move: " move selection",
        desc_attach: "     enter session (stui is replaced by screen)",
        desc_quick: "        quick attach by row",
        desc_share: "        share attach (-x)",
        desc_preview: "        preview snapshot",
        desc_new: "        new session",
        desc_detail: "        detail of selection",
        desc_filter: "        filter sessions",
        desc_detach: "        remote detach",
        desc_kill: "        kill (confirm)",
        desc_rename: "        rename",
        desc_wipe: "        wipe dead (confirm)",
        desc_refresh: "        refresh now",
        desc_quit: "  quit / close",
        version_unknown: "version unknown",
        detail_title: " Detail ",
        detail_nothing: " nothing selected",
        detail_hint: " a alias · t note · Esc close",
        dl_name: "name",
        dl_address: "address",
        dl_pid: "pid",
        dl_status: "status",
        dl_created: "created",
        dl_windows: "windows",
        dl_cwd: "cwd",
        dl_command: "command",
        dl_alias: "alias",
        dl_note: "note",
        dl_managed: "managed",
        dl_managed_yes: "yes (created by stui; restart with s)",
        meta_title: " Metadata ",
        meta_line: " {0} for '{1}':",
        meta_hint: " Enter save · empty clears · Esc cancel",
        rename_title: " Rename ",
        rename_new_name: " New name:",
        rename_hint: " Enter rename · Esc cancel",
        confirm_title: " Confirm: {0}",
        confirm_session: " session: {0}",
        confirm_command: " command: {0}",
        confirm_yes: " [ Yes ] ",
        confirm_cancel: " [ Cancel ] ",
        confirm_hint: " ←/→ switch focus · Enter run focused · y confirm · Esc cancel",
        filter_title: " Filter ",
        filter_match: " {0} of {1} sessions match",
        filter_hint: " Enter apply · Esc clear filter",
        attach_title: " Attach ",
        attach_line: " '{0}' is attached elsewhere:",
        attach_share: "share the session (-x)",
        attach_takeover: "detach the other and take over (-d -r)",
        attach_hint: " 1 share · 2 take over · Esc cancel",
        preview_pane_hint: " press p to snapshot the selected session",
        preview_title: " Preview ",
        preview_overlay_title: " Preview - {0} · fetched {1} ",
        preview_fetched: " fetched {0} · session {1}",
        preview_empty: " (empty window)",
        new_title: " New session ",
        new_hint: " Tab/↓ next · ↑ back · Enter create · Esc cancel",
        new_recent: " Recent directories (1-9):",
    }
}

/// The English texts.
pub fn english() -> (r: Dict)
    ensures
        r == english_texts(),
{
    reveal(english_texts);
    Dict {
        note_label: "note",
        ls_no_sessions: "# no screen sessions found (socket dir {0})",
        ls_summary: "# {0} session(s) · socket dir {1} · {2}",
        ls_col_idx: "IDX",
        ls_col_name: "NAME",
        ls_col_status: "STATUS",
        ls_col_pid: "PID",
        ls_col_created: "CREATED",
        st_detached: "detached",
        st_attached: "attached",
        st_multi: "multi",
        st_dead: "dead",
        st_unreachable: "unreachable",
        outlook_no_sessions: "no sessions (exit 9)",
        outlook_unconnectable: "sessions exist but none connectable (exit 10)",
        outlook_available: "available (exit {0})",
        outlook_inconclusive: "inconclusive (exit {0}, outside the documented 9/10/11+ table)",
        d_title: "stui doctor — environment self-check",
        d_fix: "fix: ",
        d_summary: "{0} pass · {1} warn · {2} fail",
        d_notes: "notes:",
        d_name_screen: "screen executable",
        d_name_version: "version",
        d_name_socket: "socket dir",
        d_name_enum: "session enumeration",
        d_name_terminfo: "terminfo",
        d_name_utf8: "utf-8 locale",
        d_name_dead: "dead sessions",
        d_name_nesting: "screen nesting",
        d_name_size: "terminal size",
        d_name_config: "config directory",
        d_name_preview: "preview ability",
        d_screen_missing_fix: "install GNU Screen: `apt install screen` (Debian/Ubuntu) | `yum install screen` (RHEL) | `brew install screen` (macOS)",
        d_version_na: "screen is not available, cannot determine the version",
        d_install_screen: "install GNU Screen first",
        d_version_unparsed: "cannot parse a version number from `screen -v` output: {0}",
        d_value_empty: "<empty>",
        d_caps_live_fix: "capability flags still come from live probes, so stui keeps working",
        d_q_ok: "{0}; `-Q` query available",
        d_q_no: "{0}; `-Q` query unavailable on this build — window count/title need `-Q` and will be hidden. Core functions are unaffected.",
        d_q_no_fix: "no action needed; this is expected below Screen 4.6",
        d_q_unknown: "{0}; could not verify `-Q` (no session was available to test with)",
        d_q_unknown_fix: "run `stui doctor` again while a session exists to get a definitive answer",
        d_ls_failed: "`screen -ls` failed: {0}",
        d_screendir_fix: "check that $SCREENDIR and $TMPDIR are unset or non-empty — an empty value breaks every screen call; also verify the socket directory permissions",
        d_screendir_empty: "`-ls` works, but $SCREENDIR is exported and EMPTY. It happens to be tolerated on this build (screen falls back to `$TMPDIR/.screen`), yet an empty SCREENDIR has caused `Cannot access ...` on other builds.",
        d_screendir_empty_fix: "unset SCREENDIR, or export it with a real path",
        d_socket_ok: "`-ls` reachable; socket dir {0}",
        d_not_reported: "not reported by `-ls`",
        d_enum_cannot: "cannot run `screen -q -ls`",
        d_fix_screen_first: "fix the `screen executable` check first",
        d_enum_exit10: "`-q -ls` exit 10: sessions exist but none are connectable ({0} listed); the manual flags this as a permissions problem",
        d_enum_perm_fix: "check ownership and permissions of the socket directory",
        d_enum_exit9: "`-q -ls` said no sessions (exit 9) but `-ls` listed {0}; trusting `-ls`. The documented 9/10/11+ exit-code table is not reliable on every build.",
        d_enum_mismatch: "`-q -ls` reported {0} session(s) but `-ls` detailed {1}; trusting `-ls`",
        d_enum_code: "`-q -ls` exited {0}, which is outside the documented 9/10/11+ table (measured on Screen 4.00.03: 8 with no sessions). stui falls back to parsing `-ls` text; {1} session(s) found.",
        d_enum_code_fix: "no action needed; recorded for the version-capability matrix",
        d_enum_ok: "{0} session(s) · {1}",
        d_ti_present: "`screen-256color` is present",
        d_ti_failed: "`infocmp screen-256color` failed (exit {0}); stui degrades to the plain `screen` terminfo, and 256-color output inside sessions may not render",
        d_ti_fix: "install the ncurses terminfo extras: `apt install ncurses-term` (Debian/Ubuntu)",
        d_ti_missing: "`infocmp` is not available, cannot verify terminfo",
        d_ti_missing_fix: "install ncurses-bin (Debian/Ubuntu) if you want this check to work",
        d_utf8_none: "no locale variable is set",
        d_utf8_none_fix: "export LANG=<your>.UTF-8; CJK and emoji session names may otherwise misalign",
        d_utf8_not: "locale is not UTF-8 ({0}); CJK/emoji session names may render wrong or misalign",
        d_utf8_fix: "export LANG=<your>.UTF-8 (suggested, not applied): add `defutf8 on` to ~/.screenrc — stui never edits your screenrc",
        d_cannot_enum: "cannot enumerate sessions",
        d_dead_none: "none",
        d_dead_unreachable: "none dead, but {0} unreachable (display only, never connectable)",
        d_dead_list: "{0} dead session(s): {1} — they pollute the list and can be mis-clicked",
        d_dead_fix: "run `screen -wipe` (or press `W` in the TUI) — stui always asks for confirmation",
        d_not_inside: "not running inside a screen session ($STY unset)",
        d_inside: "running inside a screen session (STY={0}); screen refuses to attach from within itself",
        d_inside_fix: "detach first, or use shared attachment (`-x`) which is the only mode that works from inside",
        d_size_small: "{0}x{1} — very small; the TUI would fall back to the minimal layout (only affects the TUI, not `ls` or `doctor`)",
        d_size_err: "cannot determine terminal size ({0}); stdout is probably not a TTY — only the TUI needs it, `ls` and `doctor` do not",
        d_config_missing: "$HOME is unset and neither $SCREEN_TUI_HOME nor $XDG_CONFIG_HOME is usable",
        d_config_missing_fix: "set $HOME, or point $SCREEN_TUI_HOME at a writable directory",
        d_config_ok: "{0} — writable, mode 0700",
        d_config_fail: "{0} — write probe failed: {1}",
        d_config_perm_fix: "check ownership and permissions of {0}",
        d_no_session_probe: "no connectable session available to test `-X hardcopy`; capability left unverified (nothing was written to disk)",
        d_no_session_probe_fix: "create a session (`screen -dmS probe sleep 60`) and re-run doctor to verify preview",
        d_hist_yes: "history buffer (-h) available",
        d_hist_no: "history buffer (-h) unavailable",
        d_hist_unknown: "history buffer (-h) unverified",
        d_hc_ok: "`-X hardcopy` works on {0} ({1})",
        d_hc_no: "`-X hardcopy` is unsupported on this build ({0}); the preview pane will show metadata only — never stale or fabricated content",
        d_hc_unknown: "could not verify `-X hardcopy` ({0}); preview degrades to metadata only",
        d_hc_probe_failed: "hardcopy probe failed: {0}; preview degrades to metadata only",
        d_note11: "check 11 is the only side-effecting one: it writes a real `-X hardcopy` to a 0600 temp file and removes it immediately.",
        name_empty: "name must not be empty",
        name_leading_dash: "name must not start with '-' (screen would read it as an option)",
        name_bad_char: "name must not contain whitespace or control characters (found {0})",
        name_too_long: "name is longer than {0} characters",
        f_name: "Name",
        f_dir: "Directory",
        f_command: "Command",
        dir_empty: "directory must not be empty",
        not_a_directory: "not a directory: {0}",
        duplicate_note: "a session named '{0}' already exists; address it as <pid>.{0}",
        name_was_taken: "'{0}' was taken; used '{1}'",
        created: "created '{0}'",
        created_with_hint: "created '{0}' ({1})",
        skip_not_listed: "it is not in the session list yet",
        skip_not_unique: "the name is not unique; start it as <pid>.<name>",
        not_entering: "{0}; not entering: {1}",
        create_failed: "create failed: {0}",
        screen_refused: "screen refused to create '{0}' (exit {1}):\n  {2} ran in {3}\n  {4}",
        screen_no_diagnostic: "screen produced no diagnostic output; check the name and directory",
        act_detach: "detach",
        act_kill: "kill",
        act_wipe: "wipe",
        act_cleanup: "cleanup",
        consequence_detach: "detach the attached client (it keeps running)",
        consequence_kill: "TERMINATE the session and all its windows",
        consequence_wipe: "remove all dead session sockets",
        consequence_cleanup: "forget metadata of sessions that no longer exist",
        verify_failed: "cannot verify sessions before connecting: {0}",
        verify_failed_action: "cannot verify sessions before {0}: {1}",
        session_gone: "session '{0}' is gone; list refreshed",
        unknown_state: "'{0}' reports unknown state '{1}'; refusing to connect",
        not_connectable_share: "'{0}' is not connectable; cannot share",
        dead_wipe_hint: "'{0}' is dead; wipe it before connecting",
        unreachable_hint: "'{0}' is unreachable; check the socket dir",
        multi_note: "already shared by several displays; joining may resize everyone's window",
        not_attached: "'{0}' is not attached; nothing to detach (use Enter to connect)",
        no_dead_to_wipe: "no dead sessions; nothing to wipe",
        dead_sessions_display: "dead sessions",
        no_dead_left: "no dead sessions left; nothing to wipe",
        gone_kill: "'{0}' is gone; nothing to kill",
        kill_attached: "'{0}' is attached; kill refused (detach it first)",
        gone_detach: "'{0}' is gone; nothing to detach",
        no_longer_attached: "'{0}' is no longer attached (now {1}); nothing to detach",
        wiped: "dead sessions wiped",
        action_done: "'{0}' {1} done",
        action_failed: "{0} '{1}' failed (exit {2}){3}",
        action_failed_short: "{0} failed: {1}",
        nothing_to_do: "nothing to do",
        attach_failed: "attach failed: {0}",
        attach_exit_code: "attach failed: screen exited with code {0}",
        detached_from: "detached from '{0}'",
        screen_exit_code: "screen exited with code {0} ({1})",
        renamed_to: "session renamed to '{0}'",
        rename_failed: "rename failed (exit {0}): {1}",
        rename_failed_short: "rename failed: {0}",
        meta_alias: "alias",
        meta_note: "note",
        meta_updated: "'{0}' {1} updated",
        meta_kept_ro: "'{0}' {1} kept for this session only (no config file written)",
        no_stale_metadata: "no stale session metadata to clean",
        stale_entries: "{0} stale metadata entrie(s)",
        removed_stale: "removed {0} stale metadata entrie(s)",
        removed_stale_ro: "removed {0} stale metadata entrie(s) for this session only (no config file written)",
        restart_still_running: "'{0}' is still running; restart applies to dead sessions",
        restart_not_managed: "'{0}' was not created by stui; restart is unavailable",
        restart_unmanaged: "'{0}' is unmanaged; restart is only available for sessions created by stui",
        restart_no_record: "'{0}' has no recorded command/cwd; cannot restart",
        restarted: "restarted '{0}' with its recorded command",
        restart_failed: "restart of '{0}' failed (exit {1}): {2}",
        restart_failed_short: "restart failed: {0}",
        preview_not_running: "'{0}' is not running; there is nothing to preview",
        preview_unavailable: "preview unavailable: hardcopy support is {0} on this screen build (run `stui doctor` for details)",
        detach_hint_some: "Tip: detach with {0} d",
        detach_hint_default: "Tip: detach with Ctrl-A D (default prefix - use your own prefix + d if you changed it)",
        refresh_failed: "refresh failed: {0}",
        header_self: "  ·  ● in screen: {0}",
        inside_sty: "running inside a screen session; attaching nests screen in screen",
        attach_self: "you are inside '{0}'; screen refuses to attach from within itself",
        desc_self_marker: "the session you are currently inside",
        list_empty: "No screen sessions. Press n to create one.",
        list_filter_empty: "No sessions match '/{0}'. Esc clears the filter.",
        header_sessions: "  {0} session(s) · {1} attached",
        header_dead: " · {0} dead",
        footer_wide_1: " j/k move  Enter attach  1-9 quick  n new  x share  i detail  R refresh",
        footer_wide_2: " / filter  D detach  K kill  r rename  W wipe(dead)  s restart  X cleanup  ? help  q quit",
        footer_wipe_dead: "  W wipe dead",
        footer_mid: " n new  1-9 attach  i detail  / find  K kill  ? help  q quit",
        footer_wipe: "  W wipe",
        footer_tiny: " ? help  q quit",
        footer_refresh: " refresh every {0}s",
        footer_manual: " manual refresh (R)",
        error_title: " Error ",
        error_hint: "Enter / Esc close",
        help_title: " Help ",
        desc_move: " move selection",
        desc_attach: "     enter session (stui is replaced by screen)",
        desc_quick: "        quick attach by row",
        desc_share: "        share attach (-x)",
        desc_preview: "        preview snapshot",
        desc_new: "        new session",
        desc_detail: "        detail of selection",
        desc_filter: "        filter sessions",
        desc_detach: "        remote detach",
        desc_kill: "        kill (confirm)",
        desc_rename: "        rename",
        desc_wipe: "        wipe dead (confirm)",
        desc_refresh: "        refresh now",
        desc_quit: "  quit / close",
        version_unknown: "version unknown",
        detail_title: " Detail ",
        detail_nothing: " nothing selected",
        detail_hint: " a alias · t note · Esc close",
        dl_name: "name",
        dl_address: "address",
        dl_pid: "pid",
        dl_status: "status",
        dl_created: "created",
        dl_windows: "windows",
        dl_cwd: "cwd",
        dl_command: "command",
        dl_alias: "alias",
        dl_note: "note",
        dl_managed: "managed",
        dl_managed_yes: "yes (created by stui; restart with s)",
        meta_title: " Metadata ",
        meta_line: " {0} for '{1}':",
        meta_hint: " Enter save · empty clears · Esc cancel",
        rename_title: " Rename ",
        rename_new_name: " New name:",
        rename_hint: " Enter rename · Esc cancel",
        confirm_title: " Confirm: {0}",
        confirm_session: " session: {0}",
        confirm_command: " command: {0}",
        confirm_yes: " [ Yes ] ",
        confirm_cancel: " [ Cancel ] ",
        confirm_hint: " ←/→ switch focus · Enter run focused · y confirm · Esc cancel",
        filter_title: " Filter ",
        filter_match: " {0} of {1} sessions match",
        filter_hint: " Enter apply · Esc clear filter",
        attach_title: " Attach ",
        attach_line: " '{0}' is attached elsewhere:",
        attach_share: "share the session (-x)",
        attach_takeover: "detach the other and take over (-d -r)",
        attach_hint: " 1 share · 2 take over · Esc cancel",
        preview_pane_hint: " press p to snapshot the selected session",
        preview_title: " Preview ",
        preview_overlay_title: " Preview - {0} · fetched {1} ",
        preview_fetched: " fetched {0} · session {1}",
        preview_empty: " (empty window)",
        new_title: " New session ",
        new_hint: " Tab/↓ next · ↑ back · Enter create · Esc cancel",
        new_recent: " Recent directories (1-9):",
    }
}

} // verus!
