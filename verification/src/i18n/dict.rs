//! Every text that the user interface shows.

use vstd::prelude::*;

verus! {

/// All texts of one language. Texts with parameters hold `{0}`, `{1}` and so on.
/// A field is named after what it says, not after where it stands.
#[derive(Debug, Clone, Copy)]
pub struct Dict {
    // General
    pub note_label: &'static str,
    // `stui ls`
    pub ls_no_sessions: &'static str,
    pub ls_summary: &'static str,
    pub ls_col_idx: &'static str,
    pub ls_col_name: &'static str,
    pub ls_col_status: &'static str,
    pub ls_col_pid: &'static str,
    pub ls_col_created: &'static str,
    // States and outlooks
    pub st_detached: &'static str,
    pub st_attached: &'static str,
    pub st_multi: &'static str,
    pub st_dead: &'static str,
    pub st_unreachable: &'static str,
    pub outlook_no_sessions: &'static str,
    pub outlook_unconnectable: &'static str,
    pub outlook_available: &'static str,
    pub outlook_inconclusive: &'static str,
    // `stui doctor`
    pub d_title: &'static str,
    pub d_fix: &'static str,
    pub d_summary: &'static str,
    pub d_notes: &'static str,
    pub d_name_screen: &'static str,
    pub d_name_version: &'static str,
    pub d_name_socket: &'static str,
    pub d_name_enum: &'static str,
    pub d_name_terminfo: &'static str,
    pub d_name_utf8: &'static str,
    pub d_name_dead: &'static str,
    pub d_name_nesting: &'static str,
    pub d_name_size: &'static str,
    pub d_name_config: &'static str,
    pub d_name_preview: &'static str,
    pub d_screen_missing_fix: &'static str,
    pub d_version_na: &'static str,
    pub d_install_screen: &'static str,
    pub d_version_unparsed: &'static str,
    pub d_value_empty: &'static str,
    pub d_caps_live_fix: &'static str,
    pub d_q_ok: &'static str,
    pub d_q_no: &'static str,
    pub d_q_no_fix: &'static str,
    pub d_q_unknown: &'static str,
    pub d_q_unknown_fix: &'static str,
    pub d_ls_failed: &'static str,
    pub d_screendir_fix: &'static str,
    pub d_screendir_empty: &'static str,
    pub d_screendir_empty_fix: &'static str,
    pub d_socket_ok: &'static str,
    pub d_not_reported: &'static str,
    pub d_enum_cannot: &'static str,
    pub d_fix_screen_first: &'static str,
    pub d_enum_exit10: &'static str,
    pub d_enum_perm_fix: &'static str,
    pub d_enum_exit9: &'static str,
    pub d_enum_mismatch: &'static str,
    pub d_enum_code: &'static str,
    pub d_enum_code_fix: &'static str,
    pub d_enum_ok: &'static str,
    pub d_ti_present: &'static str,
    pub d_ti_failed: &'static str,
    pub d_ti_fix: &'static str,
    pub d_ti_missing: &'static str,
    pub d_ti_missing_fix: &'static str,
    pub d_utf8_none: &'static str,
    pub d_utf8_none_fix: &'static str,
    pub d_utf8_not: &'static str,
    pub d_utf8_fix: &'static str,
    pub d_cannot_enum: &'static str,
    pub d_dead_none: &'static str,
    pub d_dead_unreachable: &'static str,
    pub d_dead_list: &'static str,
    pub d_dead_fix: &'static str,
    pub d_not_inside: &'static str,
    pub d_inside: &'static str,
    pub d_inside_fix: &'static str,
    pub d_size_small: &'static str,
    pub d_size_err: &'static str,
    pub d_config_missing: &'static str,
    pub d_config_missing_fix: &'static str,
    pub d_config_ok: &'static str,
    pub d_config_fail: &'static str,
    pub d_config_perm_fix: &'static str,
    pub d_no_session_probe: &'static str,
    pub d_no_session_probe_fix: &'static str,
    pub d_hist_yes: &'static str,
    pub d_hist_no: &'static str,
    pub d_hist_unknown: &'static str,
    pub d_hc_ok: &'static str,
    pub d_hc_no: &'static str,
    pub d_hc_unknown: &'static str,
    pub d_hc_probe_failed: &'static str,
    pub d_note11: &'static str,
    // Names and the wizard
    pub name_empty: &'static str,
    pub name_leading_dash: &'static str,
    pub name_bad_char: &'static str,
    pub name_too_long: &'static str,
    pub f_name: &'static str,
    pub f_dir: &'static str,
    pub f_command: &'static str,
    pub dir_empty: &'static str,
    pub not_a_directory: &'static str,
    pub duplicate_note: &'static str,
    pub name_was_taken: &'static str,
    pub created: &'static str,
    pub created_with_hint: &'static str,
    pub skip_not_listed: &'static str,
    pub skip_not_unique: &'static str,
    pub not_entering: &'static str,
    pub create_failed: &'static str,
    pub screen_refused: &'static str,
    pub screen_no_diagnostic: &'static str,
    // Session actions
    pub act_detach: &'static str,
    pub act_kill: &'static str,
    pub act_wipe: &'static str,
    pub act_cleanup: &'static str,
    pub consequence_detach: &'static str,
    pub consequence_kill: &'static str,
    pub consequence_wipe: &'static str,
    pub consequence_cleanup: &'static str,
    pub verify_failed: &'static str,
    pub verify_failed_action: &'static str,
    pub session_gone: &'static str,
    pub unknown_state: &'static str,
    pub not_connectable_share: &'static str,
    pub dead_wipe_hint: &'static str,
    pub unreachable_hint: &'static str,
    pub multi_note: &'static str,
    pub not_attached: &'static str,
    pub no_dead_to_wipe: &'static str,
    pub dead_sessions_display: &'static str,
    pub no_dead_left: &'static str,
    pub gone_kill: &'static str,
    pub kill_attached: &'static str,
    pub gone_detach: &'static str,
    pub no_longer_attached: &'static str,
    pub wiped: &'static str,
    pub action_done: &'static str,
    pub action_failed: &'static str,
    pub action_failed_short: &'static str,
    pub nothing_to_do: &'static str,
    pub attach_failed: &'static str,
    pub attach_exit_code: &'static str,
    pub detached_from: &'static str,
    pub screen_exit_code: &'static str,
    // Renaming, metadata, restarting
    pub renamed_to: &'static str,
    pub rename_failed: &'static str,
    pub rename_failed_short: &'static str,
    pub meta_alias: &'static str,
    pub meta_note: &'static str,
    pub meta_updated: &'static str,
    pub meta_kept_ro: &'static str,
    pub no_stale_metadata: &'static str,
    pub stale_entries: &'static str,
    pub removed_stale: &'static str,
    pub removed_stale_ro: &'static str,
    pub restart_still_running: &'static str,
    pub restart_not_managed: &'static str,
    pub restart_unmanaged: &'static str,
    pub restart_no_record: &'static str,
    pub restarted: &'static str,
    pub restart_failed: &'static str,
    pub restart_failed_short: &'static str,
    // Previews and connecting
    pub preview_not_running: &'static str,
    pub preview_unavailable: &'static str,
    pub detach_hint_some: &'static str,
    pub detach_hint_default: &'static str,
    pub refresh_failed: &'static str,
    pub header_self: &'static str,
    pub inside_sty: &'static str,
    pub attach_self: &'static str,
    pub desc_self_marker: &'static str,
    // List, header and footer
    pub list_empty: &'static str,
    pub list_filter_empty: &'static str,
    pub header_sessions: &'static str,
    pub header_dead: &'static str,
    pub footer_wide_1: &'static str,
    pub footer_wide_2: &'static str,
    pub footer_wipe_dead: &'static str,
    pub footer_mid: &'static str,
    pub footer_wipe: &'static str,
    pub footer_tiny: &'static str,
    pub footer_refresh: &'static str,
    pub footer_manual: &'static str,
    // Errors
    pub error_title: &'static str,
    pub error_hint: &'static str,
    // Help
    pub help_title: &'static str,
    pub desc_move: &'static str,
    pub desc_attach: &'static str,
    pub desc_quick: &'static str,
    pub desc_share: &'static str,
    pub desc_preview: &'static str,
    pub desc_new: &'static str,
    pub desc_detail: &'static str,
    pub desc_filter: &'static str,
    pub desc_detach: &'static str,
    pub desc_kill: &'static str,
    pub desc_rename: &'static str,
    pub desc_wipe: &'static str,
    pub desc_refresh: &'static str,
    pub desc_quit: &'static str,
    pub version_unknown: &'static str,
    // Overlays
    pub detail_title: &'static str,
    pub detail_nothing: &'static str,
    pub detail_hint: &'static str,
    pub dl_name: &'static str,
    pub dl_address: &'static str,
    pub dl_pid: &'static str,
    pub dl_status: &'static str,
    pub dl_created: &'static str,
    pub dl_windows: &'static str,
    pub dl_cwd: &'static str,
    pub dl_command: &'static str,
    pub dl_alias: &'static str,
    pub dl_note: &'static str,
    pub dl_managed: &'static str,
    pub dl_managed_yes: &'static str,
    pub meta_title: &'static str,
    pub meta_line: &'static str,
    pub meta_hint: &'static str,
    pub rename_title: &'static str,
    pub rename_new_name: &'static str,
    pub rename_hint: &'static str,
    pub confirm_title: &'static str,
    pub confirm_session: &'static str,
    pub confirm_command: &'static str,
    pub confirm_yes: &'static str,
    pub confirm_cancel: &'static str,
    pub confirm_hint: &'static str,
    pub filter_title: &'static str,
    pub filter_match: &'static str,
    pub filter_hint: &'static str,
    pub attach_title: &'static str,
    pub attach_line: &'static str,
    pub attach_share: &'static str,
    pub attach_takeover: &'static str,
    pub attach_hint: &'static str,
    // Preview pane
    pub preview_pane_hint: &'static str,
    pub preview_title: &'static str,
    pub preview_overlay_title: &'static str,
    pub preview_fetched: &'static str,
    pub preview_empty: &'static str,
    // Wizard
    pub new_title: &'static str,
    pub new_hint: &'static str,
    pub new_recent: &'static str,
}

} // verus!
