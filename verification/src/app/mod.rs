//! The state of the program and what keys do to it.

pub mod action_laws;
pub mod actions;
pub mod connect;
pub mod connect_laws;
pub mod event_loop;
pub mod form_laws;
pub mod key_laws;
pub mod keys;
pub mod laws;
pub mod loop_laws;
pub mod name_laws;
pub mod names;
pub mod previews;
pub mod state;
pub mod types;
pub mod wizard;

pub use crate::app::names::{
    base_name, default_command, detach_hint_text, detect_escape_prefix, expand_tilde,
    next_free_name, parse_auto_refresh_secs, parse_screenrc_escape, parse_window_count,
    unambiguous_target, validate_name,
};
pub use crate::app::state::App;
pub use crate::app::types::{
    ActionKind, AttachChoice, AttachRequest, ConfirmAction, KeyCode, KeyEvent, KeyEventKind,
    MetaEdit, MetaField, Mode, NewDraft, NewField, PreviewRequest, PreviewView, RenameDraft,
    RenameRequest, RestartRequest, Work,
};
