//! What is shown, as styled text.

pub mod detail;
pub mod dialog;
pub mod frame;
pub mod laws;
pub mod layout;
pub mod list;
pub mod new;
pub mod piece;
pub mod preview;
pub mod regions;
pub mod theme;
