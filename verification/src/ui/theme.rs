//! Icons and colours. An icon takes one column, and only colours that every
//! terminal has are used.

use crate::screen::parse::{
    Status, StatusView,
};
use crate::ui::piece::{
    Shade, Tone, shaded,
};
use vstd::prelude::*;

verus! {

/// The icon of a state; a state that is not known has a question mark.
pub open spec fn icon_of(status: StatusView) -> Seq<char> {
    match status {
        StatusView::Detached => "○"@,
        StatusView::Attached => "◆"@,
        StatusView::Multi => "◈"@,
        StatusView::Dead => "✕"@,
        StatusView::Unreachable => "?"@,
        StatusView::Unknown(_) => "?"@,
    }
}

pub fn status_icon(status: &Status) -> (r: &'static str)
    ensures
        r@ == icon_of(status@),
{
    match status {
        Status::Detached => "○",
        Status::Attached => "◆",
        Status::Multi => "◈",
        Status::Dead => "✕",
        Status::Unreachable => "?",
        Status::Unknown(_) => "?",
    }
}

pub open spec fn color_of(status: StatusView) -> Shade {
    match status {
        StatusView::Detached => Shade::Green,
        StatusView::Attached => Shade::Cyan,
        StatusView::Multi => Shade::Yellow,
        StatusView::Dead => Shade::Red,
        StatusView::Unreachable => Shade::DarkGray,
        StatusView::Unknown(_) => Shade::DarkGray,
    }
}

pub fn status_color(status: &Status) -> (r: Shade)
    ensures
        r == color_of(status@),
{
    match status {
        Status::Detached => Shade::Green,
        Status::Attached => Shade::Cyan,
        Status::Multi => Shade::Yellow,
        Status::Dead => Shade::Red,
        Status::Unreachable => Shade::DarkGray,
        Status::Unknown(_) => Shade::DarkGray,
    }
}

pub open spec fn selected_tone() -> Tone {
    Tone { shade: Shade::Default, bold: false, reversed: true }
}

/// The style of the selected row.
pub fn selected_row() -> (r: Tone)
    ensures
        r == selected_tone(),
{
    Tone { shade: Shade::Default, bold: false, reversed: true }
}

pub open spec fn dim() -> Tone {
    shaded(Shade::DarkGray)
}

/// The style of what matters less.
pub fn dimmed() -> (r: Tone)
    ensures
        r == dim(),
{
    Tone { shade: Shade::DarkGray, bold: false, reversed: false }
}

} // verus!
