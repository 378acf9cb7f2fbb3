//! Layout tiers by terminal size, and what each of them shows.

use crate::screen::parse::{
    SessionRecord, SessionView, push_string, status_label,
};
use crate::text::{
    signed_decimal, signed_decimal_of, views,
};
use vstd::prelude::*;

verus! {

/// From this width on two panes are shown.
pub const WIDE_COLS: u16 = 100;

/// Below this width the narrow layout is used.
pub const NARROW_COLS: u16 = 72;

/// Below this width only the bare minimum is shown.
pub const TINY_COLS: u16 = 50;

/// Below this height only the bare minimum is shown.
pub const TINY_ROWS: u16 = 15;

#[derive(Debug, Clone, Copy, PartialEq, Eq, Structural)]
pub enum Tier {
    /// Two panes, two lines of keys.
    Wide,
    /// The list with details below it, one line of keys.
    Mid,
    /// The list alone; details open over it.
    Narrow,
    /// Number, icon and a shortened name.
    Tiny,
}

/// The tier of a size. A threshold below the tiny width counts as that width. If
/// the two cross, the middle tier shrinks to the one column below the wide one.
pub open spec fn tier_of(width: u16, height: u16, narrow_cols: u16, wide_cols: u16) -> Tier {
    let wide = if wide_cols < TINY_COLS {
        TINY_COLS
    } else {
        wide_cols
    };
    let narrow = if narrow_cols < TINY_COLS {
        TINY_COLS
    } else {
        narrow_cols
    };
    if width < TINY_COLS || height < TINY_ROWS {
        Tier::Tiny
    } else if width >= wide {
        Tier::Wide
    } else if width >= narrow || width == wide - 1 {
        Tier::Mid
    } else {
        Tier::Narrow
    }
}

impl Tier {
    pub fn from_size(width: u16, height: u16) -> (r: Tier)
        ensures
            r == tier_of(width, height, NARROW_COLS, WIDE_COLS),
    {
        Tier::from_size_with(width, height, NARROW_COLS, WIDE_COLS)
    }

    /// The tier with thresholds of the user.
    pub fn from_size_with(width: u16, height: u16, narrow_cols: u16, wide_cols: u16) -> (r: Tier)
        ensures
            r == tier_of(width, height, narrow_cols, wide_cols),
    {
        if width < TINY_COLS || height < TINY_ROWS {
            return Tier::Tiny;
        }
        let wide: u16 = if wide_cols < TINY_COLS {
            TINY_COLS
        } else {
            wide_cols
        };
        if width >= wide {
            return Tier::Wide;
        }
        let narrow: u16 = if narrow_cols < TINY_COLS {
            TINY_COLS
        } else if narrow_cols > wide - 1 {
            wide - 1
        } else {
            narrow_cols
        };
        if width >= narrow {
            Tier::Mid
        } else {
            Tier::Narrow
        }
    }

    /// The lines of keys at the bottom.
    pub fn footer_rows(self) -> (r: u16)
        ensures
            r == if self == Tier::Wide {
                2u16
            } else {
                1u16
            },
    {
        match self {
            Tier::Wide => 2,
            _ => 1,
        }
    }
}

pub open spec fn tier_rank(t: Tier) -> nat {
    match t {
        Tier::Tiny => 0,
        Tier::Narrow => 1,
        Tier::Mid => 2,
        Tier::Wide => 3,
    }
}

/// A larger terminal never gets a smaller layout, whatever the thresholds, and
/// a terminal of ordinary size never gets the smallest one.
pub proof fn larger_terminals_show_no_less(
    w1: u16,
    h1: u16,
    w2: u16,
    h2: u16,
    narrow_cols: u16,
    wide_cols: u16,
)
    requires
        w1 <= w2,
        h1 <= h2,
    ensures
        tier_rank(tier_of(w1, h1, narrow_cols, wide_cols)) <= tier_rank(
            tier_of(w2, h2, narrow_cols, wide_cols),
        ),
        w1 >= TINY_COLS && h1 >= TINY_ROWS ==> tier_of(w1, h1, narrow_cols, wide_cols)
            != Tier::Tiny,
{
}

/// Which columns a row has.
#[derive(Debug, Clone, Copy, PartialEq, Eq, Structural)]
pub struct RowCols {
    pub status_text: bool,
    pub pid: bool,
    pub created: bool,
}

pub open spec fn columns_for(tier: Tier) -> RowCols {
    RowCols {
        status_text: tier == Tier::Wide,
        pid: tier == Tier::Wide || tier == Tier::Mid,
        created: tier == Tier::Wide,
    }
}

impl RowCols {
    pub fn for_tier(tier: Tier) -> (r: RowCols)
        ensures
            r == columns_for(tier),
    {
        match tier {
            Tier::Wide => RowCols { status_text: true, pid: true, created: true },
            Tier::Mid => RowCols { status_text: false, pid: true, created: false },
            _ => RowCols { status_text: false, pid: false, created: false },
        }
    }
}

/// The lines on a session. A field that is not known has no line.
pub open spec fn detail_of(s: SessionView) -> Seq<Seq<char>> {
    seq!["name      "@ + s.name, "address   "@ + s.full] + match s.pid {
        Some(pid) => seq!["pid       "@ + signed_decimal_of(pid as int)],
        None => Seq::empty(),
    } + seq!["status    "@ + status_label(s.status)] + match s.created {
        Some(created) => seq!["created   "@ + created],
        None => Seq::empty(),
    }
}

fn labelled(label: &str, value: &str) -> (r: String)
    ensures
        r@ == label@ + value@,
{
    let mut out: String = label.to_owned();
    out.append(value);
    out
}

/// The lines on a session.
pub fn detail_lines(session: &SessionRecord) -> (r: Vec<String>)
    ensures
        views(r@) == detail_of(session@),
{
    let mut lines: Vec<String> = Vec::new();
    push_string(&mut lines, labelled("name      ", session.name.as_str()));
    push_string(&mut lines, labelled("address   ", session.full.as_str()));
    if let Some(pid) = session.pid {
        let number: String = signed_decimal(pid as i64);
        push_string(&mut lines, labelled("pid       ", number.as_str()));
    }
    let status: String = session.status.label();
    push_string(&mut lines, labelled("status    ", status.as_str()));
    if let Some(created) = &session.created {
        push_string(&mut lines, labelled("created   ", created.as_str()));
    }
    assert(views(lines@) =~= detail_of(session@));
    lines
}

} // verus!
