//! Where things stand on the screen.

use crate::ui::layout::Tier;
use vstd::prelude::*;

verus! {

/// A rectangle of cells.
#[derive(Debug, Clone, Copy, PartialEq, Eq, Structural)]
pub struct Area {
    pub x: u16,
    pub y: u16,
    pub width: u16,
    pub height: u16,
}

/// A rectangle of at most the given size in the middle of another.
pub open spec fn centered(area: Area, width: u16, height: u16) -> Area {
    let w = if width < area.width {
        width
    } else {
        area.width
    };
    let h = if height < area.height {
        height
    } else {
        area.height
    };
    Area {
        x: (area.x + (area.width - w) / 2) as u16,
        y: (area.y + (area.height - h) / 2) as u16,
        width: w,
        height: h,
    }
}

/// A rectangle of at most the given size in the middle of another.
pub fn centered_rect(area: Area, width: u16, height: u16) -> (r: Area)
    requires
        area.x + area.width <= u16::MAX,
        area.y + area.height <= u16::MAX,
    ensures
        r == centered(area, width, height),
{
    let w: u16 = if width < area.width {
        width
    } else {
        area.width
    };
    let h: u16 = if height < area.height {
        height
    } else {
        area.height
    };
    Area {
        x: area.x + (area.width - w) / 2,
        y: area.y + (area.height - h) / 2,
        width: w,
        height: h,
    }
}

/// What is put in the middle lies inside, with the same room on either side up to
/// one cell.
pub proof fn centered_areas_lie_inside(area: Area, width: u16, height: u16)
    requires
        area.x + area.width <= u16::MAX,
        area.y + area.height <= u16::MAX,
    ensures
        ({
            let r = centered(area, width, height);
            let left = r.x - area.x;
            let right = (area.x + area.width) - (r.x + r.width);
            let above = r.y - area.y;
            let below = (area.y + area.height) - (r.y + r.height);
            &&& 0 <= left <= right <= left + 1
            &&& 0 <= above <= below <= above + 1
            &&& r.width <= width && r.height <= height
        }),
{
}

/// How much of an area a part takes.
#[derive(Debug, Clone, Copy, PartialEq, Eq, Structural)]
pub enum Part {
    /// So many cells.
    Cells(u16),
    /// What is left.
    Rest,
    Percent(u16),
}

#[derive(Debug, Clone, Copy, PartialEq, Eq, Structural)]
pub enum Split {
    /// One below the other.
    Rows,
    /// Side by side.
    Columns,
}

/// An area spans another in the direction in which it was not split.
pub open spec fn spans(part: Area, whole: Area, how: Split) -> bool {
    match how {
        Split::Rows => part.x == whole.x && part.width == whole.width,
        Split::Columns => part.y == whole.y && part.height == whole.height,
    }
}

/// Where an area begins in the direction of a split.
pub open spec fn begin(area: Area, how: Split) -> int {
    match how {
        Split::Rows => area.y as int,
        Split::Columns => area.x as int,
    }
}

/// How long an area is in the direction of a split.
pub open spec fn extent(area: Area, how: Split) -> int {
    match how {
        Split::Rows => area.height as int,
        Split::Columns => area.width as int,
    }
}

/// The cells that are asked for by number.
pub open spec fn cells_sum(parts: Seq<Part>) -> int
    decreases parts.len(),
{
    if parts.len() == 0 {
        0
    } else {
        cells_sum(parts.drop_last()) + match parts.last() {
            Part::Cells(n) => n as int,
            _ => 0,
        }
    }
}

/// The percentages that are asked for.
pub open spec fn percent_sum(parts: Seq<Part>) -> int
    decreases parts.len(),
{
    if parts.len() == 0 {
        0
    } else {
        percent_sum(parts.drop_last()) + match parts.last() {
            Part::Percent(n) => n as int,
            _ => 0,
        }
    }
}

/// How many parts take what is left.
pub open spec fn rest_count(parts: Seq<Part>) -> int
    decreases parts.len(),
{
    if parts.len() == 0 {
        0
    } else {
        rest_count(parts.drop_last()) + if parts.last() == Part::Rest {
            1int
        } else {
            0
        }
    }
}

/// All parts can have exactly what they ask for: the percentages make up the whole,
/// or there is room for the cells and one part takes what is left.
pub open spec fn fits(parts: Seq<Part>, room: int) -> bool {
    ||| {
        &&& forall|i: int| 0 <= i < parts.len() ==> (#[trigger] parts[i]) is Percent
        &&& percent_sum(parts) == 100
    }
    ||| {
        &&& forall|i: int| 0 <= i < parts.len() ==> !((#[trigger] parts[i]) is Percent)
        &&& rest_count(parts) == 1
        &&& cells_sum(parts) <= room
    }
}

/// How much of the room the first `k` parts take together. Percentages are rounded,
/// and a half is rounded up.
pub open spec fn taken_by(parts: Seq<Part>, room: int, k: int) -> int {
    let first = parts.take(k);
    cells_sum(first) + (percent_sum(first) * room + 50) / 100 + if rest_count(first) > 0 {
        room - cells_sum(parts)
    } else {
        0
    }
}

/// The area ends where a coordinate can still say so.
pub open spec fn in_range(area: Area) -> bool {
    area.x + area.width <= u16::MAX && area.y + area.height <= u16::MAX
}

/// `ratatui::layout::Layout::split`: the area in parts, one for each that was
/// asked for, each as wide as the area if they stand one below the other and as
/// high if they stand side by side. Where all can have exactly what they ask for,
/// they do, and they follow each other without a gap. How the area is divided
/// where that is not so is left unsaid: a solver weighs the wishes against each
/// other, and its documentation calls the outcome indeterminate.
#[verifier::external_body]
fn layout_split(whole: Area, how: Split, parts: &Vec<Part>) -> (r: Vec<Area>)
    ensures
        r@.len() == parts@.len(),
        forall|i: int| 0 <= i < r@.len() ==> spans(#[trigger] r@[i], whole, how),
        in_range(whole) && fits(parts@, extent(whole, how)) ==> forall|i: int|
            0 <= i < r@.len() ==> {
                let from = taken_by(parts@, extent(whole, how), i);
                let to = taken_by(parts@, extent(whole, how), i + 1);
                &&& begin(#[trigger] r@[i], how) == begin(whole, how) + from
                &&& extent(r@[i], how) == to - from
            },
{
    let direction = match how {
        Split::Rows => ratatui::layout::Direction::Vertical,
        Split::Columns => ratatui::layout::Direction::Horizontal,
    };
    let constraints = parts.iter().map(|p| match p {
        Part::Cells(n) => ratatui::layout::Constraint::Length(*n),
        Part::Rest => ratatui::layout::Constraint::Min(0),
        Part::Percent(n) => ratatui::layout::Constraint::Percentage(*n),
    });
    let rect = ratatui::layout::Rect { x: whole.x, y: whole.y, width: whole.width,
        height: whole.height };
    ratatui::layout::Layout::new(direction, constraints).split(rect).iter()
        .map(|a| Area { x: a.x, y: a.y, width: a.width, height: a.height }).collect()
}

/// The header, the body and the footer.
pub open spec fn screen_plan(tier: Tier) -> Seq<Part> {
    seq![
        Part::Cells(1),
        Part::Rest,
        Part::Cells(
            if tier == Tier::Wide {
                2
            } else {
                1
            },
        ),
    ]
}

/// The parts of the screen, from top to bottom.
pub fn screen_parts(tier: Tier) -> (r: Vec<Part>)
    ensures
        r@ == screen_plan(tier),
{
    let mut parts: Vec<Part> = Vec::new();
    parts.push(Part::Cells(1));
    parts.push(Part::Rest);
    parts.push(Part::Cells(tier.footer_rows()));
    parts
}

/// How the body is divided, and how its right half is.
pub open spec fn body_plan(tier: Tier) -> Option<(Split, Seq<Part>)> {
    match tier {
        Tier::Wide => Some((Split::Columns, seq![Part::Percent(55), Part::Percent(45)])),
        Tier::Mid => Some((Split::Rows, seq![Part::Rest, Part::Cells(7)])),
        _ => None,
    }
}

/// How the body is divided; not at all in a narrow or tiny layout.
pub fn body_parts(tier: Tier) -> (r: Option<(Split, Vec<Part>)>)
    ensures
        match body_plan(tier) {
            Some((how, parts)) => r matches Some((h, p)) && h == how && p@ == parts,
            None => r is None,
        },
{
    match tier {
        Tier::Wide => {
            let mut parts: Vec<Part> = Vec::new();
            parts.push(Part::Percent(55));
            parts.push(Part::Percent(45));
            Some((Split::Columns, parts))
        },
        Tier::Mid => {
            let mut parts: Vec<Part> = Vec::new();
            parts.push(Part::Rest);
            parts.push(Part::Cells(7));
            Some((Split::Rows, parts))
        },
        _ => None,
    }
}

/// Where everything stands.
#[derive(Debug, Clone, Copy, PartialEq, Eq, Structural)]
pub struct Regions {
    pub header: Area,
    pub list: Area,
    pub detail: Option<Area>,
    pub preview: Option<Area>,
    pub footer: Area,
}

/// The rows of the footer.
pub open spec fn footer_height(tier: Tier) -> int {
    if tier == Tier::Wide {
        2
    } else {
        1
    }
}

/// The screen is high enough for the header, the footer and what is shown between.
pub open spec fn has_room(screen: Area, tier: Tier) -> bool {
    &&& in_range(screen)
    &&& screen.height >= 1 + footer_height(tier) + if tier == Tier::Mid {
        7int
    } else {
        0
    }
}

/// More than half of a length: what a list takes beside its details, and the details
/// above a snapshot.
pub open spec fn larger_share(length: int) -> int {
    (55 * length + 50) / 100
}

/// The areas of a screen that is high enough, from top to bottom and from left to
/// right without a gap.
pub open spec fn arranged(screen: Area, tier: Tier) -> Regions {
    let footer = footer_height(tier);
    let top = screen.y + 1;
    let height = screen.height - 1 - footer;
    let body = Area { x: screen.x, y: top as u16, width: screen.width, height: height as u16 };
    let side = larger_share(screen.width as int);
    let upper = larger_share(height);
    let right = Area {
        x: (screen.x + side) as u16,
        y: top as u16,
        width: (screen.width - side) as u16,
        height: upper as u16,
    };
    Regions {
        header: Area { height: 1, ..screen },
        list: match tier {
            Tier::Wide => Area { width: side as u16, ..body },
            Tier::Mid => Area { height: (height - 7) as u16, ..body },
            _ => body,
        },
        detail: match tier {
            Tier::Wide => Some(right),
            Tier::Mid => Some(Area { y: (top + height - 7) as u16, height: 7, ..body }),
            _ => None,
        },
        preview: match tier {
            Tier::Wide => Some(
                Area { y: (top + upper) as u16, height: (height - upper) as u16, ..right },
            ),
            _ => None,
        },
        footer: Area {
            y: (top + height) as u16,
            height: footer as u16,
            ..screen
        },
    }
}

/// Two areas share no cell.
pub open spec fn apart(a: Area, b: Area) -> bool {
    ||| a.x + a.width <= b.x
    ||| b.x + b.width <= a.x
    ||| a.y + a.height <= b.y
    ||| b.y + b.height <= a.y
}

/// One area lies inside another.
pub open spec fn inside(a: Area, whole: Area) -> bool {
    &&& whole.x <= a.x && a.x + a.width <= whole.x + whole.width
    &&& whole.y <= a.y && a.y + a.height <= whole.y + whole.height
}

/// On a screen that is high enough, everything lies on the screen and nothing covers
/// anything else.
pub proof fn regions_do_not_overlap(screen: Area, tier: Tier)
    requires
        has_room(screen, tier),
    ensures
        ({
            let r = arranged(screen, tier);
            &&& inside(r.header, screen) && inside(r.list, screen) && inside(r.footer, screen)
            &&& apart(r.header, r.list) && apart(r.list, r.footer) && apart(r.header, r.footer)
            &&& r.detail matches Some(d) ==> inside(d, screen) && apart(d, r.header) && apart(
                d,
                r.list,
            ) && apart(d, r.footer)
            &&& r.preview matches Some(p) ==> inside(p, screen) && apart(p, r.header) && apart(
                p,
                r.list,
            ) && apart(p, r.footer)
            &&& (r.detail matches Some(d) && r.preview matches Some(p)) ==> apart(
                r.detail->0,
                r.preview->0,
            )
        }),
{
}

proof fn lemma_sums(parts: Seq<Part>, k: int)
    requires
        0 <= k < parts.len(),
    ensures
        cells_sum(parts.take(0)) == 0,
        percent_sum(parts.take(0)) == 0,
        rest_count(parts.take(0)) == 0,
        cells_sum(parts.take(k + 1)) == cells_sum(parts.take(k)) + match parts[k] {
            Part::Cells(n) => n as int,
            _ => 0,
        },
        percent_sum(parts.take(k + 1)) == percent_sum(parts.take(k)) + match parts[k] {
            Part::Percent(n) => n as int,
            _ => 0,
        },
        rest_count(parts.take(k + 1)) == rest_count(parts.take(k)) + if parts[k] == Part::Rest {
            1int
        } else {
            0
        },
        parts.take(parts.len() as int) == parts,
{
    assert(parts.take(k + 1).drop_last() =~= parts.take(k));
    assert(parts.take(parts.len() as int) =~= parts);
}

/// Divides the screen: a wide one shows details and a snapshot beside the list, a
/// middle one the details below it, and a small one the list alone. The header and
/// the footer go across, and so does whatever stands below something else.
pub fn arrange(screen: Area, tier: Tier) -> (r: Regions)
    ensures
        spans(r.header, screen, Split::Rows),
        spans(r.footer, screen, Split::Rows),
        r.detail is Some <==> tier == Tier::Wide || tier == Tier::Mid,
        r.preview is Some <==> tier == Tier::Wide,
        tier != Tier::Wide ==> spans(r.list, screen, Split::Rows),
        tier == Tier::Mid ==> (r.detail matches Some(d) && spans(d, screen, Split::Rows)),
        tier == Tier::Wide ==> (r.detail matches Some(d) && r.preview matches Some(p) && p.x == d.x
            && p.width == d.width),
        has_room(screen, tier) ==> r == arranged(screen, tier),
{
    let plan: Vec<Part> = screen_parts(tier);
    proof {
        lemma_sums(plan@, 0);
        lemma_sums(plan@, 1);
        lemma_sums(plan@, 2);
    }
    let rows: Vec<Area> = layout_split(screen, Split::Rows, &plan);
    let header: Area = rows[0];
    let body: Area = rows[1];
    let footer: Area = rows[2];
    match body_parts(tier) {
        None => Regions { header, list: body, detail: None, preview: None, footer },
        Some((how, parts)) => {
            proof {
                lemma_sums(parts@, 0);
                lemma_sums(parts@, 1);
            }
            let halves: Vec<Area> = layout_split(body, how, &parts);
            match tier {
                Tier::Wide => {
                    let mut shares: Vec<Part> = Vec::new();
                    shares.push(Part::Percent(55));
                    shares.push(Part::Percent(45));
                    proof {
                        lemma_sums(shares@, 0);
                        lemma_sums(shares@, 1);
                    }
                    let right: Vec<Area> = layout_split(halves[1], Split::Rows, &shares);
                    Regions {
                        header,
                        list: halves[0],
                        detail: Some(right[0]),
                        preview: Some(right[1]),
                        footer,
                    }
                },
                _ => Regions {
                    header,
                    list: halves[0],
                    detail: Some(halves[1]),
                    preview: None,
                    footer,
                },
            }
        },
    }
}

} // verus!
