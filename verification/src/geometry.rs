//! Rectangles on the screen, and how they are divided.

use ratatui::layout;
use vstd::prelude::*;

verus! {

/// A rectangle of terminal cells.
#[derive(Clone, Copy, Debug, PartialEq, Eq, Structural)]
pub struct Rect {
    pub x: u16,
    pub y: u16,
    pub width: u16,
    pub height: u16,
}

/// How the parts of a divided rectangle follow one another.
#[derive(Clone, Copy, Debug, PartialEq, Eq, Structural)]
pub enum Direction {
    Horizontal,
    Vertical,
}

/// The size that a part of a divided rectangle asks for.
#[derive(Clone, Copy, Debug, PartialEq, Eq, Structural)]
pub enum Constraint {
    Length(u16),
    Min(u16),
    Percentage(u16),
}

/// The smaller of two numbers.
pub open spec fn lesser(a: int, b: int) -> int {
    if a <= b {
        a
    } else {
        b
    }
}

/// The larger of two numbers.
pub open spec fn greater(a: int, b: int) -> int {
    if a <= b {
        b
    } else {
        a
    }
}

/// The rectangle with a corner and a size, cut off at the last coordinate.
pub open spec fn bounded(x: u16, y: u16, width: u16, height: u16) -> Rect {
    Rect {
        x,
        y,
        width: lesser(width as int, u16::MAX - x) as u16,
        height: lesser(height as int, u16::MAX - y) as u16,
    }
}

/// The rectangle inside `area` with a margin on each side, or an empty one in the corner of the
/// screen where `area` is too small.
pub open spec fn inset(area: Rect, horizontal: u16, vertical: u16) -> Rect {
    let across = lesser(2 * horizontal, u16::MAX as int);
    let down = lesser(2 * vertical, u16::MAX as int);
    if area.width < across || area.height < down {
        Rect { x: 0, y: 0, width: 0, height: 0 }
    } else {
        Rect {
            x: lesser(area.x + horizontal, u16::MAX as int) as u16,
            y: lesser(area.y + vertical, u16::MAX as int) as u16,
            width: (area.width - across) as u16,
            height: (area.height - down) as u16,
        }
    }
}

/// Whether `ratatui::layout::Layout::split` may divide `area` into `parts` when it is asked for
/// parts of these sizes in this direction.
pub uninterp spec fn may_split(
    area: Rect,
    direction: Direction,
    sizes: Seq<Constraint>,
    parts: Seq<Rect>,
) -> bool;

/// Whether `parts` have the extent of `area` across the direction in which they follow one
/// another, and lie inside it along the direction.
pub open spec fn spans(area: Rect, direction: Direction, parts: Seq<Rect>) -> bool {
    forall|i: int|
        0 <= i < parts.len() ==> match direction {
            Direction::Vertical => {
                &&& (#[trigger] parts[i]).x == area.x
                &&& parts[i].width == area.width
                &&& area.y <= parts[i].y
                &&& parts[i].y + parts[i].height <= lesser(
                    area.y + area.height,
                    u16::MAX as int,
                )
            },
            Direction::Horizontal => {
                &&& parts[i].y == area.y
                &&& parts[i].height == area.height
                &&& area.x <= parts[i].x
                &&& parts[i].x + parts[i].width <= lesser(area.x + area.width, u16::MAX as int)
            },
        }
}

/// `ratatui::layout::Rect::new` cuts a rectangle off at the last coordinate.
#[verifier::external_body]
pub(crate) fn rect(x: u16, y: u16, width: u16, height: u16) -> (r: Rect)
    ensures
        r == bounded(x, y, width, height),
{
    let r = layout::Rect::new(x, y, width, height);
    Rect { x: r.x, y: r.y, width: r.width, height: r.height }
}

/// `ratatui::layout::Rect::inner` takes a margin off each side of a rectangle; where there is
/// less than the margins take, it gives the empty rectangle at the origin.
#[verifier::external_body]
pub(crate) fn inner(area: Rect, horizontal: u16, vertical: u16) -> (r: Rect)
    ensures
        r == inset(area, horizontal, vertical),
{
    let outer = layout::Rect {
        x: area.x,
        y: area.y,
        width: area.width,
        height: area.height,
    };
    let r = outer.inner(layout::Margin { horizontal, vertical });
    Rect { x: r.x, y: r.y, width: r.width, height: r.height }
}

/// `ratatui::layout::Layout::split`, on a layout with a direction and sizes and all else as by
/// default, gives one part for each size. The parts have the extent of the whole across the
/// direction. Along it, each starts and ends inside the whole, which ends at the last coordinate
/// where it would go on past that: the solver is given this as a constraint that it must meet.
/// How long each part is along the direction is left open: the sizes are constraints that the
/// solver may break, and its answer may depend on the order in which it walks its tables.
#[verifier::external_body]
pub(crate) fn split(area: Rect, direction: Direction, sizes: Vec<Constraint>) -> (r: Vec<Rect>)
    ensures
        may_split(area, direction, sizes@, r@),
        r@.len() == sizes@.len(),
        spans(area, direction, r@),
{
    let side = match direction {
        Direction::Horizontal => layout::Direction::Horizontal,
        Direction::Vertical => layout::Direction::Vertical,
    };
    let sizes = sizes.into_iter().map(|size| match size {
        Constraint::Length(n) => layout::Constraint::Length(n),
        Constraint::Min(n) => layout::Constraint::Min(n),
        Constraint::Percentage(n) => layout::Constraint::Percentage(n),
    });
    let Rect { x, y, width, height } = area;
    let whole = layout::Rect { x, y, width, height };
    let parts = layout::Layout::default().direction(side).constraints(sizes).split(whole);
    parts.iter().map(|p| Rect { x: p.x, y: p.y, width: p.width, height: p.height }).collect()
}

/// The larger of `least` and what fits of `wanted` into `extent`.
pub open spec fn fitted(wanted: int, least: int, extent: u16) -> int {
    lesser(greater(wanted, least), greater(extent as int, least))
}

/// The width that a share of `area` asks for; the product saturates.
pub open spec fn shared_width(width_percent: u16, area: Rect) -> int {
    fitted(lesser(area.width * width_percent, u16::MAX as int) / 100, 24, area.width)
}

/// Where a stretch of `size` starts when it is centred in `extent` cells from `start`.
pub open spec fn centered_start(start: u16, extent: u16, size: int) -> int {
    start + greater(extent - size, 0) / 2
}

/// Whether a rectangle ends before the last coordinate, or at it.
pub open spec fn ends_on_screen(area: Rect) -> bool {
    &&& area.x + area.width <= u16::MAX
    &&& area.y + area.height <= u16::MAX
}

/// Whether a centred rectangle has a corner on the screen.
pub open spec fn can_center(width_percent: u16, height: u16, area: Rect) -> bool {
    &&& centered_start(area.x, area.width, shared_width(width_percent, area)) <= u16::MAX
    &&& centered_start(area.y, area.height, fitted(height as int, 3, area.height)) <= u16::MAX
}

/// The rectangle in the middle of `area` that takes a share of its width and has a height, each
/// as far as there is room.
pub open spec fn centered(width_percent: u16, height: u16, area: Rect) -> Rect {
    let w = shared_width(width_percent, area);
    let h = fitted(height as int, 3, area.height);
    bounded(
        centered_start(area.x, area.width, w) as u16,
        centered_start(area.y, area.height, h) as u16,
        lesser(w, area.width as int) as u16,
        lesser(h, area.height as int) as u16,
    )
}

/// The rectangle in the middle of `area` that takes a share of its width and has a height, each
/// as far as there is room.
pub fn centered_rect(width_percent: u16, height: u16, area: Rect) -> (r: Rect)
    requires
        can_center(width_percent, height, area),
    ensures
        r == centered(width_percent, height, area),
{
    let width: u16 = share_of_width(width_percent, area);
    let height: u16 = clamp(height, 3, area.height);
    let x: u16 = area.x + area.width.saturating_sub(width) / 2;
    let y: u16 = area.y + area.height.saturating_sub(height) / 2;
    rect(
        x,
        y,
        if width < area.width {
            width
        } else {
            area.width
        },
        if height < area.height {
            height
        } else {
            area.height
        },
    )
}

/// The larger of `least` and what fits of `wanted` into `extent`.
fn clamp(wanted: u16, least: u16, extent: u16) -> (r: u16)
    ensures
        r == fitted(wanted as int, least as int, extent),
{
    let most: u16 = if extent < least {
        least
    } else {
        extent
    };
    if wanted < least {
        least
    } else if wanted > most {
        most
    } else {
        wanted
    }
}

/// The width that a share of `area` asks for; the product saturates.
fn share_of_width(width_percent: u16, area: Rect) -> (r: u16)
    ensures
        r == shared_width(width_percent, area),
{
    assert(0 <= area.width * width_percent <= 0xffff * 0xffff) by (nonlinear_arith)
        requires
            0 <= area.width <= 0xffff,
            0 <= width_percent <= 0xffff,
    ;
    let product: u32 = area.width as u32 * width_percent as u32;
    let share: u32 = (if product <= 0xffff {
        product
    } else {
        0xffff
    }) / 100;
    clamp(share as u16, 24, area.width)
}

/// Whether a centred rectangle has a corner on the screen.
pub fn can_center_rect(width_percent: u16, height: u16, area: Rect) -> (r: bool)
    ensures
        r == can_center(width_percent, height, area),
{
    let width: u16 = share_of_width(width_percent, area);
    let height: u16 = clamp(height, 3, area.height);
    area.width.saturating_sub(width) / 2 <= 0xffff - area.x && area.height.saturating_sub(height)
        / 2 <= 0xffff - area.y
}

} // verus!
