use tui::layout::{Constraint, Direction, Layout, Rect};
use vstd::prelude::*;

verus! {

/// A rectangle of terminal cells.
#[derive(Clone, Copy, Debug, PartialEq, Eq, Structural)]
pub struct Area {
    pub x: u16,
    pub y: u16,
    pub width: u16,
    pub height: u16,
}

/// The three regions of a frame, top to bottom.
#[derive(Clone, Copy, Debug, PartialEq, Eq, Structural)]
pub struct FrameLayout {
    pub header: Area,
    pub content: Area,
    pub footer: Area,
}

/// Blank cells kept around the frame on each side.
pub const FRAME_MARGIN: u16 = 2;

/// Rows of the header region.
pub const HEADER_ROWS: u16 = 3;

/// Least rows of the content region, which takes whatever is left.
pub const CONTENT_MIN_ROWS: u16 = 2;

/// Rows of the footer region.
pub const FOOTER_ROWS: u16 = 3;

/// The area left inside `margin` cells on each side; an empty area at the
/// origin when the margin does not fit.
pub open spec fn inner_area(a: Area, margin: u16) -> Area {
    if a.width < 2 * margin || a.height < 2 * margin {
        Area { x: 0, y: 0, width: 0, height: 0 }
    } else {
        Area {
            x: (a.x + margin) as u16,
            y: (a.y + margin) as u16,
            width: (a.width - 2 * margin) as u16,
            height: (a.height - 2 * margin) as u16,
        }
    }
}

/// `top`, `mid` and `bottom` fill `inner` from top to bottom, each with its
/// full width: the first starts at its top edge, each of the others where the
/// one before it ends, and the last ends at its bottom edge.
pub open spec fn stacked(inner: Area, top: Area, mid: Area, bottom: Area) -> bool {
    &&& top.x == inner.x && mid.x == inner.x && bottom.x == inner.x
    &&& top.width == inner.width && mid.width == inner.width && bottom.width == inner.width
    &&& top.y == inner.y
    &&& mid.y == top.y + top.height
    &&& bottom.y == mid.y + mid.height
    &&& bottom.y + bottom.height == inner.y + inner.height
}

/// Relies on tui's `Layout::split`, vertical with `margin` on all sides and
/// the constraints `Length(fixed_top)`, `Min(min_middle)`,
/// `Length(fixed_bottom)`: one rectangle per constraint, stacked over the
/// inner area (its required constraints, and the last one stretched to the
/// bottom). Where the inner area has room for all three, the two fixed rows
/// get their length exactly; below that the solver may share the rows out in
/// more than one way, so nothing more is stated. The sums bounded in
/// `requires` keep the solver's required constraints satisfiable (`right()`
/// and `bottom()` saturate) and `Rect::inner` free of overflow.
#[verifier::external_body]
fn split_rows(area: Area, margin: u16, fixed_top: u16, min_middle: u16, fixed_bottom: u16) -> (r: Vec<Area>)
    requires
        2 * margin <= u16::MAX,
        area.x + area.width <= u16::MAX,
        area.y + area.height <= u16::MAX,
    ensures
        r@.len() == 3,
        stacked(inner_area(area, margin), r@[0], r@[1], r@[2]),
        inner_area(area, margin).height >= fixed_top + min_middle + fixed_bottom ==> r@[0].height
            == fixed_top && r@[2].height == fixed_bottom,
{
    let rect = Rect { x: area.x, y: area.y, width: area.width, height: area.height };
    let constraints = vec![
        Constraint::Length(fixed_top),
        Constraint::Min(min_middle),
        Constraint::Length(fixed_bottom),
    ];
    let layout = Layout::default().direction(Direction::Vertical).margin(margin);
    let rects = layout.constraints(constraints).split(rect);
    rects.into_iter().map(|c| Area { x: c.x, y: c.y, width: c.width, height: c.height }).collect()
}

/// Splits the drawing area of a frame into its header, content and footer,
/// stacked inside the frame margin. With room for all three, the header and
/// footer get their fixed rows and the content the rest.
pub fn frame_layout(size: Area) -> (r: FrameLayout)
    requires
        size.x + size.width <= u16::MAX,
        size.y + size.height <= u16::MAX,
    ensures
        stacked(inner_area(size, FRAME_MARGIN), r.header, r.content, r.footer),
        inner_area(size, FRAME_MARGIN).height >= HEADER_ROWS + CONTENT_MIN_ROWS + FOOTER_ROWS ==> {
            &&& r.header.height == HEADER_ROWS
            &&& r.footer.height == FOOTER_ROWS
            &&& r.content.height == inner_area(size, FRAME_MARGIN).height - HEADER_ROWS
                - FOOTER_ROWS
        },
{
    let parts = split_rows(size, FRAME_MARGIN, HEADER_ROWS, CONTENT_MIN_ROWS, FOOTER_ROWS);
    FrameLayout { header: parts[0], content: parts[1], footer: parts[2] }
}

} // verus!
