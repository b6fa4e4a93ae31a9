//! Rectangular screen areas.

use vstd::prelude::*;
use tui::layout::{Constraint as Want, Direction as Along, Layout, Rect as Area};

verus! {

/// An area of the screen: its top-left corner and its size, in cells.
#[derive(Debug, Clone, Copy, PartialEq, Eq, Structural)]
pub struct Rect {
    pub x: u16,
    pub y: u16,
    pub width: u16,
    pub height: u16,
}

impl Rect {
    /// The far edges of the area are representable coordinates.
    pub open spec fn is_valid(self) -> bool {
        self.x + self.width <= u16::MAX && self.y + self.height <= u16::MAX
    }

    /// The cell at column `x`, row `y` lies inside the area.
    pub open spec fn covers(self, x: int, y: int) -> bool {
        self.x <= x < self.x + self.width && self.y <= y < self.y + self.height
    }

    pub open spec fn spec_empty() -> Rect {
        Rect { x: 0, y: 0, width: 0, height: 0 }
    }

    pub fn new(x: u16, y: u16, width: u16, height: u16) -> (r: Rect)
        ensures
            r == (Rect { x, y, width, height }),
    {
        Rect { x, y, width, height }
    }

    pub fn left(&self) -> (r: u16)
        ensures
            r == self.x,
    {
        self.x
    }

    pub fn top(&self) -> (r: u16)
        ensures
            r == self.y,
    {
        self.y
    }

    pub fn right(&self) -> (r: u16)
        requires
            self.is_valid(),
        ensures
            r == self.x + self.width,
    {
        self.x + self.width
    }

    pub fn bottom(&self) -> (r: u16)
        requires
            self.is_valid(),
        ensures
            r == self.y + self.height,
    {
        self.y + self.height
    }
}

impl Default for Rect {
    fn default() -> (r: Rect)
        ensures
            r == Rect::spec_empty(),
    {
        Rect { x: 0, y: 0, width: 0, height: 0 }
    }
}

/// The direction in which an area is cut into parts.
#[derive(Debug, Clone, Copy, PartialEq, Eq, Structural)]
pub enum Direction {
    Horizontal,
    Vertical,
}

/// What one part of a cut area asks for along the direction of the cut.
#[derive(Debug, Clone, Copy, PartialEq, Eq, Structural)]
pub enum Constraint {
    /// A share of the whole, in hundredths.
    Percentage(u16),
    /// That many cells.
    Length(u16),
    /// That many cells at least.
    Min(u16),
}

impl Constraint {
    /// A share can be taken of the area's sides without leaving `u16`.
    pub open spec fn scales(self, area: Rect) -> bool {
        match self {
            Constraint::Percentage(v) => v * area.width <= u16::MAX && v * area.height
                <= u16::MAX,
            _ => true,
        }
    }
}

/// Every constraint of the list scales on the area.
pub open spec fn all_scale(constraints: Seq<Constraint>, area: Rect) -> bool {
    forall|i: int| 0 <= i < constraints.len() ==> (#[trigger] constraints[i]).scales(area)
}

/// `inner` lies inside `outer`.
pub open spec fn within(inner: Rect, outer: Rect) -> bool {
    &&& outer.x <= inner.x
    &&& outer.y <= inner.y
    &&& inner.x + inner.width <= outer.x + outer.width
    &&& inner.y + inner.height <= outer.y + outer.height
}

/// `inner` is a valid area that lies inside `outer`.
pub open spec fn fits_in(inner: Rect, outer: Rect) -> bool {
    inner.is_valid() && within(inner, outer)
}

/// `tui::layout::Layout::split`, with no margin: cuts the area along the
/// direction into one part for each constraint, in their order. The parts'
/// places come out of a constraint solver and are not claimed here; only
/// their number is. Kept out are an area whose far edges leave `u16`, which
/// the solver cannot satisfy, and a share whose product with a side leaves
/// `u16`, since the crate multiplies the two in `u16`.
#[verifier::external_body]
pub(crate) fn split_area(direction: Direction, constraints: &Vec<Constraint>, area: Rect) -> (chunks:
    Vec<Rect>)
    requires
        area.is_valid(),
        all_scale(constraints@, area),
    ensures
        chunks@.len() == constraints@.len(),
{
    let wanted: Vec<Want> = constraints.iter().map(|c| match *c {
        Constraint::Percentage(v) => Want::Percentage(v),
        Constraint::Length(v) => Want::Length(v),
        Constraint::Min(v) => Want::Min(v),
    }).collect();
    let along = match direction {
        Direction::Horizontal => Along::Horizontal,
        Direction::Vertical => Along::Vertical,
    };
    let whole = Area::new(area.x, area.y, area.width, area.height);
    let parts = Layout::default().direction(along).constraints(wanted).split(whole);
    parts.iter().map(|r| Rect { x: r.x, y: r.y, width: r.width, height: r.height }).collect()
}

/// Whether `inner` is a valid area inside `outer`.
pub fn fits(inner: Rect, outer: Rect) -> (r: bool)
    ensures
        r == fits_in(inner, outer),
{
    let inner_right: u32 = inner.x as u32 + inner.width as u32;
    let inner_bottom: u32 = inner.y as u32 + inner.height as u32;
    let outer_right: u32 = outer.x as u32 + outer.width as u32;
    let outer_bottom: u32 = outer.y as u32 + outer.height as u32;
    inner_right <= 65535 && inner_bottom <= 65535 && outer.x <= inner.x && outer.y <= inner.y
        && inner_right <= outer_right && inner_bottom <= outer_bottom
}

fn constraint_scales(constraint: Constraint, area: Rect) -> (r: bool)
    ensures
        r == constraint.scales(area),
{
    match constraint {
        Constraint::Percentage(v) => {
            assert(0 <= v * area.width <= 65535 * 65535 && 0 <= v * area.height <= 65535 * 65535)
                by (nonlinear_arith)
                requires
                    0 <= v <= 65535,
                    0 <= area.width <= 65535,
                    0 <= area.height <= 65535,
            ;
            let by_width: u32 = v as u32 * area.width as u32;
            let by_height: u32 = v as u32 * area.height as u32;
            by_width <= 65535 && by_height <= 65535
        },
        _ => true,
    }
}

/// Every part of the list is a valid area inside `area`.
pub open spec fn all_fit(chunks: Seq<Rect>, area: Rect) -> bool {
    forall|i: int| 0 <= i < chunks.len() ==> fits_in(#[trigger] chunks[i], area)
}

/// What is handed out of the parts that a cut of `area` gave: all of them,
/// as they came, where each is a valid area inside `area`; nothing where
/// one is not.
pub open spec fn spec_parts_within(chunks: Vec<Rect>, area: Rect) -> Option<Vec<Rect>> {
    if all_fit(chunks@, area) {
        Some(chunks)
    } else {
        None
    }
}

/// What `split` may hand out for these constraints on this area. On an area
/// that is not valid, or on which a share does not scale, nothing. Else the
/// layout gives one part for each constraint, and what is handed out is
/// decided by those parts alone: all of them or nothing.
pub open spec fn split_allows(constraints: Seq<Constraint>, area: Rect, parts: Option<Vec<Rect>>) -> bool {
    if area.is_valid() && all_scale(constraints, area) {
        exists|chunks: Vec<Rect>|
            chunks@.len() == constraints.len() && parts == #[trigger] spec_parts_within(
                chunks,
                area,
            )
    } else {
        parts.is_none()
    }
}

/// Cuts an area along a direction into one part for each constraint, and
/// hands the parts out only if each of them is a valid area inside the one
/// that was cut. Nothing is handed out where the area is not valid or a
/// share does not scale on it. A valid area cut by no constraint gives the
/// empty list of parts.
pub fn split(direction: Direction, constraints: &Vec<Constraint>, area: Rect) -> (parts: Option<
    Vec<Rect>,
>)
    ensures
        split_allows(constraints@, area, parts),
        !(area.is_valid() && all_scale(constraints@, area)) ==> parts.is_none(),
        area.is_valid() && constraints@.len() == 0 ==> (parts matches Some(chunks)
            && chunks@.len() == 0),
        parts matches Some(chunks) ==> chunks@.len() == constraints@.len() && all_fit(
            chunks@,
            area,
        ),
{
    if !fits(area, area) {
        return None;
    }
    let mut i: usize = 0;
    while i < constraints.len()
        invariant
            i <= constraints@.len(),
            forall|k: int| 0 <= k < i ==> (#[trigger] constraints@[k]).scales(area),
        decreases constraints@.len() - i,
    {
        if !constraint_scales(constraints[i], area) {
            return None;
        }
        i = i + 1;
    }
    let chunks = split_area(direction, constraints, area);
    let ghost given = chunks;
    let parts = parts_within(chunks, area);
    assert(given@.len() == constraints@.len() && parts == spec_parts_within(given, area));
    parts
}

/// Hands out the parts that a cut of `area` gave, all of them or none: see
/// `spec_parts_within`.
pub fn parts_within(chunks: Vec<Rect>, area: Rect) -> (parts: Option<Vec<Rect>>)
    ensures
        parts == spec_parts_within(chunks, area),
{
    let mut j: usize = 0;
    while j < chunks.len()
        invariant
            j <= chunks@.len(),
            forall|k: int| 0 <= k < j ==> fits_in(#[trigger] chunks@[k], area),
        decreases chunks@.len() - j,
    {
        if !fits(chunks[j], area) {
            return None;
        }
        j = j + 1;
    }
    Some(chunks)
}

} // verus!
