//! The block: the frame, with borders and a title, that the other widgets are
//! drawn in.

use vstd::prelude::*;
use crate::buffer::{Buffer, CellView};
use crate::layout::{within, Rect};
use crate::style::Style;
use crate::symbols::{double, normal, rounded, thick, LineSet};
use crate::symbols::{spec_double, spec_normal, spec_rounded, spec_thick};

verus! {

/// Which of the four sides of a block carry a border.
#[derive(Debug, Clone, Copy, PartialEq, Eq, Structural)]
pub struct Borders {
    pub top: bool,
    pub right: bool,
    pub bottom: bool,
    pub left: bool,
}

impl Borders {
    pub open spec fn spec_none() -> Borders {
        Borders { top: false, right: false, bottom: false, left: false }
    }

    pub open spec fn spec_all() -> Borders {
        Borders { top: true, right: true, bottom: true, left: true }
    }

    pub open spec fn spec_union(self, other: Borders) -> Borders {
        Borders {
            top: self.top || other.top,
            right: self.right || other.right,
            bottom: self.bottom || other.bottom,
            left: self.left || other.left,
        }
    }

    /// Some side is in both sets.
    pub open spec fn spec_intersects(self, other: Borders) -> bool {
        (self.top && other.top) || (self.right && other.right) || (self.bottom && other.bottom)
            || (self.left && other.left)
    }

    /// Every side of `other` is in `self`.
    pub open spec fn spec_contains(self, other: Borders) -> bool {
        (other.top ==> self.top) && (other.right ==> self.right) && (other.bottom ==> self.bottom)
            && (other.left ==> self.left)
    }

    pub fn none() -> (r: Borders)
        ensures
            r == Borders::spec_none(),
    {
        Borders { top: false, right: false, bottom: false, left: false }
    }

    pub fn all() -> (r: Borders)
        ensures
            r == Borders::spec_all(),
    {
        Borders { top: true, right: true, bottom: true, left: true }
    }

    pub fn top() -> (r: Borders)
        ensures
            r == (Borders { top: true, ..Borders::spec_none() }),
    {
        Borders { top: true, right: false, bottom: false, left: false }
    }

    pub fn right() -> (r: Borders)
        ensures
            r == (Borders { right: true, ..Borders::spec_none() }),
    {
        Borders { top: false, right: true, bottom: false, left: false }
    }

    pub fn bottom() -> (r: Borders)
        ensures
            r == (Borders { bottom: true, ..Borders::spec_none() }),
    {
        Borders { top: false, right: false, bottom: true, left: false }
    }

    pub fn left() -> (r: Borders)
        ensures
            r == (Borders { left: true, ..Borders::spec_none() }),
    {
        Borders { top: false, right: false, bottom: false, left: true }
    }

    pub fn union(self, other: Borders) -> (r: Borders)
        ensures
            r == self.spec_union(other),
    {
        Borders {
            top: self.top || other.top,
            right: self.right || other.right,
            bottom: self.bottom || other.bottom,
            left: self.left || other.left,
        }
    }

    pub fn intersects(&self, other: Borders) -> (r: bool)
        ensures
            r == self.spec_intersects(other),
    {
        (self.top && other.top) || (self.right && other.right) || (self.bottom && other.bottom)
            || (self.left && other.left)
    }

    pub fn contains(&self, other: Borders) -> (r: bool)
        ensures
            r == self.spec_contains(other),
    {
        (!other.top || self.top) && (!other.right || self.right) && (!other.bottom || self.bottom)
            && (!other.left || self.left)
    }
}

#[derive(Debug, Copy, Clone, PartialEq, Eq, Structural)]
pub enum BorderType {
    Plain,
    Rounded,
    Double,
    Thick,
}

impl BorderType {
    /// The symbols that a border of each type is drawn with.
    pub open spec fn spec_line_symbols(border_type: BorderType) -> LineSet {
        match border_type {
            BorderType::Plain => spec_normal(),
            BorderType::Rounded => spec_rounded(),
            BorderType::Double => spec_double(),
            BorderType::Thick => spec_thick(),
        }
    }

    pub fn line_symbols(border_type: BorderType) -> (r: LineSet)
        ensures
            r == BorderType::spec_line_symbols(border_type),
    {
        match border_type {
            BorderType::Plain => normal(),
            BorderType::Rounded => rounded(),
            BorderType::Double => double(),
            BorderType::Thick => thick(),
        }
    }
}

/// Base widget of all the others: a box border around an area, a title on its
/// top line, or both.
#[derive(Clone, Copy)]
pub struct Block<'a> {
    /// Optional title, placed on the upper left of the block.
    pub title: Option<&'a str>,
    pub title_style: Style,
    /// The sides that carry a border.
    pub borders: Borders,
    pub border_style: Style,
    pub border_type: BorderType,
    /// Style of the whole area.
    pub style: Style,
}

/// A block as plain values: the title is its text.
pub struct BlockView {
    pub title: Option<Seq<char>>,
    pub title_style: Style,
    pub borders: Borders,
    pub border_style: Style,
    pub border_type: BorderType,
    pub style: Style,
}

impl<'a> View for Block<'a> {
    type V = BlockView;

    open spec fn view(&self) -> BlockView {
        BlockView {
            title: match self.title {
                Some(title) => Some(title@),
                None => None,
            },
            title_style: self.title_style,
            borders: self.borders,
            border_style: self.border_style,
            border_type: self.border_type,
            style: self.style,
        }
    }
}

impl BlockView {
    /// What drawing the block on `area` leaves in the cell at column `x`, row
    /// `y`, which held `before`. An area under two cells wide or high is not
    /// drawn at all. Otherwise the area's cells take the block's background;
    /// then come the left, top, right and bottom sides, each over the whole
    /// side; then the corners where both their sides are bordered; then the
    /// title, on the top row between the side borders, one character to a
    /// cell, cut at the width left. Later layers replace earlier ones.
    pub open spec fn render_cell(self, area: Rect, x: int, y: int, before: CellView) -> CellView {
        if area.width < 2 || area.height < 2 {
            before
        } else {
            let symbols = BorderType::spec_line_symbols(self.border_type);
            let last_x = area.x + area.width - 1;
            let last_y = area.y + area.height - 1;
            let inside = area.covers(x, y);
            let vertical = CellView { symbol: symbols.vertical@, style: self.border_style };
            let horizontal = CellView { symbol: symbols.horizontal@, style: self.border_style };
            let c0 = if inside {
                before.with_bg(self.style.bg)
            } else {
                before
            };
            let c1 = if self.borders.left && inside && x == area.x {
                vertical
            } else {
                c0
            };
            let c2 = if self.borders.top && inside && y == area.y {
                horizontal
            } else {
                c1
            };
            let c3 = if self.borders.right && inside && x == last_x {
                vertical
            } else {
                c2
            };
            let c4 = if self.borders.bottom && inside && y == last_y {
                horizontal
            } else {
                c3
            };
            let c5 = if self.borders.left && self.borders.top && x == area.x && y == area.y {
                CellView { symbol: symbols.top_left@, style: self.border_style }
            } else {
                c4
            };
            let c6 = if self.borders.right && self.borders.top && x == last_x && y == area.y {
                CellView { symbol: symbols.top_right@, style: self.border_style }
            } else {
                c5
            };
            let c7 = if self.borders.left && self.borders.bottom && x == area.x && y == last_y {
                CellView { symbol: symbols.bottom_left@, style: self.border_style }
            } else {
                c6
            };
            let c8 = if self.borders.right && self.borders.bottom && x == last_x && y == last_y {
                CellView { symbol: symbols.bottom_right@, style: self.border_style }
            } else {
                c7
            };
            match self.title {
                Some(title) => {
                    let first = area.x + if self.borders.left { 1int } else { 0int };
                    let end = area.x + area.width - if self.borders.right { 1int } else { 0int };
                    if y == area.y && first <= x < end && x - first < title.len() {
                        CellView { symbol: seq![title[x - first]], style: self.title_style }
                    } else {
                        c8
                    }
                },
                None => c8,
            }
        }
    }
}

impl<'a> Block<'a> {
    /// A block with no title and no border, in the default style.
    pub open spec fn spec_default() -> Block<'a> {
        Block {
            title: None,
            title_style: Style::spec_default(),
            borders: Borders::spec_none(),
            border_style: Style::spec_default(),
            border_type: BorderType::Plain,
            style: Style::spec_default(),
        }
    }

    /// Whether the first row of the area is taken, by a border or by the title.
    pub open spec fn takes_top(self) -> bool {
        self.borders.top || self.title.is_some()
    }

    /// The area left for the content once borders and title have taken theirs.
    /// An area under two cells wide or high leaves nothing.
    pub open spec fn spec_inner(self, area: Rect) -> Rect {
        if area.width < 2 || area.height < 2 {
            Rect::spec_empty()
        } else {
            let l: int = if self.borders.left { 1 } else { 0 };
            let r: int = if self.borders.right { 1 } else { 0 };
            let t: int = if self.takes_top() { 1 } else { 0 };
            let b: int = if self.borders.bottom { 1 } else { 0 };
            Rect {
                x: (area.x + l) as u16,
                y: (area.y + t) as u16,
                width: (area.width - l - r) as u16,
                height: (area.height - t - b) as u16,
            }
        }
    }

    pub fn title(self, title: &'a str) -> (r: Block<'a>)
        ensures
            r == (Block { title: Some(title), ..self }),
    {
        let mut block = self;
        block.title = Some(title);
        block
    }

    pub fn title_style(self, style: Style) -> (r: Block<'a>)
        ensures
            r == (Block { title_style: style, ..self }),
    {
        let mut block = self;
        block.title_style = style;
        block
    }

    pub fn border_style(self, style: Style) -> (r: Block<'a>)
        ensures
            r == (Block { border_style: style, ..self }),
    {
        let mut block = self;
        block.border_style = style;
        block
    }

    pub fn style(self, style: Style) -> (r: Block<'a>)
        ensures
            r == (Block { style, ..self }),
    {
        let mut block = self;
        block.style = style;
        block
    }

    pub fn borders(self, flag: Borders) -> (r: Block<'a>)
        ensures
            r == (Block { borders: flag, ..self }),
    {
        let mut block = self;
        block.borders = flag;
        block
    }

    pub fn border_type(self, border_type: BorderType) -> (r: Block<'a>)
        ensures
            r == (Block { border_type, ..self }),
    {
        let mut block = self;
        block.border_type = border_type;
        block
    }

    /// Compute the inner area of a block based on its border visibility rules.
    pub fn inner(&self, area: Rect) -> (r: Rect)
        requires
            area.is_valid(),
        ensures
            r == self.spec_inner(area),
    {
        if area.width < 2 || area.height < 2 {
            return Rect::default();
        }
        let mut inner = area;
        if self.borders.intersects(Borders::left()) {
            inner.x += 1;
            inner.width -= 1;
        }
        if self.borders.intersects(Borders::top()) || self.title.is_some() {
            inner.y += 1;
            inner.height -= 1;
        }
        if self.borders.intersects(Borders::right()) {
            inner.width -= 1;
        }
        if self.borders.intersects(Borders::bottom()) {
            inner.height -= 1;
        }
        inner
    }

    /// Draws the block on `area` of the buffer: background, borders, corners,
    /// title.
    pub fn render(self, area: Rect, buf: &mut Buffer)
        requires
            old(buf).is_valid(),
            area.is_valid(),
            area.width >= 2 && area.height >= 2 ==> within(area, old(buf).area),
        ensures
            final(buf).is_valid(),
            final(buf).area == old(buf).area,
            forall|x: int, y: int|
                old(buf).area.covers(x, y) ==> #[trigger] final(buf).cell(x, y)
                    == self@.render_cell(area, x, y, old(buf).cell(x, y)),
    {
        if area.width < 2 || area.height < 2 {
            return ;
        }
        buf.set_background(area, self.style.bg);

        let symbols = BorderType::line_symbols(self.border_type);
        // Sides
        if self.borders.intersects(Borders::left()) {
            buf.fill_column(area.left(), area.top(), area.bottom(), symbols.vertical, self.border_style);
        }
        if self.borders.intersects(Borders::top()) {
            buf.fill_row(area.left(), area.right(), area.top(), symbols.horizontal, self.border_style);
        }
        if self.borders.intersects(Borders::right()) {
            let x: u16 = area.right() - 1;
            buf.fill_column(x, area.top(), area.bottom(), symbols.vertical, self.border_style);
        }
        if self.borders.intersects(Borders::bottom()) {
            let y: u16 = area.bottom() - 1;
            buf.fill_row(area.left(), area.right(), y, symbols.horizontal, self.border_style);
        }
        // Corners
        if self.borders.contains(Borders::left().union(Borders::top())) {
            buf.set_cell(area.left(), area.top(), symbols.top_left, self.border_style);
        }
        if self.borders.contains(Borders::right().union(Borders::top())) {
            buf.set_cell(area.right() - 1, area.top(), symbols.top_right, self.border_style);
        }
        if self.borders.contains(Borders::left().union(Borders::bottom())) {
            buf.set_cell(area.left(), area.bottom() - 1, symbols.bottom_left, self.border_style);
        }
        if self.borders.contains(Borders::right().union(Borders::bottom())) {
            buf.set_cell(
                area.right() - 1,
                area.bottom() - 1,
                symbols.bottom_right,
                self.border_style,
            );
        }
        if let Some(title) = self.title {
            let lx: u16 = if self.borders.intersects(Borders::left()) {
                1
            } else {
                0
            };
            let rx: u16 = if self.borders.intersects(Borders::right()) {
                1
            } else {
                0
            };
            let width: u16 = area.width - lx - rx;
            buf.set_stringn(area.left() + lx, area.top(), title, width, self.title_style);
        }
    }

    /// The inner area lies inside the outer one.
    pub proof fn lemma_inner_within(self, area: Rect)
        requires
            area.is_valid(),
        ensures
            self.spec_inner(area).is_valid(),
            area.width >= 2 && area.height >= 2 ==> {
                let r = self.spec_inner(area);
                &&& area.x <= r.x
                &&& area.y <= r.y
                &&& r.x + r.width <= area.x + area.width
                &&& r.y + r.height <= area.y + area.height
            },
    {
    }
}

impl<'a> Default for Block<'a> {
    fn default() -> (r: Block<'a>)
        ensures
            r == Block::<'a>::spec_default(),
    {
        Block {
            title: None,
            title_style: Style::default(),
            borders: Borders::none(),
            border_style: Style::default(),
            border_type: BorderType::Plain,
            style: Style::default(),
        }
    }
}

} // verus!
