//! The grid of cells that widgets draw on.

use vstd::prelude::*;
use crate::layout::{within, Rect};
use crate::style::{Color, Style};

verus! {

/// One cell of the screen: what it shows and how.
#[derive(Debug, Clone, PartialEq, Eq)]
pub struct Cell {
    pub symbol: String,
    pub style: Style,
}

/// A cell as plain values.
pub struct CellView {
    pub symbol: Seq<char>,
    pub style: Style,
}

impl View for Cell {
    type V = CellView;

    open spec fn view(&self) -> CellView {
        CellView { symbol: self.symbol@, style: self.style }
    }
}

impl CellView {
    /// A cell that shows one space in the default style.
    pub open spec fn blank() -> CellView {
        CellView { symbol: " "@, style: Style::spec_default() }
    }

    /// The cell with its background changed.
    pub open spec fn with_bg(self, color: Color) -> CellView {
        CellView { style: Style { bg: color, ..self.style }, ..self }
    }
}

/// The cells of an area of the screen, row after row.
#[derive(Debug, Clone, PartialEq, Eq)]
pub struct Buffer {
    pub area: Rect,
    pub content: Vec<Cell>,
}

/// The place in a buffer's content of the cell at column `x`, row `y`.
pub open spec fn index_in(area: Rect, x: int, y: int) -> int {
    (y - area.y) * area.width + (x - area.x)
}

/// Every cell of an area has a place of its own in the content.
pub proof fn lemma_index_in_range(area: Rect, x: int, y: int)
    requires
        area.covers(x, y),
    ensures
        0 <= index_in(area, x, y) < area.width * area.height,
{
    let dy = y - area.y;
    let w = area.width as int;
    let h = area.height as int;
    assert(dy * w >= 0 && dy * w + w <= h * w) by (nonlinear_arith)
        requires
            0 <= dy < h,
            w >= 0,
    ;
}

/// Two cells of an area with the same place are the same cell.
pub proof fn lemma_index_injective(area: Rect, x1: int, y1: int, x2: int, y2: int)
    requires
        area.covers(x1, y1),
        area.covers(x2, y2),
        index_in(area, x1, y1) == index_in(area, x2, y2),
    ensures
        x1 == x2 && y1 == y2,
{
    let w = area.width as int;
    let d1 = y1 - area.y;
    let d2 = y2 - area.y;
    if d1 < d2 {
        assert(d2 * w >= d1 * w + w) by (nonlinear_arith)
            requires
                d1 < d2,
                w >= 0,
        ;
    } else if d2 < d1 {
        assert(d1 * w >= d2 * w + w) by (nonlinear_arith)
            requires
                d2 < d1,
                w >= 0,
        ;
    }
}

impl Buffer {
    /// The content holds one cell for each place of the area.
    pub open spec fn is_valid(self) -> bool {
        self.area.is_valid() && self.content@.len() == self.area.width * self.area.height
    }

    /// The cell at column `x`, row `y`.
    pub open spec fn cell(self, x: int, y: int) -> CellView
        recommends
            self.area.covers(x, y),
    {
        self.content@[index_in(self.area, x, y)]@
    }

    /// A buffer over `area` whose cells are all blank.
    pub fn empty(area: Rect) -> (buf: Buffer)
        requires
            area.is_valid(),
            area.width * area.height <= usize::MAX,
        ensures
            buf.is_valid(),
            buf.area == area,
            forall|x: int, y: int| area.covers(x, y) ==> #[trigger] buf.cell(x, y) == CellView::blank(),
    {
        let size: usize = area.width as usize * area.height as usize;
        let mut content: Vec<Cell> = Vec::new();
        let mut i: usize = 0;
        while i < size
            invariant
                i <= size,
                content@.len() == i,
                forall|k: int| 0 <= k < i ==> (#[trigger] content@[k])@ == CellView::blank(),
            decreases size - i,
        {
            content.push(Cell { symbol: " ".to_owned(), style: Style::default() });
            i = i + 1;
        }
        let buf = Buffer { area, content };
        assert forall|x: int, y: int| area.covers(x, y) implies #[trigger] buf.cell(x, y)
            == CellView::blank() by {
            lemma_index_in_range(area, x, y);
        }
        buf
    }

    fn index_of(&self, x: u16, y: u16) -> (i: usize)
        requires
            self.is_valid(),
            self.area.covers(x as int, y as int),
        ensures
            i == index_in(self.area, x as int, y as int),
            i < self.content@.len(),
    {
        proof {
            lemma_index_in_range(self.area, x as int, y as int);
            let dy = y - self.area.y;
            let w = self.area.width as int;
            assert(dy * w >= 0) by (nonlinear_arith)
                requires
                    dy >= 0,
                    w >= 0,
            ;
        }
        let _len: usize = self.content.len();
        (y - self.area.y) as usize * self.area.width as usize + (x - self.area.x) as usize
    }

    /// The cell at column `x`, row `y`.
    pub fn get(&self, x: u16, y: u16) -> (cell: &Cell)
        requires
            self.is_valid(),
            self.area.covers(x as int, y as int),
        ensures
            cell@ == self.cell(x as int, y as int),
    {
        let i = self.index_of(x, y);
        &self.content[i]
    }

    /// Puts a symbol and a style in the cell at column `x`, row `y`. No
    /// other cell changes.
    pub fn set_cell(&mut self, x: u16, y: u16, symbol: &str, style: Style)
        requires
            old(self).is_valid(),
            old(self).area.covers(x as int, y as int),
        ensures
            final(self).is_valid(),
            final(self).area == old(self).area,
            forall|cx: int, cy: int|
                old(self).area.covers(cx, cy) ==> #[trigger] final(self).cell(cx, cy) == if cx == x
                    && cy == y {
                    CellView { symbol: symbol@, style }
                } else {
                    old(self).cell(cx, cy)
                },
    {
        let i = self.index_of(x, y);
        self.content.set(i, Cell { symbol: symbol.to_owned(), style });
        assert forall|cx: int, cy: int| old(self).area.covers(cx, cy) implies #[trigger] self.cell(
            cx,
            cy,
        ) == if cx == x && cy == y {
            CellView { symbol: symbol@, style }
        } else {
            old(self).cell(cx, cy)
        } by {
            lemma_index_in_range(self.area, cx, cy);
            if !(cx == x && cy == y) {
                if index_in(self.area, cx, cy) == i {
                    lemma_index_injective(self.area, cx, cy, x as int, y as int);
                }
            }
        }
    }

    /// Changes the background of the cell at column `x`, row `y`. No other
    /// cell changes.
    pub fn set_cell_bg(&mut self, x: u16, y: u16, color: Color)
        requires
            old(self).is_valid(),
            old(self).area.covers(x as int, y as int),
        ensures
            final(self).is_valid(),
            final(self).area == old(self).area,
            forall|cx: int, cy: int|
                old(self).area.covers(cx, cy) ==> #[trigger] final(self).cell(cx, cy) == if cx == x
                    && cy == y {
                    old(self).cell(cx, cy).with_bg(color)
                } else {
                    old(self).cell(cx, cy)
                },
    {
        let i = self.index_of(x, y);
        let symbol = self.content[i].symbol.clone();
        let style = self.content[i].style.bg(color);
        self.content.set(i, Cell { symbol, style });
        assert forall|cx: int, cy: int| old(self).area.covers(cx, cy) implies #[trigger] self.cell(
            cx,
            cy,
        ) == if cx == x && cy == y {
            old(self).cell(cx, cy).with_bg(color)
        } else {
            old(self).cell(cx, cy)
        } by {
            lemma_index_in_range(self.area, cx, cy);
            if !(cx == x && cy == y) {
                if index_in(self.area, cx, cy) == i {
                    lemma_index_injective(self.area, cx, cy, x as int, y as int);
                }
            }
        }
    }

    /// Puts one symbol and style in the cells of row `y` from column `x0` up
    /// to, not including, column `x1`.
    pub fn fill_row(&mut self, x0: u16, x1: u16, y: u16, symbol: &str, style: Style)
        requires
            old(self).is_valid(),
            x0 < x1 ==> old(self).area.covers(x0 as int, y as int) && old(self).area.covers(
                x1 - 1,
                y as int,
            ),
        ensures
            final(self).is_valid(),
            final(self).area == old(self).area,
            forall|cx: int, cy: int|
                old(self).area.covers(cx, cy) ==> #[trigger] final(self).cell(cx, cy) == if cy == y
                    && x0 <= cx < x1 {
                    CellView { symbol: symbol@, style }
                } else {
                    old(self).cell(cx, cy)
                },
    {
        let mut x: u16 = x0;
        while x < x1
            invariant
                x0 <= x,
                x <= x1 || x == x0,
                self.is_valid(),
                self.area == old(self).area,
                x0 < x1 ==> self.area.covers(x0 as int, y as int) && self.area.covers(
                    x1 - 1,
                    y as int,
                ),
                forall|cx: int, cy: int|
                    self.area.covers(cx, cy) ==> #[trigger] self.cell(cx, cy) == if cy == y && x0
                        <= cx < x {
                        CellView { symbol: symbol@, style }
                    } else {
                        old(self).cell(cx, cy)
                    },
            decreases x1 - x,
        {
            self.set_cell(x, y, symbol, style);
            x = x + 1;
        }
    }

    /// Puts one symbol and style in the cells of column `x` from row `y0` up
    /// to, not including, row `y1`.
    pub fn fill_column(&mut self, x: u16, y0: u16, y1: u16, symbol: &str, style: Style)
        requires
            old(self).is_valid(),
            y0 < y1 ==> old(self).area.covers(x as int, y0 as int) && old(self).area.covers(
                x as int,
                y1 - 1,
            ),
        ensures
            final(self).is_valid(),
            final(self).area == old(self).area,
            forall|cx: int, cy: int|
                old(self).area.covers(cx, cy) ==> #[trigger] final(self).cell(cx, cy) == if cx == x
                    && y0 <= cy < y1 {
                    CellView { symbol: symbol@, style }
                } else {
                    old(self).cell(cx, cy)
                },
    {
        let mut y: u16 = y0;
        while y < y1
            invariant
                y0 <= y,
                y <= y1 || y == y0,
                self.is_valid(),
                self.area == old(self).area,
                y0 < y1 ==> self.area.covers(x as int, y0 as int) && self.area.covers(
                    x as int,
                    y1 - 1,
                ),
                forall|cx: int, cy: int|
                    self.area.covers(cx, cy) ==> #[trigger] self.cell(cx, cy) == if cx == x && y0
                        <= cy < y {
                        CellView { symbol: symbol@, style }
                    } else {
                        old(self).cell(cx, cy)
                    },
            decreases y1 - y,
        {
            self.set_cell(x, y, symbol, style);
            y = y + 1;
        }
    }

    /// Changes the background of every cell of `area`.
    pub fn set_background(&mut self, area: Rect, color: Color)
        requires
            old(self).is_valid(),
            area.is_valid(),
            area.width > 0 && area.height > 0 ==> within(area, old(self).area),
        ensures
            final(self).is_valid(),
            final(self).area == old(self).area,
            forall|cx: int, cy: int|
                old(self).area.covers(cx, cy) ==> #[trigger] final(self).cell(cx, cy) == if area.covers(
                    cx,
                    cy,
                ) {
                    old(self).cell(cx, cy).with_bg(color)
                } else {
                    old(self).cell(cx, cy)
                },
    {
        if area.width == 0 || area.height == 0 {
            return ;
        }
        let mut y: u16 = area.top();
        while y < area.bottom()
            invariant
                area.y <= y <= area.y + area.height,
                area.is_valid(),
                area.width > 0,
                within(area, self.area),
                self.is_valid(),
                self.area == old(self).area,
                forall|cx: int, cy: int|
                    self.area.covers(cx, cy) ==> #[trigger] self.cell(cx, cy) == if area.covers(
                        cx,
                        cy,
                    ) && cy < y {
                        old(self).cell(cx, cy).with_bg(color)
                    } else {
                        old(self).cell(cx, cy)
                    },
            decreases area.y + area.height - y,
        {
            let mut x: u16 = area.left();
            while x < area.right()
                invariant
                    area.x <= x <= area.x + area.width,
                    area.y <= y < area.y + area.height,
                    area.is_valid(),
                    within(area, self.area),
                    self.is_valid(),
                    self.area == old(self).area,
                    forall|cx: int, cy: int|
                        self.area.covers(cx, cy) ==> #[trigger] self.cell(cx, cy) == if area.covers(
                            cx,
                            cy,
                        ) && (cy < y || (cy == y && cx < x)) {
                            old(self).cell(cx, cy).with_bg(color)
                        } else {
                            old(self).cell(cx, cy)
                        },
                decreases area.x + area.width - x,
            {
                self.set_cell_bg(x, y, color);
                x = x + 1;
            }
            y = y + 1;
        }
    }

    /// Writes the first `width` characters of `text`, or all of them if it
    /// has fewer, into row `y` from column `x` on, one character to a cell.
    pub fn set_stringn(&mut self, x: u16, y: u16, text: &str, width: u16, style: Style)
        requires
            old(self).is_valid(),
            width > 0 ==> old(self).area.covers(x as int, y as int) && old(self).area.covers(
                x + width - 1,
                y as int,
            ),
        ensures
            final(self).is_valid(),
            final(self).area == old(self).area,
            forall|cx: int, cy: int|
                old(self).area.covers(cx, cy) ==> #[trigger] final(self).cell(cx, cy) == if cy == y
                    && x <= cx < x + width && cx - x < text@.len() {
                    CellView { symbol: seq![text@[cx - x]], style }
                } else {
                    old(self).cell(cx, cy)
                },
    {
        let len = text.unicode_len();
        let mut i: u16 = 0;
        while i < width && (i as usize) < len
            invariant
                i <= width,
                i <= len,
                len == text@.len(),
                self.is_valid(),
                self.area == old(self).area,
                width > 0 ==> self.area.covers(x as int, y as int) && self.area.covers(
                    x + width - 1,
                    y as int,
                ),
                forall|cx: int, cy: int|
                    self.area.covers(cx, cy) ==> #[trigger] self.cell(cx, cy) == if cy == y && x
                        <= cx < x + i {
                        CellView { symbol: seq![text@[cx - x]], style }
                    } else {
                        old(self).cell(cx, cy)
                    },
            decreases width - i,
        {
            let symbol = text.substring_char(i as usize, i as usize + 1);
            assert(symbol@ =~= seq![text@[i as int]]);
            self.set_cell(x + i, y, symbol, style);
            i = i + 1;
        }
    }
}

} // verus!
