//! A row of cells with a dirty flag.

use vstd::prelude::*;
use vstd::string::StringExecFns;
use crate::cell::{AttrView, Cell, CellAttributes, CellView, HyperlinkId};
use crate::text::{grapheme_clusters, graphemes, str_from_utf8};

verus! {

/// The views of a run of cells.
pub open spec fn cells_view(cells: Seq<Cell>) -> Seq<CellView> {
    Seq::new(cells.len(), |i: int| cells[i]@)
}

/// The text of a run of cells: the texts of the cells, one after the other.
pub open spec fn cells_text(cells: Seq<CellView>) -> Seq<char>
    decreases cells.len(),
{
    if cells.len() == 0 {
        Seq::empty()
    } else {
        cells_text(cells.drop_last()) + cells.last().text()
    }
}

/// A run of `n` blank cells.
pub open spec fn blanks(n: nat) -> Seq<CellView> {
    Seq::new(n, |i: int| CellView::blank())
}

/// What a `Line` holds.
pub struct LineView {
    pub cells: Seq<CellView>,
    pub dirty: bool,
}

impl LineView {
    /// A fresh line of `cols` blank cells. It is dirty: nothing has drawn it.
    pub open spec fn blank(cols: nat) -> LineView {
        LineView { cells: blanks(cols), dirty: true }
    }

    /// The line that shows one grapheme cluster per cell.
    pub open spec fn of_graphemes(parts: Seq<Seq<char>>, attrs: AttrView) -> LineView {
        LineView {
            cells: Seq::new(parts.len(), |i: int| CellView::from_grapheme(parts[i], attrs)),
            dirty: true,
        }
    }

    /// The line's text.
    pub open spec fn text(self) -> Seq<char> {
        cells_text(self.cells)
    }

    /// The text of the columns from `from` up to `to`, as far as the line
    /// has them.
    pub open spec fn text_between(self, from: int, to: int) -> Seq<char> {
        let len = self.cells.len() as int;
        let lo = if from < 0 {
            0
        } else if from > len {
            len
        } else {
            from
        };
        let hi = if to < lo {
            lo
        } else if to > len {
            len
        } else {
            to
        };
        cells_text(self.cells.subrange(lo, hi))
    }

    /// The hyperlink that the cell in column `x` belongs to, if the line
    /// has that column and the cell is linked.
    pub open spec fn hyperlink_at(self, x: int) -> Option<HyperlinkId> {
        if 0 <= x < self.cells.len() {
            self.cells[x].attrs.hyperlink
        } else {
            None
        }
    }

    /// The same cells with the dirty flag set to `dirty`.
    pub open spec fn with_dirty(self, dirty: bool) -> LineView {
        LineView { dirty, ..self }
    }

    /// The line after `cell` was written at column `x`: a line that is too
    /// short is first extended with blank cells up to that column.
    pub open spec fn set_cell(self, x: int, cell: CellView) -> LineView {
        let padded = if x >= self.cells.len() {
            self.cells + blanks((x + 1 - self.cells.len()) as nat)
        } else {
            self.cells
        };
        LineView { cells: padded.update(x, cell), dirty: true }
    }

    /// The line after the columns from `start` up to `end` were blanked, as
    /// far as the line has them.
    pub open spec fn clear(self, start: int, end: int) -> LineView {
        LineView {
            cells: Seq::new(
                self.cells.len(),
                |i: int|
                    if start <= i < end {
                        CellView::blank()
                    } else {
                        self.cells[i]
                    },
            ),
            dirty: true,
        }
    }

    /// How many cells an insertion or deletion of `n` cells at column `x`
    /// moves: `n`, but no more than the line has from `x` on.
    pub open spec fn span(self, x: int, n: int) -> int {
        if x >= self.cells.len() {
            0
        } else if n > self.cells.len() - x {
            self.cells.len() - x
        } else {
            n
        }
    }

    /// The line after `n` blank cells were inserted at column `x`: the
    /// cells from `x` on move right, and those pushed past the end are lost.
    pub open spec fn insert_blanks(self, x: int, n: int) -> LineView {
        let k = self.span(x, n);
        let len = self.cells.len() as int;
        LineView {
            cells: Seq::new(
                self.cells.len(),
                |i: int|
                    if i < x {
                        self.cells[i]
                    } else if i < x + k {
                        CellView::blank()
                    } else {
                        self.cells[i - k]
                    },
            ),
            dirty: true,
        }
    }

    /// The line after `n` cells were deleted at column `x`: the cells
    /// behind them move left, and blank cells fill the end.
    pub open spec fn delete_cells(self, x: int, n: int) -> LineView {
        let k = self.span(x, n);
        let len = self.cells.len() as int;
        LineView {
            cells: Seq::new(
                self.cells.len(),
                |i: int|
                    if i < x {
                        self.cells[i]
                    } else if i < len - k {
                        self.cells[i + k]
                    } else {
                        CellView::blank()
                    },
            ),
            dirty: true,
        }
    }
}

/// A row of the grid.
#[derive(Debug, Clone, Eq, PartialEq)]
pub struct Line {
    pub cells: Vec<Cell>,
    dirty: bool,
}

impl View for Line {
    type V = LineView;

    closed spec fn view(&self) -> LineView {
        LineView { cells: cells_view(self.cells@), dirty: self.dirty }
    }
}

impl Line {
    /// Create a line of `cols` blank cells.
    pub fn new(cols: usize) -> (line: Line)
        ensures
            line@ == LineView::blank(cols as nat),
    {
        let mut cells: Vec<Cell> = Vec::with_capacity(cols);
        let mut i: usize = 0;
        while i < cols
            invariant
                i <= cols,
                cells@.len() == i,
                forall|j: int| 0 <= j < i ==> cells@[j]@ == CellView::blank(),
            decreases cols - i,
        {
            cells.push(Cell::default());
            i += 1;
        }
        assert(cells_view(cells@) =~= blanks(cols as nat));
        Line { cells, dirty: true }
    }

    /// The text of the cells from `lo` up to `hi`.
    fn text_of(&self, lo: usize, hi: usize) -> (s: String)
        requires
            lo <= hi <= self@.cells.len(),
        ensures
            s@ == cells_text(self@.cells.subrange(lo as int, hi as int)),
    {
        let mut s = String::new();
        let mut i: usize = lo;
        while i < hi
            invariant
                lo <= i <= hi,
                hi <= self.cells@.len(),
                s@ == cells_text(self@.cells.subrange(lo as int, i as int)),
            decreases hi - i,
        {
            let bytes = self.cells[i].chars();
            match str_from_utf8(bytes) {
                Some(text) => {
                    s.append(text);
                },
                None => {
                    proof {
                        reveal_strlit("?");
                    }
                    s.append("?");
                    assert("?"@ =~= seq!['?']);
                },
            }
            proof {
                let upto = self@.cells.subrange(lo as int, i + 1);
                assert(upto.drop_last() =~= self@.cells.subrange(lo as int, i as int));
                assert(upto.last() == self.cells@[i as int]@);
            }
            i += 1;
        }
        s
    }

    /// Recompose the line into the corresponding UTF-8 string.
    pub fn as_str(&self) -> (s: String)
        ensures
            s@ == self@.text(),
    {
        assert(self@.cells.subrange(0, self@.cells.len() as int) =~= self@.cells);
        self.text_of(0, self.cells.len())
    }

    /// Recompose the columns from `from` up to `to`, as far as the line
    /// has them, into a string.
    pub fn columns_as_str(&self, from: usize, to: usize) -> (s: String)
        ensures
            s@ == self@.text_between(from as int, to as int),
    {
        let len = self.cells.len();
        let lo = if from > len {
            len
        } else {
            from
        };
        let hi = if to < lo {
            lo
        } else if to > len {
            len
        } else {
            to
        };
        self.text_of(lo, hi)
    }

    /// The hyperlink that the cell in column `x` belongs to, if the line
    /// has that column and the cell is linked.
    pub fn hyperlink_at(&self, x: usize) -> (link: Option<HyperlinkId>)
        ensures
            link == self@.hyperlink_at(x as int),
    {
        if x < self.cells.len() {
            self.cells[x].attrs().hyperlink()
        } else {
            None
        }
    }

    /// The line that shows the grapheme clusters `parts`, one per cell, each
    /// cut to eight bytes and drawn with `attrs`.
    pub fn from_graphemes(parts: &Vec<&str>, attrs: &CellAttributes) -> (line: Line)
        ensures
            line@ == LineView::of_graphemes(Seq::new(parts@.len(), |i: int| parts@[i]@), attrs@),
    {
        let mut cells: Vec<Cell> = Vec::new();
        let mut i: usize = 0;
        while i < parts.len()
            invariant
                i <= parts.len(),
                cells@.len() == i,
                forall|j: int|
                    0 <= j < i ==> cells@[j]@ == CellView::from_grapheme(parts@[j]@, attrs@),
            decreases parts.len() - i,
        {
            let cell = Cell::from_bytes(parts[i].as_bytes(), attrs);
            cells.push(cell);
            i += 1;
        }
        assert(cells_view(cells@) =~= LineView::of_graphemes(
            Seq::new(parts@.len(), |i: int| parts@[i]@),
            attrs@,
        ).cells);
        Line { cells, dirty: true }
    }

    /// The line that shows `s`, one grapheme cluster per cell.
    pub fn from_text(s: &str, attrs: &CellAttributes) -> (line: Line)
        ensures
            line@ == LineView::of_graphemes(grapheme_clusters(s@), attrs@),
    {
        let parts = graphemes(s);
        assert(Seq::new(parts@.len(), |i: int| parts@[i]@) =~= grapheme_clusters(s@));
        Line::from_graphemes(&parts, attrs)
    }

    /// The number of cells.
    pub fn width(&self) -> (n: usize)
        ensures
            n == self@.cells.len(),
    {
        self.cells.len()
    }

    /// Whether the line changed since it was last cleaned.
    pub fn is_dirty(&self) -> (dirty: bool)
        ensures
            dirty == self@.dirty,
    {
        self.dirty
    }

    /// Mark the line as changed.
    pub fn set_dirty(&mut self)
        ensures
            final(self)@ == old(self)@.with_dirty(true),
    {
        self.dirty = true;
    }

    /// Mark the line as drawn.
    pub fn set_clean(&mut self)
        ensures
            final(self)@ == old(self)@.with_dirty(false),
    {
        self.dirty = false;
    }

    /// Write `cell` at column `x`, growing the line with blank cells if it is
    /// too short, and mark the line dirty.
    pub fn set_cell(&mut self, x: usize, cell: Cell)
        requires
            x < usize::MAX,
        ensures
            final(self)@ == old(self)@.set_cell(x as int, cell@),
    {
        while self.cells.len() <= x
            invariant
                x < usize::MAX,
                self.cells@.len() >= old(self).cells@.len(),
                self.cells@.len() <= x + 1 || self.cells@.len() == old(self).cells@.len(),
                self.cells@.subrange(0, old(self).cells@.len() as int) == old(self).cells@,
                forall|j: int|
                    old(self).cells@.len() <= j < self.cells@.len() ==> self.cells@[j]@
                        == CellView::blank(),
            decreases x + 1 - self.cells@.len(),
        {
            let ghost before = self.cells@;
            self.cells.push(Cell::default());
            assert(self.cells@.subrange(0, old(self).cells@.len() as int) =~= before.subrange(
                0,
                old(self).cells@.len() as int,
            ));
        }
        self.cells[x] = cell;
        self.dirty = true;
        proof {
            let want = old(self)@.set_cell(x as int, cell@);
            assert forall|j: int| 0 <= j < self.cells@.len() implies cells_view(self.cells@)[j]
                == want.cells[j] by {
                if j != x && j < old(self).cells@.len() {
                    assert(old(self).cells@[j] == old(self).cells@.subrange(
                        0,
                        old(self).cells@.len() as int,
                    )[j]);
                }
            }
            assert(cells_view(self.cells@) =~= want.cells);
        }
    }

    /// Blank the columns from `start` up to `end`, as far as the line has
    /// them, and mark the line dirty.
    pub fn clear(&mut self, start: usize, end: usize)
        ensures
            final(self)@ == old(self)@.clear(start as int, end as int),
    {
        let blank = Cell::default();
        let width = self.cells.len();
        let mut x: usize = start;
        while x < end && x < width
            invariant
                self.cells@.len() == width,
                width == old(self).cells@.len(),
                x >= start,
                x <= end || x == start,
                blank@ == CellView::blank(),
                forall|j: int|
                    0 <= j < width ==> self.cells@[j]@ == (if start <= j < x {
                        CellView::blank()
                    } else {
                        old(self).cells@[j]@
                    }),
            decreases width - x,
        {
            self.cells[x] = blank;
            x += 1;
        }
        self.dirty = true;
        assert(cells_view(self.cells@) =~= old(self)@.clear(start as int, end as int).cells);
    }

    /// Insert `n` blank cells at column `x`. The line keeps its width: the
    /// cells pushed past its end are dropped.
    pub fn insert_blanks(&mut self, x: usize, n: usize)
        ensures
            final(self)@ == old(self)@.insert_blanks(x as int, n as int),
    {
        let width = self.cells.len();
        if x < width {
            let k: usize = if n > width - x {
                width - x
            } else {
                n
            };
            let mut i: usize = width;
            while i > x + k
                invariant
                    x + k <= i <= width,
                    self.cells@.len() == width,
                    width == old(self).cells@.len(),
                    forall|j: int| 0 <= j < i ==> self.cells@[j] == old(self).cells@[j],
                    forall|j: int| i <= j < width ==> self.cells@[j] == old(self).cells@[j - k],
                decreases i,
            {
                i -= 1;
                let moved = self.cells[i - k];
                self.cells[i] = moved;
            }
            let blank = Cell::default();
            let mut j: usize = x;
            while j < x + k
                invariant
                    x <= j <= x + k,
                    x + k <= width,
                    self.cells@.len() == width,
                    width == old(self).cells@.len(),
                    blank@ == CellView::blank(),
                    forall|m: int| 0 <= m < x ==> self.cells@[m] == old(self).cells@[m],
                    forall|m: int| x <= m < j ==> self.cells@[m]@ == CellView::blank(),
                    forall|m: int| x + k <= m < width ==> self.cells@[m] == old(self).cells@[m - k],
                decreases x + k - j,
            {
                self.cells[j] = blank;
                j += 1;
            }
        }
        self.dirty = true;
        assert(cells_view(self.cells@) =~= old(self)@.insert_blanks(x as int, n as int).cells);
    }

    /// Delete `n` cells at column `x`. The line keeps its width: blank
    /// cells are appended in their place.
    pub fn delete_cells(&mut self, x: usize, n: usize)
        ensures
            final(self)@ == old(self)@.delete_cells(x as int, n as int),
    {
        let width = self.cells.len();
        if x < width {
            let k: usize = if n > width - x {
                width - x
            } else {
                n
            };
            let mut i: usize = x;
            while i < width - k
                invariant
                    x <= i <= width - k,
                    self.cells@.len() == width,
                    width == old(self).cells@.len(),
                    forall|j: int| 0 <= j < x ==> self.cells@[j] == old(self).cells@[j],
                    forall|j: int| x <= j < i ==> self.cells@[j] == old(self).cells@[j + k],
                    forall|j: int| i <= j < width ==> self.cells@[j] == old(self).cells@[j],
                decreases width - i,
            {
                let moved = self.cells[i + k];
                self.cells[i] = moved;
                i += 1;
            }
            let blank = Cell::default();
            let mut j: usize = width - k;
            while j < width
                invariant
                    width - k <= j <= width,
                    x <= width - k,
                    self.cells@.len() == width,
                    width == old(self).cells@.len(),
                    blank@ == CellView::blank(),
                    forall|m: int| 0 <= m < x ==> self.cells@[m] == old(self).cells@[m],
                    forall|m: int| x <= m < width - k ==> self.cells@[m] == old(self).cells@[m + k],
                    forall|m: int| width - k <= m < j ==> self.cells@[m]@ == CellView::blank(),
                decreases width - j,
            {
                self.cells[j] = blank;
                j += 1;
            }
        }
        self.dirty = true;
        assert(cells_view(self.cells@) =~= old(self)@.delete_cells(x as int, n as int).cells);
    }
}

} // verus!
