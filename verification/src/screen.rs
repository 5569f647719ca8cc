//! A screen: the visible rows of the grid and, above them, the rows that
//! scrolled off its top.

use vstd::prelude::*;
use std::ops::Range;
use crate::cell::{Cell, CellAttributes, CellView, HyperlinkId};
use crate::line::{Line, LineView};

verus! {

/// An index into the stored lines. Index 0 is the oldest line of the
/// scrollback, if there is any.
pub type PhysRowIndex = usize;

/// An index into the visible rows. Row 0 is the first visible row. The
/// type is signed so that it does not mix with `PhysRowIndex` by accident.
pub type VisibleRowIndex = i64;

/// A cell of the visible screen by its column and row.
#[derive(Debug, Clone, Copy, PartialEq, Eq, Structural)]
pub struct SelectionCoordinate {
    pub x: usize,
    pub y: VisibleRowIndex,
}

/// The extent of a selection: the cell where it was started and the
/// cell it was dragged to, both included. Either may come first.
#[derive(Debug, Clone, Copy, PartialEq, Eq, Structural)]
pub struct SelectionRange {
    pub start: SelectionCoordinate,
    pub end: SelectionCoordinate,
}

impl SelectionRange {
    /// Whether `start` comes before `end` in reading order, or is the
    /// same cell.
    pub open spec fn in_order(self) -> bool {
        self.start.y < self.end.y || (self.start.y == self.end.y && self.start.x <= self.end.x)
    }

    /// The same extent with the earlier cell as `start`.
    pub open spec fn normalized(self) -> SelectionRange {
        if self.in_order() {
            self
        } else {
            SelectionRange { start: self.end, end: self.start }
        }
    }

    /// The same extent with the earlier cell as `start`.
    pub fn normalize(&self) -> (range: SelectionRange)
        ensures
            range == self.normalized(),
    {
        if self.start.y < self.end.y || (self.start.y == self.end.y && self.start.x
            <= self.end.x) {
            *self
        } else {
            SelectionRange { start: self.end, end: self.start }
        }
    }
}

/// The views of a run of lines.
pub open spec fn lines_view(lines: Seq<Line>) -> Seq<LineView> {
    Seq::new(lines.len(), |i: int| lines[i]@)
}

/// The same lines, each marked dirty.
pub open spec fn dirtied(lines: Seq<LineView>) -> Seq<LineView> {
    Seq::new(lines.len(), |i: int| lines[i].with_dirty(true))
}

/// `n` fresh lines of `cols` blank cells.
pub open spec fn fresh_lines(n: nat, cols: nat) -> Seq<LineView> {
    Seq::new(n, |i: int| LineView::blank(cols))
}

/// What a `Screen` holds.
pub struct ScreenView {
    /// Scrollback first, then the visible rows.
    pub lines: Seq<LineView>,
    /// How many lines of scrollback the screen may keep.
    pub scrollback_size: nat,
    /// The height of the visible part.
    pub physical_rows: nat,
    /// The width of the visible part.
    pub physical_cols: nat,
}

impl ScreenView {
    /// The dimensions a screen can have: at least one row and one column,
    /// and sizes that the index types can hold.
    pub open spec fn valid_size(rows: nat, cols: nat, scrollback: nat) -> bool {
        &&& 1 <= rows <= i64::MAX
        &&& 1 <= cols <= i64::MAX
        &&& cols <= usize::MAX
        &&& rows + scrollback <= usize::MAX
    }

    /// The screen's invariant: the last `physical_rows` lines are the
    /// visible ones, and no more lines are kept above them than the
    /// scrollback allows.
    pub open spec fn wf(self) -> bool {
        &&& Self::valid_size(self.physical_rows, self.physical_cols, self.scrollback_size)
        &&& self.physical_rows <= self.lines.len() <= self.physical_rows + self.scrollback_size
    }

    /// Whether the two screens have the same dimensions and scrollback
    /// limit.
    pub open spec fn same_size(self, other: ScreenView) -> bool {
        &&& self.physical_rows == other.physical_rows
        &&& self.physical_cols == other.physical_cols
        &&& self.scrollback_size == other.scrollback_size
    }

    /// A screen of blank lines with nothing in the scrollback.
    pub open spec fn fresh(rows: nat, cols: nat, scrollback: nat) -> ScreenView {
        ScreenView {
            lines: fresh_lines(rows, cols),
            scrollback_size: scrollback,
            physical_rows: rows,
            physical_cols: cols,
        }
    }

    /// The index of the first visible line.
    pub open spec fn base(self) -> int {
        self.lines.len() - self.physical_rows
    }

    /// The index of the visible row `row` among the stored lines.
    pub open spec fn phys_row(self, row: int) -> int {
        self.base() + row
    }

    /// The visible lines.
    pub open spec fn visible(self) -> Seq<LineView> {
        self.lines.subrange(self.base(), self.lines.len() as int)
    }

    /// The lines kept above the visible ones.
    pub open spec fn scrollback(self) -> Seq<LineView> {
        self.lines.subrange(0, self.base())
    }

    /// The screen with the visible row `y` replaced by `line`.
    pub open spec fn with_row(self, y: int, line: LineView) -> ScreenView {
        ScreenView { lines: self.lines.update(self.phys_row(y), line), ..self }
    }

    /// The visible row `y`.
    pub open spec fn row(self, y: int) -> LineView {
        self.lines[self.phys_row(y)]
    }

    /// The screen after `cell` was written at column `x` of the visible row
    /// `y`.
    pub open spec fn set_cell(self, x: int, y: int, cell: CellView) -> ScreenView {
        self.with_row(y, self.row(y).set_cell(x, cell))
    }

    /// The screen after the columns from `start` up to `end` of the visible
    /// row `y` were blanked.
    pub open spec fn clear_line(self, y: int, start: int, end: int) -> ScreenView {
        self.with_row(y, self.row(y).clear(start, end))
    }

    /// The screen after `n` blank cells were inserted at column `x` of the
    /// visible row `y`.
    pub open spec fn insert_cells(self, x: int, y: int, n: int) -> ScreenView {
        self.with_row(y, self.row(y).insert_blanks(x, n))
    }

    /// The screen after `n` cells were deleted at column `x` of the visible
    /// row `y`.
    pub open spec fn delete_cells(self, x: int, y: int, n: int) -> ScreenView {
        self.with_row(y, self.row(y).delete_cells(x, n))
    }

    /// The screen with the visible row `y` marked dirty.
    pub open spec fn dirty_line(self, y: int) -> ScreenView {
        self.with_row(y, self.row(y).with_dirty(true))
    }

    /// The screen with the visible row `y` marked clean.
    pub open spec fn clean_line(self, y: int) -> ScreenView {
        self.with_row(y, self.row(y).with_dirty(false))
    }

    /// The hyperlink that the cell in column `x` of the visible row `y`
    /// belongs to, if there is such a cell and it is linked.
    pub open spec fn hyperlink_at(self, x: int, y: int) -> Option<HyperlinkId> {
        if 0 <= y < self.physical_rows {
            self.row(y).hyperlink_at(x)
        } else {
            None
        }
    }

    /// The part of the visible row `y` that the extent `range`, with its
    /// earlier cell first, covers: on its first row from its first cell on,
    /// on its last row up to its last cell, and whole rows in between.
    pub open spec fn selected_row(self, range: SelectionRange, y: int) -> Seq<char> {
        let from = if y == range.start.y {
            range.start.x as int
        } else {
            0
        };
        let to = if y == range.end.y {
            range.end.x + 1
        } else {
            self.row(y).cells.len() as int
        };
        self.row(y).text_between(from, to)
    }

    /// What `range` covers of the visible rows from `first` to `last`,
    /// row after row with a line feed between them.
    pub open spec fn selected_rows(self, range: SelectionRange, first: int, last: int) -> Seq<char>
        decreases last - first,
    {
        if last < first {
            Seq::empty()
        } else if last == first {
            self.selected_row(range, first)
        } else {
            self.selected_rows(range, first, last - 1) + seq!['\n'] + self.selected_row(
                range,
                last,
            )
        }
    }

    /// The text that the extent `range` covers, as far as it lies on the
    /// visible screen.
    pub open spec fn selection_text(self, range: SelectionRange) -> Seq<char> {
        let r = range.normalized();
        let first = if r.start.y < 0 {
            0
        } else {
            r.start.y as int
        };
        let last = if r.end.y > self.physical_rows - 1 {
            self.physical_rows - 1
        } else {
            r.end.y as int
        };
        self.selected_rows(r, first, last)
    }

    /// The screen with the visible rows from `from` up to `to` blanked
    /// over the width of the screen.
    #[verifier::opaque]
    pub open spec fn clear_rows(self, from: int, to: int) -> ScreenView {
        ScreenView {
            lines: Seq::new(
                self.lines.len(),
                |i: int|
                    if self.phys_row(from) <= i < self.phys_row(to) {
                        self.lines[i].clear(0, self.physical_cols as int)
                    } else {
                        self.lines[i]
                    },
            ),
            ..self
        }
    }

    /// The screen with every line, scrollback included, marked clean.
    pub open spec fn cleaned(self) -> ScreenView {
        ScreenView {
            lines: Seq::new(self.lines.len(), |i: int| self.lines[i].with_dirty(false)),
            ..self
        }
    }

    /// How many of the oldest lines have to go so that `total` lines fit.
    pub open spec fn excess(self, total: int) -> int {
        if total > self.physical_rows + self.scrollback_size {
            total - (self.physical_rows + self.scrollback_size)
        } else {
            0
        }
    }

    /// The screen after the visible rows `top..bottom` scrolled up by `n`.
    ///
    /// A region that starts below the first visible row loses its first `n`
    /// lines; the others move up, dirty, and `n` fresh lines fill its end.
    /// In a region that starts at the first visible row the fresh lines are
    /// inserted at its end and nothing is lost at once: the lines above
    /// them move towards the scrollback, dirty, and only as many of the
    /// oldest lines are dropped as the scrollback cannot hold.
    #[verifier::opaque]
    pub open spec fn scroll_up(self, top: int, bottom: int, n: int) -> ScreenView {
        let pt = self.phys_row(top);
        let pb = self.phys_row(bottom);
        let len = self.lines.len() as int;
        let fresh = fresh_lines(n as nat, self.physical_cols);
        if top > 0 {
            ScreenView {
                lines: self.lines.subrange(0, pt) + dirtied(self.lines.subrange(pt + n, pb)) + fresh
                    + self.lines.subrange(pb, len),
                ..self
            }
        } else {
            let grown = dirtied(self.lines.subrange(0, pb)) + fresh + self.lines.subrange(pb, len);
            ScreenView { lines: grown.subrange(self.excess(len + n), len + n), ..self }
        }
    }

    /// The screen after the visible rows `top..bottom` scrolled down by
    /// `n`: the region loses its last `n` lines, the others move down,
    /// dirty, and `n` fresh lines fill its start.
    #[verifier::opaque]
    pub open spec fn scroll_down(self, top: int, bottom: int, n: int) -> ScreenView {
        let pt = self.phys_row(top);
        let pb = self.phys_row(bottom);
        let len = self.lines.len() as int;
        ScreenView {
            lines: self.lines.subrange(0, pt) + fresh_lines(n as nat, self.physical_cols) + dirtied(
                self.lines.subrange(pt, pb - n),
            ) + self.lines.subrange(pb, len),
            ..self
        }
    }

    /// The screen after its visible part was resized. Lines keep their
    /// width. A taller screen gets fresh lines at the bottom; on a lower
    /// one the rows at the top leave the visible part, and the oldest lines
    /// are dropped where the scrollback cannot hold them.
    #[verifier::opaque]
    pub open spec fn resize(self, rows: nat, cols: nat) -> ScreenView {
        let grown = if rows > self.physical_rows {
            self.lines + fresh_lines((rows - self.physical_rows) as nat, cols)
        } else {
            self.lines
        };
        let sized = ScreenView { lines: grown, physical_rows: rows, physical_cols: cols, ..self };
        ScreenView { lines: grown.subrange(sized.excess(grown.len() as int), grown.len() as int), ..sized }
    }
}

/// The three steps of scrolling up a region that starts below the first
/// visible row give the lines that `ScreenView::scroll_up` describes.
proof fn lemma_scroll_up_inner(
    v: ScreenView,
    top: int,
    bottom: int,
    n: int,
    marked: Seq<LineView>,
    kept: Seq<LineView>,
    got: Seq<LineView>,
)
    requires
        v.wf(),
        0 < top < bottom <= v.physical_rows,
        0 <= n <= bottom - top,
        marked == v.lines.subrange(0, v.phys_row(top) + n) + dirtied(
            v.lines.subrange(v.phys_row(top) + n, v.phys_row(bottom)),
        ) + v.lines.subrange(v.phys_row(bottom), v.lines.len() as int),
        kept == marked.subrange(0, v.phys_row(top)) + marked.subrange(
            v.phys_row(top) + n,
            marked.len() as int,
        ),
        got == kept.subrange(0, v.phys_row(bottom) - n) + fresh_lines(n as nat, v.physical_cols)
            + kept.subrange(v.phys_row(bottom) - n, kept.len() as int),
    ensures
        got == v.scroll_up(top, bottom, n).lines,
{
    reveal(ScreenView::scroll_up);
    let want = v.scroll_up(top, bottom, n).lines;
    let pt = v.phys_row(top);
    let pb = v.phys_row(bottom);
    assert(marked.len() == v.lines.len());
    assert(kept.len() == v.lines.len() - n);
    assert(got.len() == want.len());
    assert forall|j: int| 0 <= j < got.len() implies got[j] == want[j] by {
        if j < pt {
            assert(got[j] == kept[j]);
            assert(kept[j] == marked[j]);
        } else if j < pb - n {
            assert(got[j] == kept[j]);
            assert(kept[j] == marked[j + n]);
        } else if j < pb {
        } else {
            assert(got[j] == kept[j - n]);
            assert(kept[j - n] == marked[j]);
        }
    }
    assert(got =~= want);
}

/// The three steps of scrolling up a region that starts at the first
/// visible row give the lines that `ScreenView::scroll_up` describes.
proof fn lemma_scroll_up_top(
    v: ScreenView,
    bottom: int,
    n: int,
    marked: Seq<LineView>,
    kept: Seq<LineView>,
    got: Seq<LineView>,
)
    requires
        v.wf(),
        0 < bottom <= v.physical_rows,
        0 <= n <= bottom,
        marked == v.lines.subrange(0, 0) + dirtied(v.lines.subrange(0, v.phys_row(bottom)))
            + v.lines.subrange(v.phys_row(bottom), v.lines.len() as int),
        kept == marked.subrange(0, 0) + marked.subrange(
            v.excess(v.lines.len() + n),
            marked.len() as int,
        ),
        got == kept.subrange(0, v.phys_row(bottom) - v.excess(v.lines.len() + n)) + fresh_lines(
            n as nat,
            v.physical_cols,
        ) + kept.subrange(v.phys_row(bottom) - v.excess(v.lines.len() + n), kept.len() as int),
    ensures
        got == v.scroll_up(0, bottom, n).lines,
{
    reveal(ScreenView::scroll_up);
    let want = v.scroll_up(0, bottom, n).lines;
    let pb = v.phys_row(bottom);
    let e = v.excess(v.lines.len() + n);
    assert(marked.len() == v.lines.len());
    assert(kept.len() == v.lines.len() - e);
    assert(got.len() == want.len());
    assert forall|j: int| 0 <= j < got.len() implies got[j] == want[j] by {
        if j < pb - e {
            assert(got[j] == kept[j]);
            assert(kept[j] == marked[j + e]);
        } else if j < pb - e + n {
        } else {
            assert(got[j] == kept[j - n]);
            assert(kept[j - n] == marked[j - n + e]);
        }
    }
    assert(got =~= want);
}

/// Holds the model of a screen. This can either be the primary screen,
/// which includes lines of scrollback text, or the alternate screen, which
/// holds no scrollback.
#[derive(Debug, Clone)]
pub struct Screen {
    /// The last `physical_rows` lines are the visible ones; those before
    /// them scrolled off the top. Index 0 is the oldest line and the first
    /// to go when the scrollback is full.
    lines: Vec<Line>,
    /// Maximum number of lines of scrollback.
    scrollback_size: usize,
    /// Physical, visible height of the screen.
    physical_rows: usize,
    /// Physical, visible width of the screen.
    physical_cols: usize,
}

impl View for Screen {
    type V = ScreenView;

    closed spec fn view(&self) -> ScreenView {
        ScreenView {
            lines: lines_view(self.lines@),
            scrollback_size: self.scrollback_size as nat,
            physical_rows: self.physical_rows as nat,
            physical_cols: self.physical_cols as nat,
        }
    }
}

impl Screen {
    /// Create a new screen with the specified dimensions. The cells in the
    /// visible part are blank.
    pub fn new(physical_rows: usize, physical_cols: usize, scrollback_size: usize) -> (screen: Screen)
        requires
            ScreenView::valid_size(physical_rows as nat, physical_cols as nat, scrollback_size as nat),
        ensures
            screen@ == ScreenView::fresh(
                physical_rows as nat,
                physical_cols as nat,
                scrollback_size as nat,
            ),
            screen@.wf(),
    {
        let mut lines: Vec<Line> = Vec::with_capacity(physical_rows + scrollback_size);
        let mut i: usize = 0;
        while i < physical_rows
            invariant
                i <= physical_rows,
                lines@.len() == i,
                forall|j: int| 0 <= j < i ==> lines@[j]@ == LineView::blank(physical_cols as nat),
            decreases physical_rows - i,
        {
            lines.push(Line::new(physical_cols));
            i += 1;
        }
        assert(lines_view(lines@) =~= fresh_lines(physical_rows as nat, physical_cols as nat));
        Screen { lines, scrollback_size, physical_rows, physical_cols }
    }

    /// The height of the visible part.
    pub fn physical_rows(&self) -> (rows: usize)
        ensures
            rows == self@.physical_rows,
    {
        self.physical_rows
    }

    /// The width of the visible part.
    pub fn physical_cols(&self) -> (cols: usize)
        ensures
            cols == self@.physical_cols,
    {
        self.physical_cols
    }

    /// How many lines of scrollback the screen may keep.
    pub fn scrollback_size(&self) -> (size: usize)
        ensures
            size == self@.scrollback_size,
    {
        self.scrollback_size
    }

    /// Remove the `count` lines that start at `idx`.
    fn remove_lines(&mut self, idx: usize, count: usize)
        requires
            idx + count <= old(self)@.lines.len(),
        ensures
            final(self)@.lines == old(self)@.lines.subrange(0, idx as int) + old(
                self,
            )@.lines.subrange(idx + count, old(self)@.lines.len() as int),
            final(self)@.lines.len() == old(self)@.lines.len() - count,
            final(self)@.scrollback_size == old(self)@.scrollback_size,
            final(self)@.physical_rows == old(self)@.physical_rows,
            final(self)@.physical_cols == old(self)@.physical_cols,
    {
        let ghost before = self@.lines;
        let mut i: usize = 0;
        assert(before.subrange(0, idx as int) + before.subrange(idx + 0, before.len() as int)
            =~= before);
        while i < count
            invariant
                i <= count,
                idx + count <= before.len(),
                self.lines@.len() == before.len() - i,
                self.scrollback_size == old(self).scrollback_size,
                self.physical_rows == old(self).physical_rows,
                self.physical_cols == old(self).physical_cols,
                lines_view(self.lines@) == before.subrange(0, idx as int) + before.subrange(
                    idx + i,
                    before.len() as int,
                ),
            decreases count - i,
        {
            let ghost cur = self.lines@;
            self.lines.remove(idx);
            proof {
                let want = before.subrange(0, idx as int) + before.subrange(
                    idx + i + 1,
                    before.len() as int,
                );
                assert forall|j: int| 0 <= j < self.lines@.len() implies lines_view(self.lines@)[j]
                    == want[j] by {
                    if j < idx {
                        assert(self.lines@[j] == cur[j]);
                        assert(lines_view(cur)[j] == cur[j]@);
                    } else {
                        assert(self.lines@[j] == cur[j + 1]);
                        assert(lines_view(cur)[j + 1] == cur[j + 1]@);
                    }
                }
                assert(lines_view(self.lines@) =~= want);
            }
            i += 1;
        }
    }

    /// Insert `count` fresh lines at `idx`.
    fn insert_fresh_lines(&mut self, idx: usize, count: usize)
        requires
            idx <= old(self)@.lines.len(),
        ensures
            final(self)@.lines == old(self)@.lines.subrange(0, idx as int) + fresh_lines(
                count as nat,
                old(self)@.physical_cols,
            ) + old(self)@.lines.subrange(idx as int, old(self)@.lines.len() as int),
            final(self)@.lines.len() == old(self)@.lines.len() + count,
            final(self)@.scrollback_size == old(self)@.scrollback_size,
            final(self)@.physical_rows == old(self)@.physical_rows,
            final(self)@.physical_cols == old(self)@.physical_cols,
    {
        let ghost before = self@.lines;
        let ghost cols = self@.physical_cols;
        let mut i: usize = 0;
        assert(before.subrange(0, idx as int) + fresh_lines(0, cols) + before.subrange(
            idx as int,
            before.len() as int,
        ) =~= before);
        while i < count
            invariant
                i <= count,
                idx <= before.len(),
                cols == old(self)@.physical_cols,
                self.lines@.len() == before.len() + i,
                self.scrollback_size == old(self).scrollback_size,
                self.physical_rows == old(self).physical_rows,
                self.physical_cols == old(self).physical_cols,
                lines_view(self.lines@) == before.subrange(0, idx as int) + fresh_lines(
                    i as nat,
                    cols,
                ) + before.subrange(idx as int, before.len() as int),
            decreases count - i,
        {
            let ghost cur = self.lines@;
            let line = Line::new(self.physical_cols);
            self.lines.insert(idx, line);
            proof {
                let want = before.subrange(0, idx as int) + fresh_lines((i + 1) as nat, cols)
                    + before.subrange(idx as int, before.len() as int);
                assert forall|j: int| 0 <= j < self.lines@.len() implies lines_view(self.lines@)[j]
                    == want[j] by {
                    if j < idx {
                        assert(self.lines@[j] == cur[j]);
                        assert(lines_view(cur)[j] == cur[j]@);
                    } else if j == idx {
                    } else {
                        assert(self.lines@[j] == cur[j - 1]);
                        assert(lines_view(cur)[j - 1] == cur[j - 1]@);
                    }
                }
                assert(lines_view(self.lines@) =~= want);
            }
            i += 1;
        }
    }

    /// Mark the lines from `start` up to `end` dirty.
    fn dirty_lines(&mut self, start: usize, end: usize)
        requires
            start <= end <= old(self)@.lines.len(),
        ensures
            final(self)@.lines == old(self)@.lines.subrange(0, start as int) + dirtied(
                old(self)@.lines.subrange(start as int, end as int),
            ) + old(self)@.lines.subrange(end as int, old(self)@.lines.len() as int),
            final(self)@.lines.len() == old(self)@.lines.len(),
            final(self)@.scrollback_size == old(self)@.scrollback_size,
            final(self)@.physical_rows == old(self)@.physical_rows,
            final(self)@.physical_cols == old(self)@.physical_cols,
    {
        let ghost before = self@.lines;
        let mut y: usize = start;
        while y < end
            invariant
                start <= y <= end,
                end <= before.len(),
                self.lines@.len() == before.len(),
                self.scrollback_size == old(self).scrollback_size,
                self.physical_rows == old(self).physical_rows,
                self.physical_cols == old(self).physical_cols,
                forall|j: int|
                    0 <= j < before.len() ==> self.lines@[j]@ == (if start <= j < y {
                        before[j].with_dirty(true)
                    } else {
                        before[j]
                    }),
            decreases end - y,
        {
            self.lines[y].set_dirty();
            y += 1;
        }
        assert(lines_view(self.lines@) =~= before.subrange(0, start as int) + dirtied(
            before.subrange(start as int, end as int),
        ) + before.subrange(end as int, before.len() as int));
    }

    /// Resize the physical, viewable portion of the screen.
    pub fn resize(&mut self, physical_rows: usize, physical_cols: usize)
        requires
            old(self)@.wf(),
            ScreenView::valid_size(
                physical_rows as nat,
                physical_cols as nat,
                old(self)@.scrollback_size,
            ),
        ensures
            final(self)@ == old(self)@.resize(physical_rows as nat, physical_cols as nat),
            final(self)@.wf(),
            final(self)@.physical_rows == physical_rows,
            final(self)@.physical_cols == physical_cols,
            final(self)@.scrollback_size == old(self)@.scrollback_size,
    {
        proof {
            reveal(ScreenView::resize);
        }
        let capacity = physical_rows + self.scrollback_size;
        let old_rows = self.physical_rows;
        self.physical_rows = physical_rows;
        self.physical_cols = physical_cols;
        if physical_rows > old_rows {
            // Enlarging the viewable portion: add more lines at the bottom
            let at = self.lines.len();
            self.insert_fresh_lines(at, physical_rows - old_rows);
            assert(self@.lines =~= old(self)@.lines + fresh_lines(
                (physical_rows - old_rows) as nat,
                physical_cols as nat,
            ));
        }
        let ghost grown = self@.lines;
        if self.lines.len() > capacity {
            let excess = self.lines.len() - capacity;
            self.remove_lines(0, excess);
        }
        assert(self@.lines =~= grown.subrange(
            old(self)@.resize(physical_rows as nat, physical_cols as nat).excess(grown.len() as int),
            grown.len() as int,
        ));
    }

    /// Translate a visible row into an index among the stored lines. The
    /// result is invalidated by inserting or removing rows.
    pub fn phys_row(&self, row: VisibleRowIndex) -> (idx: PhysRowIndex)
        requires
            self@.wf(),
            0 <= row <= self@.physical_rows,
        ensures
            idx == self@.phys_row(row as int),
    {
        (self.lines.len() - self.physical_rows) + row as usize
    }

    /// Translate a range of visible rows into a range of indices among the
    /// stored lines. The result is invalidated by inserting or removing rows.
    pub fn phys_range(&self, range: &Range<VisibleRowIndex>) -> (phys: Range<PhysRowIndex>)
        requires
            self@.wf(),
            0 <= range.start <= self@.physical_rows,
            0 <= range.end <= self@.physical_rows,
        ensures
            phys.start == self@.phys_row(range.start as int),
            phys.end == self@.phys_row(range.end as int),
    {
        self.phys_row(range.start)..self.phys_row(range.end)
    }

    /// Sets a line dirty. The line is relative to the visible origin.
    pub fn dirty_line(&mut self, idx: VisibleRowIndex)
        requires
            old(self)@.wf(),
            0 <= idx < old(self)@.physical_rows,
        ensures
            final(self)@ == old(self)@.dirty_line(idx as int),
            final(self)@.wf(),
    {
        let line_idx = self.phys_row(idx);
        self.lines[line_idx].set_dirty();
        assert(self@.lines =~= old(self)@.dirty_line(idx as int).lines);
    }

    /// Clears the dirty flag for a line. The line is relative to the
    /// visible origin.
    pub fn clean_line(&mut self, idx: VisibleRowIndex)
        requires
            old(self)@.wf(),
            0 <= idx < old(self)@.physical_rows,
        ensures
            final(self)@ == old(self)@.clean_line(idx as int),
            final(self)@.wf(),
    {
        let line_idx = self.phys_row(idx);
        self.lines[line_idx].set_clean();
        assert(self@.lines =~= old(self)@.clean_line(idx as int).lines);
    }

    /// Clears the dirty flag of every line.
    pub fn clean_all(&mut self)
        ensures
            final(self)@ == old(self)@.cleaned(),
    {
        let ghost before = self@.lines;
        let mut y: usize = 0;
        while y < self.lines.len()
            invariant
                y <= self.lines@.len(),
                self.lines@.len() == before.len(),
                self.scrollback_size == old(self).scrollback_size,
                self.physical_rows == old(self).physical_rows,
                self.physical_cols == old(self).physical_cols,
                forall|j: int|
                    0 <= j < before.len() ==> self.lines@[j]@ == (if j < y {
                        before[j].with_dirty(false)
                    } else {
                        before[j]
                    }),
            decreases self.lines@.len() - y,
        {
            self.lines[y].set_clean();
            y += 1;
        }
        assert(self@.lines =~= old(self)@.cleaned().lines);
    }

    /// The visible lines, without the scrollback.
    pub fn visible_lines(&self) -> (lines: &[Line])
        requires
            self@.wf(),
        ensures
            lines_view(lines@) == self@.visible(),
    {
        let line_idx = self.lines.len() - self.physical_rows;
        let lines = vstd::slice::slice_subrange(self.lines.as_slice(), line_idx, self.lines.len());
        assert(lines_view(lines@) =~= self@.visible());
        lines
    }

    /// All the lines: the scrollback, then the visible ones.
    pub fn all_lines(&self) -> (lines: &[Line])
        ensures
            lines_view(lines@) == self@.lines,
    {
        self.lines.as_slice()
    }

    /// Set a cell. The coordinates are relative to the visible screen
    /// origin: 0,0 is the top left.
    pub fn set_cell(&mut self, x: usize, y: VisibleRowIndex, c: char, attr: &CellAttributes)
        requires
            old(self)@.wf(),
            0 <= y < old(self)@.physical_rows,
            x < usize::MAX,
        ensures
            final(self)@ == old(self)@.set_cell(x as int, y as int, CellView::from_char(c, attr@)),
            final(self)@.wf(),
    {
        let line_idx = self.phys_row(y);
        self.lines[line_idx].set_cell(x, Cell::from_char(c, attr));
        assert(self@.lines =~= old(self)@.set_cell(
            x as int,
            y as int,
            CellView::from_char(c, attr@),
        ).lines);
    }

    /// Blank the columns `cols` of the visible row `y`, as far as the line
    /// has them.
    pub fn clear_line(&mut self, y: VisibleRowIndex, cols: Range<usize>)
        requires
            old(self)@.wf(),
            0 <= y < old(self)@.physical_rows,
        ensures
            final(self)@ == old(self)@.clear_line(y as int, cols.start as int, cols.end as int),
            final(self)@.wf(),
    {
        let line_idx = self.phys_row(y);
        self.lines[line_idx].clear(cols.start, cols.end);
        assert(self@.lines =~= old(self)@.clear_line(
            y as int,
            cols.start as int,
            cols.end as int,
        ).lines);
    }

    /// The hyperlink that the cell in column `x` of the visible row `y`
    /// belongs to, if there is such a cell and it is linked.
    pub fn hyperlink_at(&self, x: usize, y: VisibleRowIndex) -> (link: Option<HyperlinkId>)
        requires
            self@.wf(),
        ensures
            link == self@.hyperlink_at(x as int, y as int),
    {
        if 0 <= y && y < self.physical_rows as i64 {
            let line_idx = self.phys_row(y);
            self.lines[line_idx].hyperlink_at(x)
        } else {
            None
        }
    }

    /// The part of the visible row `y` that `range`, with its earlier
    /// cell first, covers.
    fn selected_row(&self, range: &SelectionRange, y: VisibleRowIndex) -> (text: String)
        requires
            self@.wf(),
            0 <= y < self@.physical_rows,
        ensures
            text@ == self@.selected_row(*range, y as int),
    {
        let line_idx = self.phys_row(y);
        let line = &self.lines[line_idx];
        let width = line.width();
        let from = if y == range.start.y {
            range.start.x
        } else {
            0
        };
        let to = if y == range.end.y {
            if range.end.x < width {
                range.end.x + 1
            } else {
                width
            }
        } else {
            width
        };
        line.columns_as_str(from, to)
    }

    /// The text that the extent `range` covers, as far as it lies on the
    /// visible screen: row after row, with a line feed between them.
    pub fn selection_text(&self, range: &SelectionRange) -> (text: String)
        requires
            self@.wf(),
        ensures
            text@ == self@.selection_text(*range),
    {
        let r = range.normalize();
        let rows = self.physical_rows as i64;
        let first = if r.start.y < 0 {
            0
        } else {
            r.start.y
        };
        let last = if r.end.y > rows - 1 {
            rows - 1
        } else {
            r.end.y
        };
        let mut text = String::new();
        let mut y = first;
        while y <= last
            invariant
                self@.wf(),
                0 <= first <= y,
                last < rows,
                rows == self@.physical_rows,
                y <= last + 1 || y == first,
                text@ == self@.selected_rows(r, first as int, y - 1),
            decreases last + 1 - y,
        {
            if y > first {
                proof {
                    reveal_strlit("\n");
                }
                text.append("\n");
                assert("\n"@ =~= seq!['\n']);
            }
            let row = self.selected_row(&r, y);
            text.append(row.as_str());
            y += 1;
        }
        text
    }

    /// Blank the visible rows from `from` up to `to` over the width of
    /// the screen.
    pub fn clear_rows(&mut self, from: VisibleRowIndex, to: VisibleRowIndex)
        requires
            old(self)@.wf(),
            0 <= from <= old(self)@.physical_rows,
            0 <= to <= old(self)@.physical_rows,
        ensures
            final(self)@ == old(self)@.clear_rows(from as int, to as int),
            final(self)@.wf(),
            final(self)@.same_size(old(self)@),
    {
        proof {
            reveal(ScreenView::clear_rows);
        }
        let ghost before = self@.lines;
        let start = self.phys_row(from);
        let end = self.phys_row(to);
        let mut y: usize = start;
        while y < end
            invariant
                start <= y,
                y <= end || y == start,
                end <= before.len(),
                self.lines@.len() == before.len(),
                self.scrollback_size == old(self).scrollback_size,
                self.physical_rows == old(self).physical_rows,
                self.physical_cols == old(self).physical_cols,
                forall|j: int|
                    0 <= j < before.len() ==> self.lines@[j]@ == (if start <= j < y {
                        before[j].clear(0, self.physical_cols as int)
                    } else {
                        before[j]
                    }),
            decreases end - y,
        {
            self.lines[y].clear(0, self.physical_cols);
            y += 1;
        }
        assert(self@.lines =~= old(self)@.clear_rows(from as int, to as int).lines);
    }

    /// Insert `n` blank cells at column `x` of the visible row `y`.
    pub fn insert_cells(&mut self, x: usize, y: VisibleRowIndex, n: usize)
        requires
            old(self)@.wf(),
            0 <= y < old(self)@.physical_rows,
        ensures
            final(self)@ == old(self)@.insert_cells(x as int, y as int, n as int),
            final(self)@.wf(),
    {
        let line_idx = self.phys_row(y);
        self.lines[line_idx].insert_blanks(x, n);
        assert(self@.lines =~= old(self)@.insert_cells(x as int, y as int, n as int).lines);
    }

    /// Delete `n` cells at column `x` of the visible row `y`.
    pub fn delete_cells(&mut self, x: usize, y: VisibleRowIndex, n: usize)
        requires
            old(self)@.wf(),
            0 <= y < old(self)@.physical_rows,
        ensures
            final(self)@ == old(self)@.delete_cells(x as int, y as int, n as int),
            final(self)@.wf(),
    {
        let line_idx = self.phys_row(y);
        self.lines[line_idx].delete_cells(x, n);
        assert(self@.lines =~= old(self)@.delete_cells(x as int, y as int, n as int).lines);
    }

    /// Scroll the region up by `num_rows`: remove that many lines at its
    /// top and insert as many fresh ones at its bottom. If the top of the
    /// region is the top of the visible display, the lines are not removed
    /// but go into the scrollback, as far as it has room.
    pub fn scroll_up(&mut self, scroll_region: &Range<VisibleRowIndex>, num_rows: usize)
        requires
            old(self)@.wf(),
            0 <= scroll_region.start < scroll_region.end <= old(self)@.physical_rows,
            num_rows <= scroll_region.end - scroll_region.start,
        ensures
            final(self)@ == old(self)@.scroll_up(
                scroll_region.start as int,
                scroll_region.end as int,
                num_rows as int,
            ),
            final(self)@.wf(),
            final(self)@.same_size(old(self)@),
    {
        let phys_scroll = self.phys_range(scroll_region);
        let ghost before = self@.lines;

        // Invalidate the lines that will move before they move, so that
        // their indices are stable
        let first_moved = if scroll_region.start > 0 {
            phys_scroll.start + num_rows
        } else {
            0
        };
        self.dirty_lines(first_moved, phys_scroll.end);
        let ghost marked = self@.lines;

        // A region below the top has no scrollback to go to; at the top
        // only what the scrollback cannot hold is removed
        let (remove_idx, lines_removed) = if scroll_region.start > 0 {
            (phys_scroll.start, num_rows)
        } else {
            let room = (self.physical_rows + self.scrollback_size) - self.lines.len();
            if num_rows > room {
                (0, num_rows - room)
            } else {
                (0, 0)
            }
        };
        self.remove_lines(remove_idx, lines_removed);
        let ghost kept = self@.lines;
        self.insert_fresh_lines(phys_scroll.end - lines_removed, num_rows);

        proof {
            reveal(ScreenView::scroll_up);
            if scroll_region.start > 0 {
                lemma_scroll_up_inner(
                    old(self)@,
                    scroll_region.start as int,
                    scroll_region.end as int,
                    num_rows as int,
                    marked,
                    kept,
                    self@.lines,
                );
            } else {
                lemma_scroll_up_top(
                    old(self)@,
                    scroll_region.end as int,
                    num_rows as int,
                    marked,
                    kept,
                    self@.lines,
                );
            }
        }
    }

    /// Scroll the region down by `num_rows`: remove that many lines at its
    /// bottom and insert as many fresh ones at its top.
    pub fn scroll_down(&mut self, scroll_region: &Range<VisibleRowIndex>, num_rows: usize)
        requires
            old(self)@.wf(),
            0 <= scroll_region.start < scroll_region.end <= old(self)@.physical_rows,
            num_rows <= scroll_region.end - scroll_region.start,
        ensures
            final(self)@ == old(self)@.scroll_down(
                scroll_region.start as int,
                scroll_region.end as int,
                num_rows as int,
            ),
            final(self)@.wf(),
            final(self)@.same_size(old(self)@),
    {
        let phys_scroll = self.phys_range(scroll_region);
        let middle = phys_scroll.end - num_rows;
        self.dirty_lines(phys_scroll.start, middle);
        let ghost marked = self@.lines;
        self.remove_lines(middle, num_rows);
        let ghost kept = self@.lines;
        self.insert_fresh_lines(phys_scroll.start, num_rows);
        proof {
            reveal(ScreenView::scroll_down);
            let want = old(self)@.scroll_down(
                scroll_region.start as int,
                scroll_region.end as int,
                num_rows as int,
            ).lines;
            let got = self@.lines;
            assert(got.len() == want.len());
            assert forall|j: int| 0 <= j < got.len() implies got[j] == want[j] by {
                if j < phys_scroll.start {
                    assert(got[j] == kept[j]);
                    assert(kept[j] == marked[j]);
                } else if j < phys_scroll.start + num_rows {
                } else {
                    assert(got[j] == kept[j - num_rows]);
                    if j - num_rows < middle {
                        assert(kept[j - num_rows] == marked[j - num_rows]);
                    } else {
                        assert(kept[j - num_rows] == marked[j]);
                    }
                }
            }
            assert(got =~= want);
        }
    }
}

} // verus!
