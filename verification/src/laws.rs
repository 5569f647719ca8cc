//! Laws of the terminal model: what holds of every state, stated over
//! the definitions that the functions of the library are verified against.

use vstd::prelude::*;
use vstd::utf8::*;
use crate::cell::{lemma_text_len, AttrView, CellView};
use crate::csi::{CSIAction, DecPrivateMode, DisplayErase, LineErase, Position};
use crate::parser::EventView;
use crate::terminal::feed;
use crate::line::{blanks, cells_text};
use crate::model::{clamp, resolve, CursorPosition, TerminalView};
use crate::screen::{dirtied, fresh_lines, ScreenView};

verus! {

/// In a well-formed terminal the shown screen has exactly as many visible
/// lines as it has rows; the primary screen keeps no more lines than its
/// rows and its scrollback allow, and the alternate screen keeps none
/// beyond its rows; the cursor is on the screen; and a wrap is pending
/// only in the last column.
pub proof fn law_well_formed(t: TerminalView)
    requires
        t.wf(),
    ensures
        t.active().visible().len() == t.rows(),
        t.screen.lines.len() <= t.screen.physical_rows + t.screen.scrollback_size,
        t.alt_screen.lines.len() == t.alt_screen.physical_rows,
        0 <= t.cursor.x < t.cols(),
        0 <= t.cursor.y < t.rows(),
        t.wrap_next ==> t.cursor.x == t.cols() - 1,
{
}

/// Marking a row dirty keeps a screen well formed and its size.
pub proof fn lemma_dirty_line_wf(s: ScreenView, y: int)
    requires
        s.wf(),
        0 <= y < s.physical_rows,
    ensures
        s.dirty_line(y).wf(),
        s.dirty_line(y).same_size(s),
        s.dirty_line(y).lines.len() == s.lines.len(),
{
}

/// Moving the cursor keeps the terminal well formed, puts the cursor where
/// the request resolves to, and leaves the pen, what is saved, the scroll
/// region and the size alone.
pub proof fn lemma_set_cursor_pos(t: TerminalView, x: Position, y: Position)
    requires
        t.wf(),
    ensures
        t.set_cursor_pos(x, y).wf(),
        t.set_cursor_pos(x, y).cursor.x == resolve(x, t.cursor.x as int, t.cols()),
        t.set_cursor_pos(x, y).cursor.y == resolve(y, t.cursor.y as int, t.rows()),
        !t.set_cursor_pos(x, y).wrap_next,
        t.set_cursor_pos(x, y).pen == t.pen,
        t.set_cursor_pos(x, y).saved_cursor == t.saved_cursor,
        t.set_cursor_pos(x, y).saved_pen == t.saved_pen,
        t.set_cursor_pos(x, y).rows() == t.rows(),
        t.set_cursor_pos(x, y).cols() == t.cols(),
        t.set_cursor_pos(x, y).region_top == t.region_top,
        t.set_cursor_pos(x, y).region_bottom == t.region_bottom,
        t.set_cursor_pos(x, y).alt_screen_is_active == t.alt_screen_is_active,
{
    reveal(TerminalView::set_cursor_pos);
    let ny = resolve(y, t.cursor.y as int, t.rows());
    lemma_dirty_line_wf(t.active(), t.cursor.y as int);
    lemma_dirty_line_wf(t.active().dirty_line(t.cursor.y as int), ny);
}

/// The terminal after the cursor requests `moves` were carried out in
/// order.
pub open spec fn move_all(t: TerminalView, moves: Seq<(Position, Position)>) -> TerminalView
    decreases moves.len(),
{
    if moves.len() == 0 {
        t
    } else {
        move_all(t, moves.drop_last()).set_cursor_pos(moves.last().0, moves.last().1)
    }
}

/// Moving the cursor about keeps the terminal well formed and leaves the
/// pen and what is saved alone.
proof fn lemma_move_all(t: TerminalView, moves: Seq<(Position, Position)>)
    requires
        t.wf(),
    ensures
        move_all(t, moves).wf(),
        move_all(t, moves).pen == t.pen,
        move_all(t, moves).saved_cursor == t.saved_cursor,
        move_all(t, moves).saved_pen == t.saved_pen,
        move_all(t, moves).rows() == t.rows(),
        move_all(t, moves).cols() == t.cols(),
    decreases moves.len(),
{
    if moves.len() > 0 {
        lemma_move_all(t, moves.drop_last());
        lemma_set_cursor_pos(move_all(t, moves.drop_last()), moves.last().0, moves.last().1);
    }
}

/// Saving the cursor, moving it about in any way and restoring it leads
/// back to the position and the pen that were saved.
pub proof fn law_save_restore(t: TerminalView, moves: Seq<(Position, Position)>)
    requires
        t.wf(),
    ensures
        move_all(t.save_cursor(), moves).restore_cursor().cursor == t.cursor,
        move_all(t.save_cursor(), moves).restore_cursor().pen == t.pen,
        move_all(t.save_cursor(), moves).restore_cursor().wf(),
{
    reveal(TerminalView::restore_cursor);
    let saved = t.save_cursor();
    lemma_move_all(saved, moves);
    let moved = move_all(saved, moves);
    let back = TerminalView { pen: moved.saved_pen, ..moved };
    lemma_set_cursor_pos(
        back,
        Position::Absolute(moved.saved_cursor.x as i64),
        Position::Absolute(moved.saved_cursor.y),
    );
}

/// After a full reset the scroll region is the whole screen, whatever it
/// was set to before.
pub proof fn law_reset_scroll_region(t: TerminalView, top: int, bottom: int)
    requires
        t.wf(),
    ensures
        t.set_scrolling_region(top, bottom).wf(),
        t.set_scrolling_region(top, bottom).esc_dispatch(Seq::empty(), 0x63).region_top == 0,
        t.set_scrolling_region(top, bottom).esc_dispatch(Seq::empty(), 0x63).region_bottom
            == t.rows(),
{
    reveal(TerminalView::set_scrolling_region);
    reveal(TerminalView::esc_dispatch);
    reveal(TerminalView::full_reset);
    reveal(TerminalView::soft_reset);
}

/// Deleting or inserting lines while the cursor is outside the scroll
/// region changes nothing.
pub proof fn law_lines_outside_region(t: TerminalView, n: i64)
    requires
        !t.cursor_in_region(),
    ensures
        t.delete_lines(n as int) == t,
        t.insert_lines(n as int) == t,
        t.apply_action(CSIAction::DeleteLines(n)) == t,
        t.apply_action(CSIAction::InsertLines(n)) == t,
{
    reveal(TerminalView::delete_lines);
    reveal(TerminalView::insert_lines);
    reveal(TerminalView::apply_action);
}

/// Scrolling up keeps a screen well formed and its size.
pub proof fn lemma_scroll_up_wf(s: ScreenView, top: int, bottom: int, n: int)
    requires
        s.wf(),
        0 <= top < bottom <= s.physical_rows,
        0 <= n <= bottom - top,
    ensures
        s.scroll_up(top, bottom, n).wf(),
        s.scroll_up(top, bottom, n).same_size(s),
{
    reveal(ScreenView::scroll_up);
}

/// Scrolling the whole screen up by `n` keeps the visible lines from the
/// `n`-th on, in order and marked dirty, and shows `n` fresh lines below
/// them. The first `n` visible lines join the scrollback, from which the
/// oldest lines are dropped where it overflows.
pub proof fn law_scroll_whole_screen(s: ScreenView, n: int)
    requires
        s.wf(),
        0 <= n <= s.physical_rows,
    ensures
        s.scroll_up(0, s.physical_rows as int, n).wf(),
        s.scroll_up(0, s.physical_rows as int, n).visible() == dirtied(
            s.visible().subrange(n, s.physical_rows as int),
        ) + fresh_lines(n as nat, s.physical_cols),
        s.scroll_up(0, s.physical_rows as int, n).scrollback() == (dirtied(s.scrollback())
            + dirtied(s.visible().subrange(0, n))).subrange(
            s.excess(s.lines.len() + n),
            s.base() + n,
        ),
{
    reveal(ScreenView::scroll_up);
    let r = s.scroll_up(0, s.physical_rows as int, n);
    let rows = s.physical_rows as int;
    let e = s.excess(s.lines.len() + n);
    assert(r.lines.len() == s.lines.len() + n - e);
    assert(r.visible() =~= dirtied(s.visible().subrange(n, rows)) + fresh_lines(
        n as nat,
        s.physical_cols,
    ));
    assert(r.scrollback() =~= (dirtied(s.scrollback()) + dirtied(
        s.visible().subrange(0, n),
    )).subrange(e, s.base() + n));
}


/// Writing a cell keeps a screen well formed and its size, and changes
/// the row written to and no other.
pub proof fn lemma_set_cell(s: ScreenView, x: int, y: int, cell: CellView)
    requires
        s.wf(),
        0 <= y < s.physical_rows,
    ensures
        s.set_cell(x, y, cell).wf(),
        s.set_cell(x, y, cell).same_size(s),
        s.set_cell(x, y, cell).lines.len() == s.lines.len(),
        s.set_cell(x, y, cell).row(y) == s.row(y).set_cell(x, cell),
        forall|r: int| 0 <= r < s.physical_rows && r != y ==> s.set_cell(x, y, cell).row(r) == s.row(r),
{
}

/// Moving the cursor changes no cell and no line count.
pub proof fn lemma_set_cursor_pos_cells(t: TerminalView, x: Position, y: Position)
    requires
        t.wf(),
    ensures
        t.set_cursor_pos(x, y).active().lines.len() == t.active().lines.len(),
        forall|r: int|
            0 <= r < t.rows() ==> t.set_cursor_pos(x, y).active().row(r).cells == t.active().row(
                r,
            ).cells,
{
    reveal(TerminalView::set_cursor_pos);
    let ny = resolve(y, t.cursor.y as int, t.rows());
    lemma_dirty_line_wf(t.active(), t.cursor.y as int);
    lemma_dirty_line_wf(t.active().dirty_line(t.cursor.y as int), ny);
}

/// Scrolling the scroll region keeps the terminal well formed and changes
/// nothing but the shown screen.
pub proof fn lemma_scroll_up(t: TerminalView, n: int)
    requires
        t.wf(),
    ensures
        t.scroll_up(n).wf(),
        t.scroll_up(n).cursor == t.cursor,
        t.scroll_up(n).pen == t.pen,
        t.scroll_up(n).rows() == t.rows(),
        t.scroll_up(n).cols() == t.cols(),
        t.scroll_up(n).region_top == t.region_top,
        t.scroll_up(n).region_bottom == t.region_bottom,
        t.scroll_up(n).alt_screen_is_active == t.alt_screen_is_active,
{
    reveal(TerminalView::scroll_up);
    lemma_scroll_up_wf(
        t.active(),
        t.region_top,
        t.region_bottom,
        clamp(n, 0, t.region_height()),
    );
}

/// A new line keeps the terminal well formed, drops a pending wrap and
/// leaves the pen alone. The cursor stays on the last row of the scroll
/// region, which scrolls, and goes down one row elsewhere, but not past
/// the last row of the screen; it goes to the first column if asked to.
pub proof fn lemma_new_line(t: TerminalView, move_to_first_column: bool)
    requires
        t.wf(),
    ensures
        t.new_line(move_to_first_column).wf(),
        !t.new_line(move_to_first_column).wrap_next,
        t.new_line(move_to_first_column).pen == t.pen,
        t.new_line(move_to_first_column).rows() == t.rows(),
        t.new_line(move_to_first_column).cols() == t.cols(),
        t.new_line(move_to_first_column).alt_screen_is_active == t.alt_screen_is_active,
        t.new_line(move_to_first_column).cursor.x == (if move_to_first_column {
            0
        } else {
            t.cursor.x
        }),
        t.new_line(move_to_first_column).cursor.y == (if t.cursor.y == t.region_bottom - 1
            || t.cursor.y == t.rows() - 1 {
            t.cursor.y
        } else {
            (t.cursor.y + 1) as i64
        }),
{
    reveal(TerminalView::new_line);
    let x = if move_to_first_column {
        Position::Absolute(0)
    } else {
        Position::Relative(0)
    };
    if t.cursor.y == t.region_bottom - 1 {
        lemma_scroll_up(t, 1);
        lemma_set_cursor_pos(t.scroll_up(1), x, Position::Relative(0));
    } else {
        lemma_set_cursor_pos(t, x, Position::Relative(1));
    }
}

/// What printing does where no wrap is pending: the cell under the
/// cursor gets the character and the pen; the cursor then advances, or, in
/// the last column, stays where it is with a wrap pending.
pub proof fn lemma_print_in_place(t: TerminalView, c: char)
    requires
        t.wf(),
        !t.wrap_next,
    ensures
        t.print(c).wf(),
        t.print(c).pen == t.pen,
        t.print(c).rows() == t.rows(),
        t.print(c).cols() == t.cols(),
        t.print(c).alt_screen_is_active == t.alt_screen_is_active,
        t.print(c).active().lines.len() == t.active().lines.len(),
        t.print(c).cursor.y == t.cursor.y,
        t.print(c).cursor.x == (if t.cursor.x + 1 < t.cols() {
            (t.cursor.x + 1) as usize
        } else {
            t.cursor.x
        }),
        t.print(c).wrap_next == (t.cursor.x + 1 >= t.cols()),
        t.print(c).active().row(t.cursor.y as int).cells == t.active().row(
            t.cursor.y as int,
        ).set_cell(t.cursor.x as int, CellView::from_char(c, t.pen)).cells,
        forall|r: int|
            0 <= r < t.rows() && r != t.cursor.y ==> t.print(c).active().row(r).cells
                == t.active().row(r).cells,
{
    reveal(TerminalView::print);
    let cell = CellView::from_char(c, t.pen);
    lemma_set_cell(t.active(), t.cursor.x as int, t.cursor.y as int, cell);
    let drawn = t.with_active(t.active().set_cell(t.cursor.x as int, t.cursor.y as int, cell));
    if t.cursor.x + 1 < t.cols() {
        lemma_set_cursor_pos(drawn, Position::Relative(1), Position::Relative(0));
        lemma_set_cursor_pos_cells(drawn, Position::Relative(1), Position::Relative(0));
    }
}

/// Writing into the last column does not wrap at once: the cursor stays
/// where it is, with a wrap pending, and only the cell under it changes.
pub proof fn law_last_column_write(t: TerminalView, c: char)
    requires
        t.wf(),
        !t.wrap_next,
        t.cursor.x == t.cols() - 1,
    ensures
        t.print(c).wf(),
        t.print(c).cursor == t.cursor,
        t.print(c).wrap_next,
        t.print(c).active() == t.active().set_cell(
            t.cursor.x as int,
            t.cursor.y as int,
            CellView::from_char(c, t.pen),
        ),
{
    reveal(TerminalView::print);
    lemma_set_cell(
        t.active(),
        t.cursor.x as int,
        t.cursor.y as int,
        CellView::from_char(c, t.pen),
    );
}

/// With a wrap pending, the next printed character first goes to the
/// start of the next line and is written there, in the first column.
pub proof fn law_pending_wrap(t: TerminalView, c: char)
    requires
        t.wf(),
        t.wrap_next,
    ensures
        t.print(c) == (TerminalView { wrap_next: false, ..t.new_line(true) }).print(c),
        t.new_line(true).cursor.x == 0,
        t.print(c).wf(),
        t.print(c).cursor.y == t.new_line(true).cursor.y,
        t.print(c).active().row(t.print(c).cursor.y as int).cells[0] == CellView::from_char(
            c,
            t.pen,
        ),
{
    reveal(TerminalView::print);
    lemma_new_line(t, true);
    let at = t.new_line(true);
    assert(at == (TerminalView { wrap_next: false, ..at }));
    lemma_print_in_place(at, c);
}

/// The characters that a terminal shows as they are: the printable part
/// of ASCII.
pub open spec fn is_printable_ascii(c: char) -> bool {
    0x20 <= c as u32 <= 0x7e
}

/// A cell that holds a printable ASCII character contributes that
/// character to the text of its line.
pub proof fn lemma_ascii_cell_text(c: char, attrs: AttrView)
    requires
        is_printable_ascii(c),
    ensures
        CellView::from_char(c, attrs).text() == seq![c],
{
    let v = c as u32;
    let cell = CellView::from_char(c, attrs);
    let encoded = encode_scalar(v);
    assert((v & 0x7F) as u8 != 0) by (bit_vector)
        requires
            0x20 <= v <= 0x7e,
    ;
    assert(encoded.len() == 1 && encoded[0] != 0);
    lemma_text_len(cell.bytes, 1);
    assert(cell.chars() =~= encoded);
    assert(encode_utf8(seq![c]) =~= encoded) by {
        assert(seq![c].drop_first() =~= Seq::<char>::empty());
        assert(encode_utf8(Seq::<char>::empty()) =~= Seq::<u8>::empty());
        assert(seq![c][0] == c);
    }
    encode_utf8_valid_utf8(seq![c]);
    encode_utf8_decode_utf8(seq![c]);
}

/// Where every cell contributes one character, the text of the cells is
/// the sequence of those characters.
pub proof fn lemma_cells_text(cells: Seq<CellView>, chars: Seq<char>)
    requires
        cells.len() == chars.len(),
        forall|i: int| 0 <= i < cells.len() ==> (#[trigger] cells[i]).text() == seq![chars[i]],
    ensures
        cells_text(cells) == chars,
    decreases cells.len(),
{
    if cells.len() == 0 {
        assert(chars =~= Seq::<char>::empty());
    } else {
        lemma_cells_text(cells.drop_last(), chars.drop_last());
        assert(chars =~= chars.drop_last() + seq![chars.last()]);
    }
}

/// The terminal after the characters `chars` were printed in order.
pub open spec fn print_all(t: TerminalView, chars: Seq<char>) -> TerminalView
    decreases chars.len(),
{
    if chars.len() == 0 {
        t
    } else {
        print_all(t, chars.drop_last()).print(chars.last())
    }
}

/// The cells of a row of `cols` blank cells after `chars` were written
/// from its start with the pen `pen`.
pub open spec fn written_row(chars: Seq<char>, pen: AttrView, cols: nat) -> Seq<CellView> {
    Seq::new(
        cols,
        |i: int|
            if i < chars.len() {
                CellView::from_char(chars[i], pen)
            } else {
                CellView::blank()
            },
    )
}

/// What printing no more characters than the screen is wide does to a
/// blank top row, from the top left corner.
proof fn lemma_print_all(t: TerminalView, chars: Seq<char>)
    requires
        t.wf(),
        t.cursor == (CursorPosition { x: 0, y: 0 }),
        !t.wrap_next,
        t.active().row(0).cells == blanks(t.cols() as nat),
        chars.len() <= t.cols(),
    ensures
        print_all(t, chars).wf(),
        print_all(t, chars).cols() == t.cols(),
        print_all(t, chars).rows() == t.rows(),
        print_all(t, chars).pen == t.pen,
        print_all(t, chars).cursor.y == 0,
        print_all(t, chars).wrap_next == (chars.len() == t.cols()),
        print_all(t, chars).cursor.x == (if chars.len() < t.cols() {
            chars.len() as int
        } else {
            t.cols() - 1
        }),
        print_all(t, chars).active().row(0).cells == written_row(chars, t.pen, t.cols() as nat),
    decreases chars.len(),
{
    if chars.len() == 0 {
        assert(written_row(chars, t.pen, t.cols() as nat) =~= blanks(t.cols() as nat));
    } else {
        let before = chars.drop_last();
        lemma_print_all(t, before);
        let at = print_all(t, before);
        lemma_print_in_place(at, chars.last());
        assert(at.active().row(0).set_cell(
            before.len() as int,
            CellView::from_char(chars.last(), t.pen),
        ).cells =~= written_row(chars, t.pen, t.cols() as nat));
    }
}

/// `n` spaces.
pub open spec fn spaces(n: nat) -> Seq<char> {
    Seq::new(n, |i: int| ' ')
}

/// Printing printable ASCII characters, no more than the screen is wide,
/// from the top left corner into a blank top row makes the text of that
/// row the characters printed, padded with spaces to the width of the
/// screen.
pub proof fn law_print_line(t: TerminalView, chars: Seq<char>)
    requires
        t.wf(),
        t.cursor == (CursorPosition { x: 0, y: 0 }),
        !t.wrap_next,
        t.active().row(0).cells == blanks(t.cols() as nat),
        chars.len() <= t.cols(),
        forall|i: int| 0 <= i < chars.len() ==> is_printable_ascii(#[trigger] chars[i]),
    ensures
        print_all(t, chars).active().row(0).text() == chars + spaces(
            (t.cols() - chars.len()) as nat,
        ),
{
    lemma_print_all(t, chars);
    let cells = written_row(chars, t.pen, t.cols() as nat);
    let text = chars + spaces((t.cols() - chars.len()) as nat);
    assert forall|i: int| 0 <= i < cells.len() implies (#[trigger] cells[i]).text() == seq![
        text[i],
    ] by {
        if i < chars.len() {
            lemma_ascii_cell_text(chars[i], t.pen);
        } else {
            lemma_ascii_cell_text(' ', AttrView::plain());
        }
    }
    lemma_cells_text(cells, text);
}


/// Scrolling down keeps a screen well formed and its size.
pub proof fn lemma_scroll_down_wf(s: ScreenView, top: int, bottom: int, n: int)
    requires
        s.wf(),
        0 <= top < bottom <= s.physical_rows,
        0 <= n <= bottom - top,
    ensures
        s.scroll_down(top, bottom, n).wf(),
        s.scroll_down(top, bottom, n).same_size(s),
{
    reveal(ScreenView::scroll_down);
}

/// Blanking rows keeps a screen well formed and its size.
pub proof fn lemma_clear_rows_wf(s: ScreenView, from: int, to: int)
    requires
        s.wf(),
    ensures
        s.clear_rows(from, to).wf(),
        s.clear_rows(from, to).same_size(s),
{
    reveal(ScreenView::clear_rows);
}

/// Scrolling the scroll region down keeps the terminal well formed.
proof fn lemma_scroll_down(t: TerminalView, n: int)
    requires
        t.wf(),
    ensures
        t.scroll_down(n).wf(),
        t.scroll_down(n).cursor == t.cursor,
        t.scroll_down(n).region_top == t.region_top,
        t.scroll_down(n).region_bottom == t.region_bottom,
{
    reveal(TerminalView::scroll_down);
    lemma_scroll_down_wf(t.active(), t.region_top, t.region_bottom, clamp(n, 0, t.region_height()));
}

/// Going up a line keeps the terminal well formed.
proof fn lemma_reverse_index_wf(t: TerminalView)
    requires
        t.wf(),
    ensures
        t.reverse_index().wf(),
{
    reveal(TerminalView::reverse_index);
    if t.cursor.y == t.region_top {
        lemma_scroll_down(t, 1);
        lemma_set_cursor_pos(t.scroll_down(1), Position::Relative(0), Position::Relative(0));
    } else {
        lemma_set_cursor_pos(t, Position::Relative(0), Position::Relative(-1i64));
    }
}

/// Printing keeps the terminal well formed.
proof fn lemma_print_wf(t: TerminalView, c: char)
    requires
        t.wf(),
    ensures
        t.print(c).wf(),
{
    if t.wrap_next {
        law_pending_wrap(t, c);
    } else {
        lemma_print_in_place(t, c);
    }
}

/// A control keeps the terminal well formed.
proof fn lemma_execute_wf(t: TerminalView, byte: u8)
    requires
        t.wf(),
    ensures
        t.execute(byte).wf(),
{
    reveal(TerminalView::execute);
    if byte == 0x0a || byte == 0x0b || byte == 0x0c {
        lemma_new_line(t, t.new_line_mode);
    } else if byte == 0x0d {
        lemma_set_cursor_pos(t, Position::Absolute(0), Position::Relative(0));
    } else if byte == 0x08 {
        lemma_set_cursor_pos(t, Position::Relative(-1i64), Position::Relative(0));
    } else if byte == 0x09 {
        lemma_set_cursor_pos(
            t,
            Position::Absolute(crate::model::next_tab_stop(t.tabs, t.cursor.x as int) as i64),
            Position::Relative(0),
        );
    }
}

/// Restoring the cursor keeps the terminal well formed.
proof fn lemma_restore_cursor_wf(t: TerminalView)
    requires
        t.wf(),
    ensures
        t.restore_cursor().wf(),
{
    reveal(TerminalView::restore_cursor);
    lemma_set_cursor_pos(
        TerminalView { pen: t.saved_pen, ..t },
        Position::Absolute(t.saved_cursor.x as i64),
        Position::Absolute(t.saved_cursor.y),
    );
}

/// The resets keep the terminal well formed.
proof fn lemma_resets_wf(t: TerminalView)
    requires
        t.wf(),
    ensures
        t.soft_reset().wf(),
        t.full_reset().wf(),
{
    reveal(TerminalView::soft_reset);
    reveal(TerminalView::full_reset);
    let s = t.soft_reset();
    lemma_clear_rows_wf(s.screen, 0, s.rows());
    lemma_clear_rows_wf(s.alt_screen, 0, s.rows());
}

/// A mode change keeps the terminal well formed.
proof fn lemma_dec_mode_wf(t: TerminalView, mode: DecPrivateMode, on: bool)
    requires
        t.wf(),
    ensures
        t.set_dec_private_mode(mode, on).wf(),
{
    reveal(TerminalView::set_dec_private_mode);
    reveal(TerminalView::enter_alt_screen);
    reveal(TerminalView::leave_alt_screen);
    lemma_clear_rows_wf(t.alt_screen, 0, t.rows());
    if t.alt_screen_is_active {
        lemma_restore_cursor_wf(TerminalView { alt_screen_is_active: false, ..t });
    }
}

/// Deleting, inserting, erasing and scrolling by a count keep the
/// terminal well formed.
proof fn lemma_line_edits_wf(t: TerminalView, n: int)
    requires
        t.wf(),
    ensures
        t.delete_lines(n).wf(),
        t.insert_lines(n).wf(),
        t.scroll_lines(n).wf(),
        t.erase_chars(n).wf(),
        t.delete_chars(n).wf(),
        t.insert_chars(n).wf(),
{
    reveal(TerminalView::delete_lines);
    reveal(TerminalView::insert_lines);
    reveal(TerminalView::scroll_lines);
    reveal(TerminalView::erase_chars);
    reveal(TerminalView::delete_chars);
    reveal(TerminalView::insert_chars);
    let cy = t.cursor.y as int;
    if t.cursor_in_region() && n > 0 {
        let count = clamp(n, 0, t.region_bottom - cy);
        lemma_scroll_up_wf(t.active(), cy, t.region_bottom, count);
        lemma_scroll_down_wf(t.active(), cy, t.region_bottom, count);
    }
    lemma_scroll_up(t, -n);
    lemma_scroll_down(t, n);
}

/// Erasing keeps the terminal well formed.
proof fn lemma_erase_wf(t: TerminalView, line: LineErase, display: DisplayErase)
    requires
        t.wf(),
    ensures
        t.erase_in_line(line).wf(),
        t.erase_in_display(display).wf(),
{
    reveal(TerminalView::erase_in_line);
    reveal(TerminalView::erase_in_display);
    let cy = t.cursor.y as int;
    lemma_clear_rows_wf(t.active(), cy, t.rows());
    lemma_clear_rows_wf(t.active(), 0, cy);
    lemma_clear_rows_wf(t.active(), 0, t.rows());
}

/// Every action of a control sequence keeps the terminal well formed.
pub proof fn lemma_apply_action_wf(t: TerminalView, action: CSIAction)
    requires
        t.wf(),
    ensures
        t.apply_action(action).wf(),
{
    reveal(TerminalView::apply_action);
    match action {
        CSIAction::SetCursorXY { x, y } => {
            lemma_set_cursor_pos(t, x, y);
        },
        CSIAction::EraseInLine(erase) => {
            lemma_erase_wf(t, erase, DisplayErase::All);
        },
        CSIAction::EraseInDisplay(erase) => {
            lemma_erase_wf(t, LineErase::All, erase);
        },
        CSIAction::SetDecPrivateMode(mode, on) => {
            lemma_dec_mode_wf(t, mode, on);
        },
        CSIAction::SetScrollingRegion { top, bottom } => {
            law_reset_scroll_region(t, top as int, bottom as int);
        },
        CSIAction::DeleteLines(n) => {
            lemma_line_edits_wf(t, n as int);
        },
        CSIAction::InsertLines(n) => {
            lemma_line_edits_wf(t, n as int);
        },
        CSIAction::RestoreCursor => {
            lemma_restore_cursor_wf(t);
        },
        CSIAction::LinePosition(row) => {
            lemma_set_cursor_pos(t, Position::Relative(0), row);
        },
        CSIAction::ScrollLines(amount) => {
            lemma_line_edits_wf(t, amount as int);
        },
        CSIAction::SoftReset => {
            lemma_resets_wf(t);
        },
        CSIAction::EraseCharacter(n) => {
            lemma_line_edits_wf(t, n as int);
        },
        CSIAction::DeleteCharacter(n) => {
            lemma_line_edits_wf(t, n as int);
        },
        CSIAction::InsertCharacter(n) => {
            lemma_line_edits_wf(t, n as int);
        },
        CSIAction::TabForward(n) => {
            lemma_set_cursor_pos(
                t,
                Position::Absolute(
                    crate::model::tab_forward(t.tabs, t.cursor.x as int, n as int) as i64,
                ),
                Position::Relative(0),
            );
        },
        CSIAction::TabBackward(n) => {
            lemma_set_cursor_pos(
                t,
                Position::Absolute(
                    crate::model::tab_backward(t.tabs, t.cursor.x as int, n as int) as i64,
                ),
                Position::Relative(0),
            );
        },
        _ => {},
    }
}

/// A run of actions keeps the terminal well formed.
proof fn lemma_apply_actions_wf(t: TerminalView, actions: Seq<CSIAction>)
    requires
        t.wf(),
    ensures
        t.apply_actions(actions).wf(),
    decreases actions.len(),
{
    if actions.len() > 0 {
        lemma_apply_actions_wf(t, actions.drop_last());
        lemma_apply_action_wf(t.apply_actions(actions.drop_last()), actions.last());
    }
}

/// Every event of the parser keeps the terminal well formed.
pub proof fn lemma_perform_wf(t: TerminalView, event: EventView)
    requires
        t.wf(),
    ensures
        t.perform(event).wf(),
{
    reveal(TerminalView::perform);
    match event {
        EventView::Print(c) => {
            lemma_print_wf(t, c);
        },
        EventView::Execute(byte) => {
            lemma_execute_wf(t, byte);
        },
        EventView::OscDispatch(fields) => {
            reveal(TerminalView::osc_dispatch);
            reveal(TerminalView::set_hyperlink);
        },
        EventView::CsiDispatch { params, intermediates, ignore, byte } => {
            reveal(TerminalView::csi_dispatch);
            lemma_apply_actions_wf(t, crate::csi::csi_actions(params, intermediates, ignore, byte));
        },
        EventView::EscDispatch { params, intermediates, ignore, byte } => {
            reveal(TerminalView::esc_dispatch);
            lemma_new_line(t, false);
            lemma_new_line(t, true);
            lemma_reverse_index_wf(t);
            lemma_restore_cursor_wf(t);
            lemma_resets_wf(t);
        },
        _ => {},
    }
}

/// A run of events keeps the terminal well formed.
proof fn lemma_perform_all_wf(t: TerminalView, events: Seq<EventView>)
    requires
        t.wf(),
    ensures
        t.perform_all(events).wf(),
    decreases events.len(),
{
    if events.len() > 0 {
        lemma_perform_all_wf(t, events.drop_last());
        lemma_perform_wf(t.perform_all(events.drop_last()), events.last());
    }
}

/// Whatever bytes a well-formed terminal is fed, whatever its parser
/// holds, it stays well formed: the visible lines are as many as the
/// rows, the stored lines no more than the scrollback allows, the cursor is
/// on the screen, and a wrap is pending only in the last column.
pub proof fn law_invariants_hold(t: TerminalView, parser: Seq<int>, bytes: Seq<u8>)
    requires
        t.wf(),
    ensures
        feed(t, parser, bytes).0.wf(),
        feed(t, parser, bytes).0.drained().wf(),
    decreases bytes.len(),
{
    if bytes.len() > 0 {
        law_invariants_hold(t, parser, bytes.drop_last());
        let before = feed(t, parser, bytes.drop_last());
        lemma_perform_all_wf(before.0, crate::parser::parser_step(before.1, bytes.last()).1);
    }
}

} // verus!
