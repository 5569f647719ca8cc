//! What the terminal does, stated over the views of its parts. The
//! functions of `TerminalState` are verified against these definitions.
//!
//! The definitions build on one another, and the larger ones are opaque so
//! that a proof about one of them does not unfold all the others: a proof
//! that needs the body of a definition reveals it by name.

use vstd::prelude::*;
use vstd::utf8::*;
use crate::cell::{AttrView, CellView};
use crate::csi::{csi_actions, CSIAction, DecPrivateMode, DisplayErase, LineErase, Position};
use crate::mouse::{HostActionView, MouseEvent, MouseState};
use crate::parser::EventView;
use crate::screen::{ScreenView, VisibleRowIndex};

verus! {

/// Describes the location of the cursor in the visible portion of the
/// screen.
#[derive(Debug, Default, Copy, Clone, Eq, PartialEq, Structural)]
pub struct CursorPosition {
    pub x: usize,
    pub y: VisibleRowIndex,
}

/// What an `AnswerBack` holds.
pub enum AnswerBackView {
    WriteToPty(Seq<u8>),
    TitleChanged(Seq<char>),
}

/// What a `Hyperlink` holds.
pub struct HyperlinkView {
    pub url: Seq<char>,
    pub id: Seq<char>,
}

/// `v`, or the nearer of `lo` and `hi` where it lies outside them.
pub open spec fn clamp(v: int, lo: int, hi: int) -> int {
    if v < lo {
        lo
    } else if v > hi {
        hi
    } else {
        v
    }
}

/// The row or column that `pos` names when the cursor is at `current`
/// and there are `limit` rows or columns: out of range requests end at the
/// nearest edge.
pub open spec fn resolve(pos: Position, current: int, limit: int) -> int {
    clamp(
        match pos {
            Position::Absolute(v) => v as int,
            Position::Relative(d) => current + d,
        },
        0,
        limit - 1,
    )
}

/// The tab stops of a fresh terminal: every eighth column, from column 0.
pub open spec fn default_tabs(cols: nat) -> Seq<bool> {
    Seq::new(cols, |i: int| i % 8 == 0)
}

/// The first tab stop at or after column `i`, or the last column.
pub open spec fn scan_right(tabs: Seq<bool>, i: int) -> int
    decreases tabs.len() - i,
{
    if i >= tabs.len() {
        tabs.len() - 1
    } else if i >= 0 && tabs[i] {
        i
    } else {
        scan_right(tabs, i + 1)
    }
}

/// The first tab stop after column `x`, or the last column.
pub open spec fn next_tab_stop(tabs: Seq<bool>, x: int) -> int {
    scan_right(tabs, x + 1)
}

/// The last tab stop at or before column `i`, or column 0.
pub open spec fn scan_left(tabs: Seq<bool>, i: int) -> int
    decreases i,
{
    if i <= 0 {
        0
    } else if i < tabs.len() && tabs[i] {
        i
    } else {
        scan_left(tabs, i - 1)
    }
}

/// The last tab stop before column `x`, or column 0.
pub open spec fn prev_tab_stop(tabs: Seq<bool>, x: int) -> int {
    scan_left(tabs, x - 1)
}

/// The column reached from `x` by going forward `n` tab stops.
pub open spec fn tab_forward(tabs: Seq<bool>, x: int, n: int) -> int
    decreases n,
{
    if n <= 0 {
        x
    } else {
        tab_forward(tabs, next_tab_stop(tabs, x), n - 1)
    }
}

/// The column reached from `x` by going back `n` tab stops.
pub open spec fn tab_backward(tabs: Seq<bool>, x: int, n: int) -> int
    decreases n,
{
    if n <= 0 {
        x
    } else {
        tab_backward(tabs, prev_tab_stop(tabs, x), n - 1)
    }
}

/// The decimal digits of `n` in ASCII, without leading zeros.
pub open spec fn decimal(n: nat) -> Seq<u8>
    decreases n,
{
    if n < 10 {
        seq![(0x30 + n) as u8]
    } else {
        decimal(n / 10) + seq![(0x30 + n % 10) as u8]
    }
}

/// The answer to a request for device attributes: `ESC [ ? 6 c`, which
/// says "VT102".
pub open spec fn device_ident() -> Seq<u8> {
    seq![0x1bu8, 0x5bu8, 0x3fu8, 0x36u8, 0x63u8]
}

/// The answer to a device status request: `ESC [ 0 n`, which says "OK".
pub open spec fn status_ok() -> Seq<u8> {
    seq![0x1bu8, 0x5bu8, 0x30u8, 0x6eu8]
}

/// The cursor position report `ESC [ row ; col R`, both counted from 1.
pub open spec fn cursor_report(row: nat, col: nat) -> Seq<u8> {
    seq![0x1bu8, 0x5bu8] + decimal(row) + seq![0x3bu8] + decimal(col) + seq![0x52u8]
}

/// The bytes `id=`, which introduce the id among the parameters of a
/// hyperlink command.
pub open spec fn id_prefix() -> Seq<u8> {
    seq![0x69u8, 0x64u8, 0x3du8]
}

/// The id that the parameter field of a hyperlink command gives: what
/// follows `id=`, or nothing where the field does not start so.
pub open spec fn link_id(params: Seq<u8>) -> Seq<u8> {
    if params.len() >= 3 && params.subrange(0, 3) == id_prefix() {
        params.subrange(3, params.len() as int)
    } else {
        Seq::empty()
    }
}

/// The first index from `i` on at which `table` holds `link`, or the
/// table's length.
pub open spec fn find_link(table: Seq<HyperlinkView>, link: HyperlinkView, i: int) -> int
    decreases table.len() - i,
{
    if i >= table.len() {
        table.len() as int
    } else if i >= 0 && table[i] == link {
        i
    } else {
        find_link(table, link, i + 1)
    }
}

/// The pen after a rendition action. A new pen keeps the hyperlink of the
/// old one: a hyperlink ends only where the application ends it.
pub open spec fn pen_after(pen: AttrView, action: CSIAction) -> AttrView {
    match action {
        CSIAction::SetPen(new_pen) => AttrView { hyperlink: pen.hyperlink, ..new_pen@ },
        CSIAction::SetForegroundColor(color) => AttrView { foreground: color, ..pen },
        CSIAction::SetBackgroundColor(color) => AttrView { background: color, ..pen },
        CSIAction::SetIntensity(level) => AttrView { intensity: level, ..pen },
        CSIAction::SetUnderline(level) => AttrView { underline: level, ..pen },
        CSIAction::SetItalic(on) => AttrView { italic: on, ..pen },
        CSIAction::SetBlink(on) => AttrView { blink: on, ..pen },
        CSIAction::SetReverse(on) => AttrView { reverse: on, ..pen },
        CSIAction::SetStrikethrough(on) => AttrView { strikethrough: on, ..pen },
        CSIAction::SetInvisible(on) => AttrView { invisible: on, ..pen },
        _ => pen,
    }
}

/// What a `TerminalState` holds.
pub struct TerminalView {
    /// The primary screen and its scrollback.
    pub screen: ScreenView,
    /// The alternate screen, without scrollback.
    pub alt_screen: ScreenView,
    pub alt_screen_is_active: bool,
    /// The attributes that the next printed character gets.
    pub pen: AttrView,
    pub cursor: CursorPosition,
    pub saved_cursor: CursorPosition,
    pub saved_pen: AttrView,
    /// The cursor sits in the last column after a write there, and the
    /// next printed character goes to the next line.
    pub wrap_next: bool,
    /// The responses not yet handed to the host.
    pub answerback: Seq<AnswerBackView>,
    /// The first row of the scroll region.
    pub region_top: int,
    /// The row after the last row of the scroll region.
    pub region_bottom: int,
    pub application_cursor_keys: bool,
    pub application_keypad: bool,
    pub bracketed_paste: bool,
    pub cursor_visible: bool,
    /// Whether a line feed also returns to the first column.
    pub new_line_mode: bool,
    /// For each column, whether a tab stop is set there.
    pub tabs: Seq<bool>,
    /// The hyperlinks that cells refer to by index.
    pub hyperlinks: Seq<HyperlinkView>,
    /// What is remembered of the pointer.
    pub mouse: MouseState,
}

impl TerminalView {
    /// The number of rows of the screens.
    pub open spec fn rows(self) -> int {
        self.screen.physical_rows as int
    }

    /// The number of columns of the screens.
    pub open spec fn cols(self) -> int {
        self.screen.physical_cols as int
    }

    /// The terminal's invariant: two well-formed screens of one size, the
    /// alternate one without scrollback; the cursor and the saved cursor
    /// on the screen; a scroll region that is not empty and lies on the
    /// screen; a pending wrap only in the last column; one tab flag for
    /// each column.
    pub open spec fn wf(self) -> bool {
        &&& self.screen.wf()
        &&& self.alt_screen.wf()
        &&& self.alt_screen.scrollback_size == 0
        &&& self.alt_screen.physical_rows == self.screen.physical_rows
        &&& self.alt_screen.physical_cols == self.screen.physical_cols
        &&& self.cursor.x < self.cols()
        &&& 0 <= self.cursor.y < self.rows()
        &&& self.saved_cursor.x < self.cols()
        &&& 0 <= self.saved_cursor.y < self.rows()
        &&& 0 <= self.region_top < self.region_bottom <= self.rows()
        &&& (self.wrap_next ==> self.cursor.x == self.cols() - 1)
        &&& self.tabs.len() == self.cols()
    }

    /// A terminal that nothing was written to.
    pub open spec fn fresh(rows: nat, cols: nat, scrollback: nat) -> TerminalView {
        TerminalView {
            screen: ScreenView::fresh(rows, cols, scrollback),
            alt_screen: ScreenView::fresh(rows, cols, 0),
            alt_screen_is_active: false,
            pen: AttrView::plain(),
            cursor: CursorPosition { x: 0, y: 0 },
            saved_cursor: CursorPosition { x: 0, y: 0 },
            saved_pen: AttrView::plain(),
            wrap_next: false,
            answerback: Seq::empty(),
            region_top: 0,
            region_bottom: rows as int,
            application_cursor_keys: false,
            application_keypad: false,
            bracketed_paste: false,
            cursor_visible: true,
            new_line_mode: true,
            tabs: default_tabs(cols),
            hyperlinks: Seq::empty(),
            mouse: MouseState::idle(),
        }
    }

    /// The screen that is shown and written to.
    pub open spec fn active(self) -> ScreenView {
        if self.alt_screen_is_active {
            self.alt_screen
        } else {
            self.screen
        }
    }

    /// The terminal with `screen` in place of the active screen.
    pub open spec fn with_active(self, screen: ScreenView) -> TerminalView {
        if self.alt_screen_is_active {
            TerminalView { alt_screen: screen, ..self }
        } else {
            TerminalView { screen, ..self }
        }
    }

    /// The terminal with the response `answer` queued.
    pub open spec fn answer(self, answer: AnswerBackView) -> TerminalView {
        TerminalView { answerback: self.answerback.push(answer), ..self }
    }

    /// The terminal with no response queued.
    pub open spec fn drained(self) -> TerminalView {
        TerminalView { answerback: Seq::empty(), ..self }
    }

    /// Move the cursor. The request is clamped to the screen, a pending
    /// wrap is dropped, and the row the cursor leaves and the row it
    /// enters are marked dirty.
    #[verifier::opaque]
    pub open spec fn set_cursor_pos(self, x: Position, y: Position) -> TerminalView {
        let nx = resolve(x, self.cursor.x as int, self.cols());
        let ny = resolve(y, self.cursor.y as int, self.rows());
        TerminalView {
            cursor: CursorPosition { x: nx as usize, y: ny as i64 },
            wrap_next: false,
            ..self.with_active(self.active().dirty_line(self.cursor.y as int).dirty_line(ny))
        }
    }

    /// The height of the scroll region.
    pub open spec fn region_height(self) -> int {
        self.region_bottom - self.region_top
    }

    /// Scroll the scroll region up by `n` lines, or by its height if that
    /// is less.
    #[verifier::opaque]
    pub open spec fn scroll_up(self, n: int) -> TerminalView {
        self.with_active(
            self.active().scroll_up(
                self.region_top,
                self.region_bottom,
                clamp(n, 0, self.region_height()),
            ),
        )
    }

    /// Scroll the scroll region down by `n` lines, or by its height if
    /// that is less.
    #[verifier::opaque]
    pub open spec fn scroll_down(self, n: int) -> TerminalView {
        self.with_active(
            self.active().scroll_down(
                self.region_top,
                self.region_bottom,
                clamp(n, 0, self.region_height()),
            ),
        )
    }

    /// Scroll the scroll region down by `amount` lines, or up if `amount`
    /// is negative.
    #[verifier::opaque]
    pub open spec fn scroll_lines(self, amount: int) -> TerminalView {
        if amount > 0 {
            self.scroll_down(amount)
        } else if amount < 0 {
            self.scroll_up(-amount)
        } else {
            self
        }
    }

    /// Go to the next line, and to its first column if
    /// `move_to_first_column`. On the last row of the scroll region the
    /// region scrolls up instead.
    #[verifier::opaque]
    pub open spec fn new_line(self, move_to_first_column: bool) -> TerminalView {
        let x = if move_to_first_column {
            Position::Absolute(0)
        } else {
            Position::Relative(0)
        };
        if self.cursor.y == self.region_bottom - 1 {
            self.scroll_up(1).set_cursor_pos(x, Position::Relative(0))
        } else {
            self.set_cursor_pos(x, Position::Relative(1))
        }
    }

    /// Go up one line. On the first row of the scroll region the region
    /// scrolls down instead.
    #[verifier::opaque]
    pub open spec fn reverse_index(self) -> TerminalView {
        if self.cursor.y == self.region_top {
            self.scroll_down(1).set_cursor_pos(Position::Relative(0), Position::Relative(0))
        } else {
            self.set_cursor_pos(Position::Relative(0), Position::Relative(-1i64))
        }
    }

    /// Draw the character `c`. A pending wrap is carried out first. The
    /// cell under the cursor gets `c` and the pen; then the cursor
    /// advances, or, in the last column, stays with a wrap pending.
    #[verifier::opaque]
    pub open spec fn print(self, c: char) -> TerminalView {
        let at = if self.wrap_next {
            self.new_line(true)
        } else {
            self
        };
        let drawn = at.with_active(
            at.active().set_cell(at.cursor.x as int, at.cursor.y as int, CellView::from_char(c, at.pen)),
        );
        if at.cursor.x + 1 < at.cols() {
            drawn.set_cursor_pos(Position::Relative(1), Position::Relative(0))
        } else {
            TerminalView { wrap_next: true, ..drawn }
        }
    }

    /// Carry out a C0 control: line feed, vertical tab and form feed go
    /// to the next line, and to its start in new line mode; carriage
    /// return goes to the start of this line, backspace one column back,
    /// tab to the next tab stop. The others do nothing.
    #[verifier::opaque]
    pub open spec fn execute(self, byte: u8) -> TerminalView {
        if byte == 0x0a || byte == 0x0b || byte == 0x0c {
            self.new_line(self.new_line_mode)
        } else if byte == 0x0d {
            self.set_cursor_pos(Position::Absolute(0), Position::Relative(0))
        } else if byte == 0x08 {
            self.set_cursor_pos(Position::Relative(-1i64), Position::Relative(0))
        } else if byte == 0x09 {
            self.set_cursor_pos(
                Position::Absolute(next_tab_stop(self.tabs, self.cursor.x as int) as i64),
                Position::Relative(0),
            )
        } else {
            self
        }
    }

    /// Remember the cursor position and the pen.
    pub open spec fn save_cursor(self) -> TerminalView {
        TerminalView { saved_cursor: self.cursor, saved_pen: self.pen, ..self }
    }

    /// Go back to the remembered cursor position and pen.
    #[verifier::opaque]
    pub open spec fn restore_cursor(self) -> TerminalView {
        TerminalView { pen: self.saved_pen, ..self }.set_cursor_pos(
            Position::Absolute(self.saved_cursor.x as i64),
            Position::Absolute(self.saved_cursor.y),
        )
    }

    /// The soft reset: plain pen without hyperlink, nothing saved, the
    /// whole screen as scroll region, all modes at their defaults: plain
    /// cursor keys and keypad, no bracketed paste, the cursor shown, line
    /// feeds that return to the first column.
    #[verifier::opaque]
    pub open spec fn soft_reset(self) -> TerminalView {
        TerminalView {
            pen: AttrView::plain(),
            saved_cursor: CursorPosition { x: 0, y: 0 },
            saved_pen: AttrView::plain(),
            region_top: 0,
            region_bottom: self.rows(),
            application_cursor_keys: false,
            application_keypad: false,
            bracketed_paste: false,
            cursor_visible: true,
            new_line_mode: true,
            ..self
        }
    }

    /// The full reset: a soft reset that also blanks the visible rows of
    /// both screens, shows the primary one, homes the cursor and puts the
    /// tab stops back.
    #[verifier::opaque]
    pub open spec fn full_reset(self) -> TerminalView {
        let s = self.soft_reset();
        TerminalView {
            screen: s.screen.clear_rows(0, s.rows()),
            alt_screen: s.alt_screen.clear_rows(0, s.rows()),
            alt_screen_is_active: false,
            cursor: CursorPosition { x: 0, y: 0 },
            wrap_next: false,
            tabs: default_tabs(s.cols() as nat),
            ..s
        }
    }

    /// Switch to the alternate screen: the cursor is saved and the
    /// alternate screen blanked. Nothing changes if it is shown already.
    #[verifier::opaque]
    pub open spec fn enter_alt_screen(self) -> TerminalView {
        if self.alt_screen_is_active {
            self
        } else {
            let s = self.save_cursor();
            TerminalView {
                alt_screen_is_active: true,
                alt_screen: s.alt_screen.clear_rows(0, s.rows()),
                ..s
            }
        }
    }

    /// Switch back to the primary screen and restore the cursor. Nothing
    /// changes if the primary screen is shown already.
    #[verifier::opaque]
    pub open spec fn leave_alt_screen(self) -> TerminalView {
        if self.alt_screen_is_active {
            TerminalView { alt_screen_is_active: false, ..self }.restore_cursor()
        } else {
            self
        }
    }

    /// Set (`on`) or reset a DEC private mode.
    #[verifier::opaque]
    pub open spec fn set_dec_private_mode(self, mode: DecPrivateMode, on: bool) -> TerminalView {
        match mode {
            DecPrivateMode::ApplicationCursorKeys => TerminalView {
                application_cursor_keys: on,
                ..self
            },
            DecPrivateMode::ShowCursor => TerminalView { cursor_visible: on, ..self },
            DecPrivateMode::BracketedPaste => TerminalView { bracketed_paste: on, ..self },
            DecPrivateMode::AlternateScreen => if on {
                self.enter_alt_screen()
            } else {
                self.leave_alt_screen()
            },
        }
    }

    /// Set the scroll region to the rows from `top` to `bottom`, both
    /// counted from 0 and included. Both are clamped to the screen, and
    /// swapped if `top` is below `bottom`.
    #[verifier::opaque]
    pub open spec fn set_scrolling_region(self, top: int, bottom: int) -> TerminalView {
        let t = clamp(top, 0, self.rows() - 1);
        let b = clamp(bottom, 0, self.rows() - 1);
        if t > b {
            TerminalView { region_top: b, region_bottom: t + 1, ..self }
        } else {
            TerminalView { region_top: t, region_bottom: b + 1, ..self }
        }
    }

    /// Whether the cursor is on a row of the scroll region.
    pub open spec fn cursor_in_region(self) -> bool {
        self.region_top <= self.cursor.y < self.region_bottom
    }

    /// Delete `n` lines at the cursor: the rows from the cursor to the
    /// end of the scroll region scroll up. Outside the scroll region, and
    /// for a count that is not positive, nothing changes.
    #[verifier::opaque]
    pub open spec fn delete_lines(self, n: int) -> TerminalView {
        if self.cursor_in_region() && n > 0 {
            self.with_active(
                self.active().scroll_up(
                    self.cursor.y as int,
                    self.region_bottom,
                    clamp(n, 0, self.region_bottom - self.cursor.y),
                ),
            )
        } else {
            self
        }
    }

    /// Insert `n` lines at the cursor: the rows from the cursor to the
    /// end of the scroll region scroll down. Outside the scroll region,
    /// and for a count that is not positive, nothing changes.
    #[verifier::opaque]
    pub open spec fn insert_lines(self, n: int) -> TerminalView {
        if self.cursor_in_region() && n > 0 {
            self.with_active(
                self.active().scroll_down(
                    self.cursor.y as int,
                    self.region_bottom,
                    clamp(n, 0, self.region_bottom - self.cursor.y),
                ),
            )
        } else {
            self
        }
    }

    /// Blank the cursor's row from the cursor to its end, from its start up
    /// to the cursor, or all of it.
    #[verifier::opaque]
    pub open spec fn erase_in_line(self, erase: LineErase) -> TerminalView {
        let cx = self.cursor.x as int;
        let cy = self.cursor.y as int;
        match erase {
            LineErase::ToRight => self.with_active(self.active().clear_line(cy, cx, self.cols())),
            LineErase::ToLeft => self.with_active(self.active().clear_line(cy, 0, cx)),
            LineErase::All => self.with_active(self.active().clear_line(cy, 0, self.cols())),
        }
    }

    /// Blank the rows from the cursor's row down, the rows above it, or all
    /// rows. The scrollback is never erased.
    #[verifier::opaque]
    pub open spec fn erase_in_display(self, erase: DisplayErase) -> TerminalView {
        let cy = self.cursor.y as int;
        match erase {
            DisplayErase::Below => self.with_active(self.active().clear_rows(cy, self.rows())),
            DisplayErase::Above => self.with_active(self.active().clear_rows(0, cy)),
            DisplayErase::All => self.with_active(self.active().clear_rows(0, self.rows())),
            DisplayErase::SavedLines => self,
        }
    }

    /// Blank `n` cells from the cursor on, up to the width of the screen.
    /// A count that is not positive changes nothing.
    #[verifier::opaque]
    pub open spec fn erase_chars(self, n: int) -> TerminalView {
        let cx = self.cursor.x as int;
        if n > 0 {
            self.with_active(
                self.active().clear_line(self.cursor.y as int, cx, clamp(cx + n, 0, self.cols())),
            )
        } else {
            self
        }
    }

    /// Delete `n` cells at the cursor, at most as many as the screen is
    /// wide. A count that is not positive changes nothing.
    #[verifier::opaque]
    pub open spec fn delete_chars(self, n: int) -> TerminalView {
        if n > 0 {
            self.with_active(
                self.active().delete_cells(
                    self.cursor.x as int,
                    self.cursor.y as int,
                    clamp(n, 0, self.cols()),
                ),
            )
        } else {
            self
        }
    }

    /// Insert `n` blank cells at the cursor, at most as many as the
    /// screen is wide. A count that is not positive changes nothing.
    #[verifier::opaque]
    pub open spec fn insert_chars(self, n: int) -> TerminalView {
        if n > 0 {
            self.with_active(
                self.active().insert_cells(
                    self.cursor.x as int,
                    self.cursor.y as int,
                    clamp(n, 0, self.cols()),
                ),
            )
        } else {
            self
        }
    }

    /// What one decoded action of a control sequence does. The actions
    /// that are not listed change the pen.
    #[verifier::opaque]
    pub open spec fn apply_action(self, action: CSIAction) -> TerminalView {
        let cx = self.cursor.x as int;
        let cy = self.cursor.y as int;
        match action {
            CSIAction::SetCursorXY { x, y } => self.set_cursor_pos(x, y),
            CSIAction::EraseInLine(erase) => self.erase_in_line(erase),
            CSIAction::EraseInDisplay(erase) => self.erase_in_display(erase),
            CSIAction::SetDecPrivateMode(mode, on) => self.set_dec_private_mode(mode, on),
            CSIAction::DeviceStatusReport => self.answer(AnswerBackView::WriteToPty(status_ok())),
            CSIAction::ReportCursorPosition => self.answer(
                AnswerBackView::WriteToPty(cursor_report((cy + 1) as nat, (cx + 1) as nat)),
            ),
            CSIAction::SetScrollingRegion { top, bottom } => self.set_scrolling_region(
                top as int,
                bottom as int,
            ),
            CSIAction::RequestDeviceAttributes => self.answer(
                AnswerBackView::WriteToPty(device_ident()),
            ),
            CSIAction::DeleteLines(n) => self.delete_lines(n as int),
            CSIAction::InsertLines(n) => self.insert_lines(n as int),
            CSIAction::SaveCursor => self.save_cursor(),
            CSIAction::RestoreCursor => self.restore_cursor(),
            CSIAction::LinePosition(row) => self.set_cursor_pos(Position::Relative(0), row),
            CSIAction::ScrollLines(amount) => self.scroll_lines(amount as int),
            CSIAction::SoftReset => self.soft_reset(),
            CSIAction::EraseCharacter(n) => self.erase_chars(n as int),
            CSIAction::DeleteCharacter(n) => self.delete_chars(n as int),
            CSIAction::InsertCharacter(n) => self.insert_chars(n as int),
            CSIAction::TabForward(n) => self.set_cursor_pos(
                Position::Absolute(tab_forward(self.tabs, cx, n as int) as i64),
                Position::Relative(0),
            ),
            CSIAction::TabBackward(n) => self.set_cursor_pos(
                Position::Absolute(tab_backward(self.tabs, cx, n as int) as i64),
                Position::Relative(0),
            ),
            CSIAction::SetNewLineMode(on) => TerminalView { new_line_mode: on, ..self },
            _ => TerminalView { pen: pen_after(self.pen, action), ..self },
        }
    }

    /// What a run of decoded actions does, taken in order.
    pub open spec fn apply_actions(self, actions: Seq<CSIAction>) -> TerminalView
        decreases actions.len(),
    {
        if actions.len() == 0 {
            self
        } else {
            self.apply_actions(actions.drop_last()).apply_action(actions.last())
        }
    }

    /// What a control sequence does.
    #[verifier::opaque]
    pub open spec fn csi_dispatch(
        self,
        params: Seq<i64>,
        intermediates: Seq<u8>,
        ignore: bool,
        byte: char,
    ) -> TerminalView {
        self.apply_actions(csi_actions(params, intermediates, ignore, byte))
    }

    /// What an escape sequence does. Without intermediates: `D` goes down
    /// a line, `E` to the start of the next line, `M` up a line, `H` sets
    /// a tab stop at the cursor, `=` and `>` switch the application keypad
    /// on and off, `7` and `8` save and restore the cursor, `c` resets the
    /// terminal. All others, the character set selections among them, do
    /// nothing.
    #[verifier::opaque]
    pub open spec fn esc_dispatch(self, intermediates: Seq<u8>, byte: u8) -> TerminalView {
        if intermediates.len() != 0 {
            self
        } else if byte == 0x44 {
            self.new_line(false)
        } else if byte == 0x45 {
            self.new_line(true)
        } else if byte == 0x4d {
            self.reverse_index()
        } else if byte == 0x48 {
            TerminalView { tabs: self.tabs.update(self.cursor.x as int, true), ..self }
        } else if byte == 0x3d {
            TerminalView { application_keypad: true, ..self }
        } else if byte == 0x3e {
            TerminalView { application_keypad: false, ..self }
        } else if byte == 0x37 {
            self.save_cursor()
        } else if byte == 0x38 {
            self.restore_cursor()
        } else if byte == 0x63 {
            self.full_reset()
        } else {
            self
        }
    }

    /// Make `link` the current hyperlink: the pen refers to its entry in
    /// the table, which is added if the table does not hold it yet.
    #[verifier::opaque]
    pub open spec fn set_hyperlink(self, link: HyperlinkView) -> TerminalView {
        let at = find_link(self.hyperlinks, link, 0);
        TerminalView {
            pen: AttrView { hyperlink: Some(at as usize), ..self.pen },
            hyperlinks: if at == self.hyperlinks.len() {
                self.hyperlinks.push(link)
            } else {
                self.hyperlinks
            },
            ..self
        }
    }

    /// What an operating system command does. `0 ; title` queues a title
    /// change, if the title is UTF-8. `8 ; params ; uri` makes the link to
    /// `uri` the current hyperlink, or ends the current hyperlink where
    /// `uri` is empty. All others do nothing.
    #[verifier::opaque]
    pub open spec fn osc_dispatch(self, fields: Seq<Seq<u8>>) -> TerminalView {
        if fields.len() == 2 && fields[0] == seq![0x30u8] {
            if valid_utf8(fields[1]) {
                self.answer(AnswerBackView::TitleChanged(decode_utf8(fields[1])))
            } else {
                self
            }
        } else if fields.len() == 3 && fields[0] == seq![0x38u8] {
            if fields[2].len() == 0 {
                TerminalView { pen: AttrView { hyperlink: None, ..self.pen }, ..self }
            } else if valid_utf8(fields[2]) && valid_utf8(link_id(fields[1])) {
                self.set_hyperlink(
                    HyperlinkView { url: decode_utf8(fields[2]), id: decode_utf8(link_id(fields[1])) },
                )
            } else {
                self
            }
        } else {
            self
        }
    }

    /// What the terminal does on an event of the parser. Device control
    /// strings are not interpreted.
    #[verifier::opaque]
    pub open spec fn perform(self, event: EventView) -> TerminalView {
        match event {
            EventView::Print(c) => self.print(c),
            EventView::Execute(byte) => self.execute(byte),
            EventView::Hook { .. } => self,
            EventView::Put(_) => self,
            EventView::Unhook => self,
            EventView::OscDispatch(fields) => self.osc_dispatch(fields),
            EventView::CsiDispatch { params, intermediates, ignore, byte } => self.csi_dispatch(
                params,
                intermediates,
                ignore,
                byte,
            ),
            EventView::EscDispatch { params, intermediates, ignore, byte } => self.esc_dispatch(
                intermediates,
                byte,
            ),
        }
    }

    /// What the terminal does on a run of events, taken in order.
    pub open spec fn perform_all(self, events: Seq<EventView>) -> TerminalView
        decreases events.len(),
    {
        if events.len() == 0 {
            self
        } else {
            self.perform_all(events.drop_last()).perform(events.last())
        }
    }

    /// The terminal after its screens were resized to `rows` by `cols`.
    /// The cursor and the saved cursor are moved onto the new screen, the
    /// scroll region becomes the whole screen, a pending wrap is dropped,
    /// and new columns get the default tab stops.
    #[verifier::opaque]
    pub open spec fn resize(self, rows: nat, cols: nat) -> TerminalView {
        TerminalView {
            screen: self.screen.resize(rows, cols),
            alt_screen: self.alt_screen.resize(rows, cols),
            cursor: CursorPosition {
                x: clamp(self.cursor.x as int, 0, cols - 1) as usize,
                y: clamp(self.cursor.y as int, 0, rows - 1) as i64,
            },
            saved_cursor: CursorPosition {
                x: clamp(self.saved_cursor.x as int, 0, cols - 1) as usize,
                y: clamp(self.saved_cursor.y as int, 0, rows - 1) as i64,
            },
            wrap_next: false,
            region_top: 0,
            region_bottom: rows as int,
            tabs: Seq::new(
                cols,
                |i: int|
                    if i < self.tabs.len() {
                        self.tabs[i]
                    } else {
                        i % 8 == 0
                    },
            ),
            ..self
        }
    }

    /// The terminal after the pointer event `event`, which the host saw
    /// at the time `now` on its clock.
    pub open spec fn mouse_event(self, event: MouseEvent, now: u64) -> TerminalView {
        TerminalView { mouse: self.mouse.after(event, now), ..self }
    }

    /// What the host is asked to do on the pointer event `event`.
    pub open spec fn mouse_requests(self, event: MouseEvent) -> Seq<HostActionView> {
        self.mouse.requests(event, self.active())
    }

    /// The visible rows that are dirty, in order.
    pub open spec fn dirty_rows(self) -> Seq<int> {
        Seq::new(self.active().physical_rows, |i: int| i).filter(
            |i: int| self.active().row(i).dirty,
        )
    }
}

} // verus!
