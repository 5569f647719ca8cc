//! The terminal's state and what the parser's events do to it.

use vstd::prelude::*;
use std::ops::Range;
use crate::cell::{CellAttributes, CellView};
use crate::csi::{parse_csi, CSIAction, DecPrivateMode, DisplayErase, LineErase, Position};
use crate::line::Line;
use crate::model::{
    AnswerBackView, CursorPosition, HyperlinkView, TerminalView, clamp, cursor_report, decimal,
    default_tabs, device_ident, find_link, id_prefix, link_id, next_tab_stop, pen_after,
    prev_tab_stop,
    resolve, scan_left, scan_right, status_ok, tab_backward, tab_forward,
};
use crate::mouse::{actions_view, HostAction, MouseEvent, MouseState};
use crate::parser::{fields_view, ParserEvent};
use crate::text::str_from_utf8;
use crate::screen::{lines_view, Screen, ScreenView, VisibleRowIndex};

verus! {

/// When the terminal needs to convey a response back to the caller, this
/// enum holds that response.
#[derive(Debug, Clone, PartialEq, Eq)]
pub enum AnswerBack {
    /// Some data to send back to the application on the slave end of the
    /// pty.
    WriteToPty(Vec<u8>),
    /// The application has requested that we change the terminal title,
    /// and here it is.
    TitleChanged(String),
}

impl View for AnswerBack {
    type V = AnswerBackView;

    open spec fn view(&self) -> AnswerBackView {
        match *self {
            AnswerBack::WriteToPty(bytes) => AnswerBackView::WriteToPty(bytes@),
            AnswerBack::TitleChanged(title) => AnswerBackView::TitleChanged(title@),
        }
    }
}

/// The views of a run of responses.
pub open spec fn answers_view(answers: Seq<AnswerBack>) -> Seq<AnswerBackView> {
    Seq::new(answers.len(), |i: int| answers[i]@)
}

/// The target of a run of linked cells.
#[derive(Debug, Clone, PartialEq, Eq)]
pub struct Hyperlink {
    pub url: String,
    pub id: String,
}

impl View for Hyperlink {
    type V = HyperlinkView;

    open spec fn view(&self) -> HyperlinkView {
        HyperlinkView { url: self.url@, id: self.id@ }
    }
}

/// The views of a run of hyperlinks.
pub open spec fn links_view(links: Seq<Hyperlink>) -> Seq<HyperlinkView> {
    Seq::new(links.len(), |i: int| links[i]@)
}

/// The state of a terminal: what the parser's events are applied to.
pub struct TerminalState {
    /// The primary screen + scrollback
    screen: Screen,
    /// The alternate screen; no scrollback
    alt_screen: Screen,
    /// Tells us which screen is active
    alt_screen_is_active: bool,
    /// The current set of attributes in effect for the next attempt to
    /// print to the display
    pen: CellAttributes,
    /// The current cursor position, relative to the top left of the
    /// screen. 0-based index.
    cursor: CursorPosition,
    saved_cursor: CursorPosition,
    saved_pen: CellAttributes,
    /// If true, implicitly move to the next line on the next printed
    /// character
    wrap_next: bool,
    /// Some operations yield responses that need to be returned to the
    /// client. They are collected here.
    answerback: Vec<AnswerBack>,
    /// The scroll region
    scroll_region: Range<VisibleRowIndex>,
    /// When set, modifies the sequence of bytes sent for keys designated
    /// as cursor keys.
    application_cursor_keys: bool,
    /// When set, modifies the sequence of bytes sent for keys in the
    /// numeric keypad portion of the keyboard.
    application_keypad: bool,
    /// When set, pasting the clipboard should bracket the data with
    /// designated marker characters.
    bracketed_paste: bool,
    /// Whether the cursor is shown.
    cursor_visible: bool,
    /// Whether a line feed also returns to the first column.
    new_line_mode: bool,
    /// For each column, whether a tab stop is set there.
    tabs: Vec<bool>,
    /// The hyperlinks that the cells refer to by index.
    hyperlinks: Vec<Hyperlink>,
    /// What is remembered of the pointer.
    mouse: MouseState,
}

impl View for TerminalState {
    type V = TerminalView;

    closed spec fn view(&self) -> TerminalView {
        TerminalView {
            screen: self.screen@,
            alt_screen: self.alt_screen@,
            alt_screen_is_active: self.alt_screen_is_active,
            pen: self.pen@,
            cursor: self.cursor,
            saved_cursor: self.saved_cursor,
            saved_pen: self.saved_pen@,
            wrap_next: self.wrap_next,
            answerback: answers_view(self.answerback@),
            region_top: self.scroll_region.start as int,
            region_bottom: self.scroll_region.end as int,
            application_cursor_keys: self.application_cursor_keys,
            application_keypad: self.application_keypad,
            bracketed_paste: self.bracketed_paste,
            cursor_visible: self.cursor_visible,
            new_line_mode: self.new_line_mode,
            tabs: self.tabs@,
            hyperlinks: links_view(self.hyperlinks@),
            mouse: self.mouse,
        }
    }
}

/// Resolve a cursor request against the current position and the size
/// of the screen.
fn resolve_position(pos: &Position, current: i64, limit: i64) -> (at: i64)
    requires
        0 <= current < limit,
    ensures
        at == resolve(*pos, current as int, limit as int),
{
    let want: i128 = match pos {
        Position::Absolute(v) => *v as i128,
        Position::Relative(d) => current as i128 + *d as i128,
    };
    if want < 0 {
        0
    } else if want > (limit - 1) as i128 {
        limit - 1
    } else {
        want as i64
    }
}

/// Going forward from the last column leads nowhere else.
proof fn lemma_tab_forward_at_end(tabs: Seq<bool>, n: int)
    requires
        tabs.len() > 0,
    ensures
        tab_forward(tabs, tabs.len() - 1, n) == tabs.len() - 1,
    decreases n,
{
    if n > 0 {
        assert(next_tab_stop(tabs, tabs.len() - 1) == tabs.len() - 1);
        lemma_tab_forward_at_end(tabs, n - 1);
    }
}

/// Going back from the first column leads nowhere else.
proof fn lemma_tab_backward_at_start(tabs: Seq<bool>, n: int)
    ensures
        tab_backward(tabs, 0, n) == 0,
    decreases n,
{
    if n > 0 {
        assert(prev_tab_stop(tabs, 0) == 0);
        lemma_tab_backward_at_start(tabs, n - 1);
    }
}

/// The first tab stop after column `x`, or the last column.
pub fn find_next_tab_stop(tabs: &Vec<bool>, x: usize) -> (stop: usize)
    requires
        x < tabs@.len(),
    ensures
        stop == next_tab_stop(tabs@, x as int),
        x <= stop < tabs@.len(),
{
    let len = tabs.len();
    let mut i: usize = x + 1;
    while i < len
        invariant
            len == tabs@.len(),
            x < i <= tabs@.len(),
            scan_right(tabs@, i as int) == next_tab_stop(tabs@, x as int),
        decreases tabs@.len() - i,
    {
        if tabs[i] {
            return i;
        }
        i += 1;
    }
    tabs.len() - 1
}

/// The last tab stop before column `x`, or column 0.
pub fn find_prev_tab_stop(tabs: &Vec<bool>, x: usize) -> (stop: usize)
    requires
        x < tabs@.len(),
    ensures
        stop == prev_tab_stop(tabs@, x as int),
        stop <= x,
{
    if x == 0 {
        return 0;
    }
    let mut i: usize = x - 1;
    while i > 0
        invariant
            i < x,
            x < tabs@.len(),
            scan_left(tabs@, i as int) == prev_tab_stop(tabs@, x as int),
        decreases i,
    {
        if tabs[i] {
            return i;
        }
        i -= 1;
    }
    0
}

/// The column reached from `x` by going forward `n` tab stops.
pub fn find_tab_forward(tabs: &Vec<bool>, x: usize, n: i64) -> (stop: usize)
    requires
        x < tabs@.len(),
    ensures
        stop == tab_forward(tabs@, x as int, n as int),
        stop < tabs@.len(),
{
    let len = tabs.len();
    let mut at: usize = x;
    let mut left: i64 = n;
    while left > 0 && at < len - 1
        invariant
            len == tabs@.len(),
            at < tabs@.len(),
            tab_forward(tabs@, at as int, left as int) == tab_forward(tabs@, x as int, n as int),
        decreases left,
    {
        at = find_next_tab_stop(tabs, at);
        left -= 1;
    }
    proof {
        if left > 0 {
            lemma_tab_forward_at_end(tabs@, left as int);
        }
    }
    at
}

/// The column reached from `x` by going back `n` tab stops.
pub fn find_tab_backward(tabs: &Vec<bool>, x: usize, n: i64) -> (stop: usize)
    requires
        x < tabs@.len(),
    ensures
        stop == tab_backward(tabs@, x as int, n as int),
        stop < tabs@.len(),
{
    let mut at: usize = x;
    let mut left: i64 = n;
    while left > 0 && at > 0
        invariant
            at < tabs@.len(),
            tab_backward(tabs@, at as int, left as int) == tab_backward(tabs@, x as int, n as int),
        decreases left,
    {
        at = find_prev_tab_stop(tabs, at);
        left -= 1;
    }
    proof {
        if left > 0 {
            lemma_tab_backward_at_start(tabs@, left as int);
        }
    }
    at
}

/// Append the decimal digits of `n` to `buf`.
pub fn push_decimal(buf: &mut Vec<u8>, n: u64)
    ensures
        final(buf)@ == old(buf)@ + decimal(n as nat),
    decreases n,
{
    if n >= 10 {
        push_decimal(buf, n / 10);
    }
    let digit: u8 = 0x30 + (n % 10) as u8;
    buf.push(digit);
    assert(buf@ =~= old(buf)@ + decimal(n as nat));
}

/// The tab stops of a fresh terminal of `cols` columns.
pub fn default_tab_stops(cols: usize) -> (tabs: Vec<bool>)
    ensures
        tabs@ == default_tabs(cols as nat),
{
    let mut tabs: Vec<bool> = Vec::new();
    let mut i: usize = 0;
    while i < cols
        invariant
            i <= cols,
            tabs@.len() == i,
            forall|j: int| 0 <= j < i ==> tabs@[j] == (j % 8 == 0),
        decreases cols - i,
    {
        tabs.push(i % 8 == 0);
        i += 1;
    }
    assert(tabs@ =~= default_tabs(cols as nat));
    tabs
}

/// `v`, or the nearer of `lo` and `hi` where it lies outside them.
fn clamp_i64(v: i64, lo: i64, hi: i64) -> (r: i64)
    ensures
        r == clamp(v as int, lo as int, hi as int),
{
    if v < lo {
        lo
    } else if v > hi {
        hi
    } else {
        v
    }
}

/// A count from a control sequence as a number of cells or lines, cut
/// to `limit`.
fn count_up_to(n: i64, limit: usize) -> (k: usize)
    requires
        limit <= i64::MAX,
    ensures
        k == clamp(n as int, 0, limit as int),
{
    if n <= 0 {
        0
    } else if n >= limit as i64 {
        limit
    } else {
        n as usize
    }
}

/// Whether `link` leads to `url` under the id `id`.
fn same_link(link: &Hyperlink, url: &String, id: &String) -> (same: bool)
    ensures
        same == (link@ == HyperlinkView { url: url@, id: id@ }),
{
    let same_url = link.url == *url;
    let same_id = link.id == *id;
    assert(same_url == (link.url@ == url@));
    assert(same_id == (link.id@ == id@));
    same_url && same_id
}

/// Change the pen as a rendition action asks.
fn apply_pen_action(pen: &mut CellAttributes, action: CSIAction)
    ensures
        final(pen)@ == pen_after(old(pen)@, action),
{
    match action {
        CSIAction::SetPen(new_pen) => {
            let link = pen.hyperlink();
            *pen = new_pen;
            pen.set_hyperlink(link);
        },
        CSIAction::SetForegroundColor(color) => {
            pen.set_foreground(color);
        },
        CSIAction::SetBackgroundColor(color) => {
            pen.set_background(color);
        },
        CSIAction::SetIntensity(level) => {
            pen.set_intensity(level);
        },
        CSIAction::SetUnderline(level) => {
            pen.set_underline(level);
        },
        CSIAction::SetItalic(on) => {
            pen.set_italic(on);
        },
        CSIAction::SetBlink(on) => {
            pen.set_blink(on);
        },
        CSIAction::SetReverse(on) => {
            pen.set_reverse(on);
        },
        CSIAction::SetStrikethrough(on) => {
            pen.set_strikethrough(on);
        },
        CSIAction::SetInvisible(on) => {
            pen.set_invisible(on);
        },
        _ => {},
    }
}

impl TerminalState {
    /// The state of a terminal of `physical_rows` by `physical_cols` cells
    /// that keeps up to `scrollback_size` lines of scrollback.
    pub fn new(physical_rows: usize, physical_cols: usize, scrollback_size: usize) -> (state:
        TerminalState)
        requires
            ScreenView::valid_size(physical_rows as nat, physical_cols as nat, scrollback_size as nat),
        ensures
            state@ == TerminalView::fresh(
                physical_rows as nat,
                physical_cols as nat,
                scrollback_size as nat,
            ),
            state@.wf(),
    {
        let screen = Screen::new(physical_rows, physical_cols, scrollback_size);
        let alt_screen = Screen::new(physical_rows, physical_cols, 0);
        let tabs = default_tab_stops(physical_cols);
        let state = TerminalState {
            screen,
            alt_screen,
            alt_screen_is_active: false,
            pen: CellAttributes::default(),
            cursor: CursorPosition { x: 0, y: 0 },
            saved_cursor: CursorPosition { x: 0, y: 0 },
            saved_pen: CellAttributes::default(),
            wrap_next: false,
            answerback: Vec::new(),
            scroll_region: 0..physical_rows as VisibleRowIndex,
            application_cursor_keys: false,
            application_keypad: false,
            bracketed_paste: false,
            cursor_visible: true,
            new_line_mode: true,
            tabs,
            hyperlinks: Vec::new(),
            mouse: MouseState::new(),
        };
        proof {
            let want = TerminalView::fresh(
                physical_rows as nat,
                physical_cols as nat,
                scrollback_size as nat,
            );
            assert(state@.answerback =~= want.answerback);
            assert(state@.hyperlinks =~= want.hyperlinks);
        }
        state
    }

    /// The screen that is shown.
    pub fn screen(&self) -> (screen: &Screen)
        ensures
            screen@ == self@.active(),
    {
        if self.alt_screen_is_active {
            &self.alt_screen
        } else {
            &self.screen
        }
    }

    /// The screen that is shown, for writing.
    fn screen_mut(&mut self) -> (screen: &mut Screen)
        ensures
            screen@ == old(self)@.active(),
            final(self)@ == old(self)@.with_active(final(screen)@),
    {
        if self.alt_screen_is_active {
            &mut self.alt_screen
        } else {
            &mut self.screen
        }
    }

    /// Returns the 0-based cursor position relative to the top left of
    /// the visible screen.
    pub fn cursor_pos(&self) -> (cursor: CursorPosition)
        ensures
            cursor == self@.cursor,
    {
        self.cursor
    }

    /// Sets the cursor position. `x` and `y` are 0-based and relative to
    /// the top left of the visible screen.
    pub fn set_cursor_pos(&mut self, x: &Position, y: &Position)
        requires
            old(self)@.wf(),
        ensures
            final(self)@ == old(self)@.set_cursor_pos(*x, *y),
            final(self)@.wf(),
    {
        proof {
            reveal(TerminalView::set_cursor_pos);
        }
        let rows = self.screen().physical_rows();
        let cols = self.screen().physical_cols();
        let old_y = self.cursor.y;
        let new_x = resolve_position(x, self.cursor.x as i64, cols as i64);
        let new_y = resolve_position(y, self.cursor.y, rows as i64);
        self.cursor.x = new_x as usize;
        self.cursor.y = new_y;
        self.wrap_next = false;
        let screen = self.screen_mut();
        screen.dirty_line(old_y);
        screen.dirty_line(new_y);
    }

    /// Scroll the scroll region up by `num_rows`, or by its height if
    /// that is less.
    pub fn scroll_up(&mut self, num_rows: usize)
        requires
            old(self)@.wf(),
        ensures
            final(self)@ == old(self)@.scroll_up(num_rows as int),
            final(self)@.wf(),
    {
        proof {
            reveal(TerminalView::scroll_up);
        }
        let scroll_region = self.scroll_region.start..self.scroll_region.end;
        let height = (scroll_region.end - scroll_region.start) as usize;
        let n = if num_rows > height {
            height
        } else {
            num_rows
        };
        self.screen_mut().scroll_up(&scroll_region, n);
    }

    /// Scroll the scroll region down by `num_rows`, or by its height if
    /// that is less.
    pub fn scroll_down(&mut self, num_rows: usize)
        requires
            old(self)@.wf(),
        ensures
            final(self)@ == old(self)@.scroll_down(num_rows as int),
            final(self)@.wf(),
    {
        proof {
            reveal(TerminalView::scroll_down);
        }
        let scroll_region = self.scroll_region.start..self.scroll_region.end;
        let height = (scroll_region.end - scroll_region.start) as usize;
        let n = if num_rows > height {
            height
        } else {
            num_rows
        };
        self.screen_mut().scroll_down(&scroll_region, n);
    }

    /// Scroll the scroll region down by `amount` lines, or up if `amount`
    /// is negative.
    pub fn scroll_lines(&mut self, amount: i64)
        requires
            old(self)@.wf(),
        ensures
            final(self)@ == old(self)@.scroll_lines(amount as int),
            final(self)@.wf(),
    {
        proof {
            reveal(TerminalView::scroll_lines);
            reveal(TerminalView::scroll_up);
            reveal(TerminalView::scroll_down);
        }
        let height = (self.scroll_region.end - self.scroll_region.start) as usize;
        if amount > 0 {
            self.scroll_down(count_up_to(amount, height));
        } else if amount < 0 {
            let count = if amount <= -(height as i64) {
                height
            } else {
                (-amount) as usize
            };
            self.scroll_up(count);
        }
    }

    /// Go to the next line, scrolling the region if the cursor is on its
    /// last row.
    pub fn new_line(&mut self, move_to_first_column: bool)
        requires
            old(self)@.wf(),
        ensures
            final(self)@ == old(self)@.new_line(move_to_first_column),
            final(self)@.wf(),
    {
        proof {
            reveal(TerminalView::new_line);
        }
        let x = if move_to_first_column {
            Position::Absolute(0)
        } else {
            Position::Relative(0)
        };
        if self.cursor.y == self.scroll_region.end - 1 {
            self.scroll_up(1);
            self.set_cursor_pos(&x, &Position::Relative(0));
        } else {
            self.set_cursor_pos(&x, &Position::Relative(1));
        }
    }

    /// Move the cursor up 1 line. If the position is at the top scroll
    /// margin, scroll the region down.
    pub fn reverse_index(&mut self)
        requires
            old(self)@.wf(),
        ensures
            final(self)@ == old(self)@.reverse_index(),
            final(self)@.wf(),
    {
        proof {
            reveal(TerminalView::reverse_index);
        }
        if self.cursor.y == self.scroll_region.start {
            self.scroll_down(1);
            self.set_cursor_pos(&Position::Relative(0), &Position::Relative(0));
        } else {
            self.set_cursor_pos(&Position::Relative(0), &Position::Relative(-1));
        }
    }

    /// Queue `answer` for the host.
    fn push_answer(&mut self, answer: AnswerBack)
        ensures
            final(self)@ == old(self)@.answer(answer@),
    {
        self.answerback.push(answer);
        assert(self@.answerback =~= old(self)@.answerback.push(answer@));
    }

    /// Queue the bytes `buf` to be written to the pty.
    pub fn push_answerback(&mut self, buf: &[u8])
        ensures
            final(self)@ == old(self)@.answer(AnswerBackView::WriteToPty(buf@)),
    {
        self.push_answer(AnswerBack::WriteToPty(vstd::slice::slice_to_vec(buf)));
    }

    /// Draw a character to the screen.
    pub fn print(&mut self, c: char)
        requires
            old(self)@.wf(),
        ensures
            final(self)@ == old(self)@.print(c),
            final(self)@.wf(),
    {
        proof {
            reveal(TerminalView::print);
        }
        if self.wrap_next {
            self.new_line(true);
        }
        let last_column = self.cursor.x + 1 >= self.screen().physical_cols();
        self.draw(c);
        if last_column {
            self.set_wrap_pending();
        } else {
            self.set_cursor_pos(&Position::Relative(1), &Position::Relative(0));
        }
    }

    /// Note that the next printed character goes to the next line.
    fn set_wrap_pending(&mut self)
        requires
            old(self)@.wf(),
            old(self)@.cursor.x == old(self)@.cols() - 1,
        ensures
            final(self)@ == (TerminalView { wrap_next: true, ..old(self)@ }),
            final(self)@.wf(),
    {
        self.wrap_next = true;
    }

    /// Write `c` with the pen into the cell under the cursor.
    fn draw(&mut self, c: char)
        requires
            old(self)@.wf(),
        ensures
            final(self)@ == old(self)@.with_active(
                old(self)@.active().set_cell(
                    old(self)@.cursor.x as int,
                    old(self)@.cursor.y as int,
                    CellView::from_char(c, old(self)@.pen),
                ),
            ),
            final(self)@.wf(),
            final(self)@.cursor == old(self)@.cursor,
            final(self)@.cols() == old(self)@.cols(),
    {
        let x = self.cursor.x;
        let y = self.cursor.y;
        let pen = self.pen;
        let width = self.screen().physical_cols();
        assert(x < width);
        self.screen_mut().set_cell(x, y, c, &pen);
    }

    /// Carry out a C0 control.
    pub fn execute(&mut self, byte: u8)
        requires
            old(self)@.wf(),
        ensures
            final(self)@ == old(self)@.execute(byte),
            final(self)@.wf(),
    {
        proof {
            reveal(TerminalView::execute);
        }
        if byte == 0x0a || byte == 0x0b || byte == 0x0c {
            let to_first_column = self.new_line_mode;
            self.new_line(to_first_column);
        } else if byte == 0x0d {
            self.set_cursor_pos(&Position::Absolute(0), &Position::Relative(0));
        } else if byte == 0x08 {
            self.set_cursor_pos(&Position::Relative(-1), &Position::Relative(0));
        } else if byte == 0x09 {
            let x = find_next_tab_stop(&self.tabs, self.cursor.x);
            self.set_cursor_pos(&Position::Absolute(x as i64), &Position::Relative(0));
        }
    }

    /// Remember the cursor position and the pen.
    pub fn save_cursor(&mut self)
        ensures
            final(self)@ == old(self)@.save_cursor(),
    {
        self.saved_cursor = self.cursor;
        self.saved_pen = self.pen;
    }

    /// Go back to the remembered cursor position and pen.
    pub fn restore_cursor(&mut self)
        requires
            old(self)@.wf(),
        ensures
            final(self)@ == old(self)@.restore_cursor(),
            final(self)@.wf(),
    {
        proof {
            reveal(TerminalView::restore_cursor);
        }
        self.pen = self.saved_pen;
        let x = self.saved_cursor.x;
        let y = self.saved_cursor.y;
        self.set_cursor_pos(&Position::Absolute(x as i64), &Position::Absolute(y));
    }

    /// The soft reset.
    pub fn soft_reset(&mut self)
        requires
            old(self)@.wf(),
        ensures
            final(self)@ == old(self)@.soft_reset(),
            final(self)@.wf(),
    {
        proof {
            reveal(TerminalView::soft_reset);
        }
        let rows = self.screen.physical_rows();
        self.pen = CellAttributes::default();
        self.saved_cursor = CursorPosition { x: 0, y: 0 };
        self.saved_pen = CellAttributes::default();
        self.scroll_region = 0..rows as VisibleRowIndex;
        self.application_cursor_keys = false;
        self.application_keypad = false;
        self.bracketed_paste = false;
        self.cursor_visible = true;
        self.new_line_mode = true;
    }

    /// The full reset.
    pub fn full_reset(&mut self)
        requires
            old(self)@.wf(),
        ensures
            final(self)@ == old(self)@.full_reset(),
            final(self)@.wf(),
    {
        proof {
            reveal(TerminalView::full_reset);
            reveal(TerminalView::soft_reset);
        }
        self.soft_reset();
        let rows = self.screen.physical_rows();
        let cols = self.screen.physical_cols();
        self.screen.clear_rows(0, rows as VisibleRowIndex);
        self.alt_screen.clear_rows(0, rows as VisibleRowIndex);
        self.alt_screen_is_active = false;
        self.cursor = CursorPosition { x: 0, y: 0 };
        self.wrap_next = false;
        self.tabs = default_tab_stops(cols);
    }

    /// Show the alternate screen, blank, and save the cursor.
    fn enter_alt_screen(&mut self)
        requires
            old(self)@.wf(),
        ensures
            final(self)@ == old(self)@.enter_alt_screen(),
            final(self)@.wf(),
    {
        proof {
            reveal(TerminalView::enter_alt_screen);
        }
        if !self.alt_screen_is_active {
            self.save_cursor();
            let rows = self.screen.physical_rows();
            self.alt_screen.clear_rows(0, rows as VisibleRowIndex);
            self.alt_screen_is_active = true;
        }
    }

    /// Show the primary screen again and restore the cursor.
    fn leave_alt_screen(&mut self)
        requires
            old(self)@.wf(),
        ensures
            final(self)@ == old(self)@.leave_alt_screen(),
            final(self)@.wf(),
    {
        proof {
            reveal(TerminalView::leave_alt_screen);
        }
        if self.alt_screen_is_active {
            self.alt_screen_is_active = false;
            self.restore_cursor();
        }
    }

    /// Set or reset a DEC private mode.
    pub fn set_dec_private_mode(&mut self, mode: DecPrivateMode, on: bool)
        requires
            old(self)@.wf(),
        ensures
            final(self)@ == old(self)@.set_dec_private_mode(mode, on),
            final(self)@.wf(),
    {
        proof {
            reveal(TerminalView::set_dec_private_mode);
        }
        match mode {
            DecPrivateMode::ApplicationCursorKeys => {
                self.application_cursor_keys = on;
            },
            DecPrivateMode::ShowCursor => {
                self.cursor_visible = on;
            },
            DecPrivateMode::BracketedPaste => {
                self.bracketed_paste = on;
            },
            DecPrivateMode::AlternateScreen => {
                if on {
                    self.enter_alt_screen();
                } else {
                    self.leave_alt_screen();
                }
            },
        }
    }

    /// Set the scroll region to the rows from `top` to `bottom`, both
    /// counted from 0 and included.
    pub fn set_scrolling_region(&mut self, top: i64, bottom: i64)
        requires
            old(self)@.wf(),
        ensures
            final(self)@ == old(self)@.set_scrolling_region(top as int, bottom as int),
            final(self)@.wf(),
    {
        proof {
            reveal(TerminalView::set_scrolling_region);
        }
        let rows = self.screen.physical_rows() as i64;
        let t = clamp_i64(top, 0, rows - 1);
        let b = clamp_i64(bottom, 0, rows - 1);
        if t > b {
            self.scroll_region = b..t + 1;
        } else {
            self.scroll_region = t..b + 1;
        }
    }

    /// Delete `n` lines at the cursor, if it is in the scroll region.
    pub fn delete_lines(&mut self, n: i64)
        requires
            old(self)@.wf(),
        ensures
            final(self)@ == old(self)@.delete_lines(n as int),
            final(self)@.wf(),
    {
        proof {
            reveal(TerminalView::delete_lines);
        }
        let y = self.cursor.y;
        if self.scroll_region.start <= y && y < self.scroll_region.end && n > 0 {
            let scroll_region = y..self.scroll_region.end;
            let count = count_up_to(n, (scroll_region.end - y) as usize);
            self.screen_mut().scroll_up(&scroll_region, count);
        }
    }

    /// Insert `n` lines at the cursor, if it is in the scroll region.
    pub fn insert_lines(&mut self, n: i64)
        requires
            old(self)@.wf(),
        ensures
            final(self)@ == old(self)@.insert_lines(n as int),
            final(self)@.wf(),
    {
        proof {
            reveal(TerminalView::insert_lines);
        }
        let y = self.cursor.y;
        if self.scroll_region.start <= y && y < self.scroll_region.end && n > 0 {
            let scroll_region = y..self.scroll_region.end;
            let count = count_up_to(n, (scroll_region.end - y) as usize);
            self.screen_mut().scroll_down(&scroll_region, count);
        }
    }

    /// Erase a part of the cursor's line.
    pub fn erase_in_line(&mut self, erase: LineErase)
        requires
            old(self)@.wf(),
        ensures
            final(self)@ == old(self)@.erase_in_line(erase),
            final(self)@.wf(),
    {
        proof {
            reveal(TerminalView::erase_in_line);
        }
        let cx = self.cursor.x;
        let cy = self.cursor.y;
        let cols = self.screen().physical_cols();
        let screen = self.screen_mut();
        match erase {
            LineErase::ToRight => {
                screen.clear_line(cy, cx..cols);
            },
            LineErase::ToLeft => {
                screen.clear_line(cy, 0..cx);
            },
            LineErase::All => {
                screen.clear_line(cy, 0..cols);
            },
        }
    }

    /// Erase a part of the display.
    pub fn erase_in_display(&mut self, erase: DisplayErase)
        requires
            old(self)@.wf(),
        ensures
            final(self)@ == old(self)@.erase_in_display(erase),
            final(self)@.wf(),
    {
        proof {
            reveal(TerminalView::erase_in_display);
        }
        let cy = self.cursor.y;
        let rows = self.screen().physical_rows() as VisibleRowIndex;
        match erase {
            DisplayErase::Below => {
                self.screen_mut().clear_rows(cy, rows);
            },
            DisplayErase::Above => {
                self.screen_mut().clear_rows(0, cy);
            },
            DisplayErase::All => {
                self.screen_mut().clear_rows(0, rows);
            },
            DisplayErase::SavedLines => {},
        }
    }

    /// Queue the report of the cursor position.
    fn report_cursor_position(&mut self)
        requires
            old(self)@.wf(),
        ensures
            final(self)@ == old(self)@.answer(
                AnswerBackView::WriteToPty(
                    cursor_report(
                        (old(self)@.cursor.y + 1) as nat,
                        (old(self)@.cursor.x + 1) as nat,
                    ),
                ),
            ),
    {
        let row = (self.cursor.y + 1) as u64;
        let col = self.cursor.x as u64 + 1;
        let mut buf: Vec<u8> = Vec::new();
        buf.push(0x1b);
        buf.push(0x5b);
        push_decimal(&mut buf, row);
        buf.push(0x3b);
        push_decimal(&mut buf, col);
        buf.push(0x52);
        assert(buf@ =~= cursor_report(row as nat, col as nat));
        self.push_answer(AnswerBack::WriteToPty(buf));
    }

    /// Blank `n` cells from the cursor on.
    pub fn erase_chars(&mut self, n: i64)
        requires
            old(self)@.wf(),
        ensures
            final(self)@ == old(self)@.erase_chars(n as int),
            final(self)@.wf(),
    {
        proof {
            reveal(TerminalView::erase_chars);
        }
        if n > 0 {
            let cx = self.cursor.x;
            let cy = self.cursor.y;
            let cols = self.screen().physical_cols();
            let count = count_up_to(n, cols - cx);
            self.screen_mut().clear_line(cy, cx..cx + count);
        }
    }

    /// Delete `n` cells at the cursor.
    pub fn delete_chars(&mut self, n: i64)
        requires
            old(self)@.wf(),
        ensures
            final(self)@ == old(self)@.delete_chars(n as int),
            final(self)@.wf(),
    {
        proof {
            reveal(TerminalView::delete_chars);
        }
        if n > 0 {
            let cx = self.cursor.x;
            let cy = self.cursor.y;
            let cols = self.screen().physical_cols();
            let count = count_up_to(n, cols);
            self.screen_mut().delete_cells(cx, cy, count);
        }
    }

    /// Insert `n` blank cells at the cursor.
    pub fn insert_chars(&mut self, n: i64)
        requires
            old(self)@.wf(),
        ensures
            final(self)@ == old(self)@.insert_chars(n as int),
            final(self)@.wf(),
    {
        proof {
            reveal(TerminalView::insert_chars);
        }
        if n > 0 {
            let cx = self.cursor.x;
            let cy = self.cursor.y;
            let cols = self.screen().physical_cols();
            let count = count_up_to(n, cols);
            self.screen_mut().insert_cells(cx, cy, count);
        }
    }

    /// Carry out one decoded action of a control sequence.
    pub fn perform_action(&mut self, action: CSIAction)
        requires
            old(self)@.wf(),
        ensures
            final(self)@ == old(self)@.apply_action(action),
            final(self)@.wf(),
    {
        proof {
            reveal(TerminalView::apply_action);
        }
        match action {
            CSIAction::SetCursorXY { x, y } => {
                self.set_cursor_pos(&x, &y);
            },
            CSIAction::EraseInLine(erase) => {
                self.erase_in_line(erase);
            },
            CSIAction::EraseInDisplay(erase) => {
                self.erase_in_display(erase);
            },
            CSIAction::SetDecPrivateMode(mode, on) => {
                self.set_dec_private_mode(mode, on);
            },
            CSIAction::DeviceStatusReport => {
                let mut buf: Vec<u8> = Vec::new();
                buf.push(0x1b);
                buf.push(0x5b);
                buf.push(0x30);
                buf.push(0x6e);
                assert(buf@ =~= status_ok());
                self.push_answer(AnswerBack::WriteToPty(buf));
            },
            CSIAction::ReportCursorPosition => {
                self.report_cursor_position();
            },
            CSIAction::SetScrollingRegion { top, bottom } => {
                self.set_scrolling_region(top, bottom);
            },
            CSIAction::RequestDeviceAttributes => {
                let mut buf: Vec<u8> = Vec::new();
                buf.push(0x1b);
                buf.push(0x5b);
                buf.push(0x3f);
                buf.push(0x36);
                buf.push(0x63);
                assert(buf@ =~= device_ident());
                self.push_answer(AnswerBack::WriteToPty(buf));
            },
            CSIAction::DeleteLines(n) => {
                self.delete_lines(n);
            },
            CSIAction::InsertLines(n) => {
                self.insert_lines(n);
            },
            CSIAction::SaveCursor => {
                self.save_cursor();
            },
            CSIAction::RestoreCursor => {
                self.restore_cursor();
            },
            CSIAction::LinePosition(row) => {
                self.set_cursor_pos(&Position::Relative(0), &row);
            },
            CSIAction::ScrollLines(amount) => {
                self.scroll_lines(amount);
            },
            CSIAction::SoftReset => {
                self.soft_reset();
            },
            CSIAction::EraseCharacter(n) => {
                self.erase_chars(n);
            },
            CSIAction::DeleteCharacter(n) => {
                self.delete_chars(n);
            },
            CSIAction::InsertCharacter(n) => {
                self.insert_chars(n);
            },
            CSIAction::TabForward(n) => {
                let x = find_tab_forward(&self.tabs, self.cursor.x, n);
                self.set_cursor_pos(&Position::Absolute(x as i64), &Position::Relative(0));
            },
            CSIAction::TabBackward(n) => {
                let x = find_tab_backward(&self.tabs, self.cursor.x, n);
                self.set_cursor_pos(&Position::Absolute(x as i64), &Position::Relative(0));
            },
            CSIAction::SetNewLineMode(on) => {
                self.new_line_mode = on;
            },
            _ => {
                apply_pen_action(&mut self.pen, action);
            },
        }
    }

    /// Carry out a control sequence.
    pub fn csi_dispatch(&mut self, params: &[i64], intermediates: &[u8], ignore: bool, byte: char)
        requires
            old(self)@.wf(),
        ensures
            final(self)@ == old(self)@.csi_dispatch(params@, intermediates@, ignore, byte),
            final(self)@.wf(),
    {
        proof {
            reveal(TerminalView::csi_dispatch);
        }
        let actions = parse_csi(params, intermediates, ignore, byte);
        let mut i: usize = 0;
        while i < actions.len()
            invariant
                i <= actions@.len(),
                self@.wf(),
                self@ == old(self)@.apply_actions(actions@.subrange(0, i as int)),
            decreases actions@.len() - i,
        {
            self.perform_action(actions[i]);
            proof {
                let upto = actions@.subrange(0, i + 1);
                assert(upto.drop_last() =~= actions@.subrange(0, i as int));
            }
            i += 1;
        }
        assert(actions@.subrange(0, i as int) =~= actions@);
    }

    /// Carry out an escape sequence.
    pub fn esc_dispatch(&mut self, params: &[i64], intermediates: &[u8], ignore: bool, byte: u8)
        requires
            old(self)@.wf(),
        ensures
            final(self)@ == old(self)@.esc_dispatch(intermediates@, byte),
            final(self)@.wf(),
    {
        proof {
            reveal(TerminalView::esc_dispatch);
        }
        if intermediates.len() != 0 {
            // Character set selections and the like
        } else if byte == 0x44 {
            self.new_line(false);
        } else if byte == 0x45 {
            self.new_line(true);
        } else if byte == 0x4d {
            self.reverse_index();
        } else if byte == 0x48 {
            let x = self.cursor.x;
            self.tabs[x] = true;
        } else if byte == 0x3d {
            self.application_keypad = true;
        } else if byte == 0x3e {
            self.application_keypad = false;
        } else if byte == 0x37 {
            self.save_cursor();
        } else if byte == 0x38 {
            self.restore_cursor();
        } else if byte == 0x63 {
            self.full_reset();
        }
    }

    /// Make the link to `url` with the id `id` the current hyperlink.
    fn set_hyperlink(&mut self, url: String, id: String)
        ensures
            final(self)@ == old(self)@.set_hyperlink(HyperlinkView { url: url@, id: id@ }),
            old(self)@.wf() ==> final(self)@.wf(),
    {
        proof {
            reveal(TerminalView::set_hyperlink);
        }
        let ghost link = HyperlinkView { url: url@, id: id@ };
        let mut i: usize = 0;
        while i < self.hyperlinks.len()
            invariant
                i <= self.hyperlinks@.len(),
                *self == *old(self),
                link == (HyperlinkView { url: url@, id: id@ }),
                find_link(self@.hyperlinks, link, i as int) == find_link(self@.hyperlinks, link, 0),
            decreases self.hyperlinks@.len() - i,
        {
            let same = same_link(&self.hyperlinks[i], &url, &id);
            proof {
                reveal(TerminalView::set_hyperlink);
                assert(self@.hyperlinks[i as int] == self.hyperlinks@[i as int]@);
            }
            if same {
                self.pen.set_hyperlink(Some(i));
                return ;
            }
            i += 1;
        }
        self.hyperlinks.push(Hyperlink { url, id });
        self.pen.set_hyperlink(Some(i));
        assert(self@.hyperlinks =~= old(self)@.hyperlinks.push(link));
    }

    /// Carry out an operating system command.
    pub fn osc_dispatch(&mut self, osc: &[Vec<u8>])
        requires
            old(self)@.wf(),
        ensures
            final(self)@ == old(self)@.osc_dispatch(fields_view(osc@)),
            final(self)@.wf(),
    {
        proof {
            reveal(TerminalView::osc_dispatch);
        }
        let ghost fields = fields_view(osc@);
        if osc.len() == 2 && osc[0].len() == 1 && osc[0][0] == 0x30 {
            assert(fields[0] =~= seq![0x30u8]);
            match str_from_utf8(osc[1].as_slice()) {
                Some(title) => {
                    self.push_answer(AnswerBack::TitleChanged(title.to_owned()));
                },
                None => {},
            }
        } else if osc.len() == 3 && osc[0].len() == 1 && osc[0][0] == 0x38 {
            assert(fields[0] =~= seq![0x38u8]);
            let params = osc[1].as_slice();
            let uri = osc[2].as_slice();
            if uri.len() == 0 {
                self.pen.set_hyperlink(None);
            } else {
                let id_bytes = if params.len() >= 3 && params[0] == 0x69 && params[1] == 0x64
                    && params[2] == 0x3d {
                    assert(params@.subrange(0, 3) =~= id_prefix());
                    vstd::slice::slice_subrange(params, 3, params.len())
                } else {
                    proof {
                        if params.len() >= 3 {
                            assert(params@.subrange(0, 3)[0] == params@[0]);
                            assert(params@.subrange(0, 3)[1] == params@[1]);
                            assert(params@.subrange(0, 3)[2] == params@[2]);
                        }
                    }
                    vstd::slice::slice_subrange(params, 0, 0)
                };
                assert(id_bytes@ =~= link_id(fields[1]));
                match str_from_utf8(uri) {
                    Some(url) => {
                        match str_from_utf8(id_bytes) {
                            Some(id) => {
                                self.set_hyperlink(url.to_owned(), id.to_owned());
                            },
                            None => {},
                        }
                    },
                    None => {},
                }
            }
        } else {
            proof {
                if osc.len() >= 1 && (fields[0] == seq![0x30u8] || fields[0] == seq![0x38u8]) {
                    assert(osc@[0]@.len() == 1);
                    assert(fields[0][0] == osc@[0]@[0]);
                }
            }
        }
    }

    /// The start of a device control string: not interpreted.
    pub fn hook(&mut self, params: &[i64], intermediates: &[u8], ignore: bool)
        ensures
            final(self)@ == old(self)@,
    {
    }

    /// A byte of a device control string: not interpreted.
    pub fn put(&mut self, byte: u8)
        ensures
            final(self)@ == old(self)@,
    {
    }

    /// The end of a device control string: not interpreted.
    pub fn unhook(&mut self)
        ensures
            final(self)@ == old(self)@,
    {
    }

    /// Apply an event of the parser.
    pub fn perform(&mut self, event: &ParserEvent)
        requires
            old(self)@.wf(),
        ensures
            final(self)@ == old(self)@.perform(event@),
            final(self)@.wf(),
    {
        proof {
            reveal(TerminalView::perform);
        }
        match event {
            ParserEvent::Print(c) => {
                self.print(*c);
            },
            ParserEvent::Execute(byte) => {
                self.execute(*byte);
            },
            ParserEvent::Hook { params, intermediates, ignore } => {
                self.hook(params.as_slice(), intermediates.as_slice(), *ignore);
            },
            ParserEvent::Put(byte) => {
                self.put(*byte);
            },
            ParserEvent::Unhook => {
                self.unhook();
            },
            ParserEvent::OscDispatch(fields) => {
                self.osc_dispatch(fields.as_slice());
            },
            ParserEvent::CsiDispatch { params, intermediates, ignore, byte } => {
                self.csi_dispatch(params.as_slice(), intermediates.as_slice(), *ignore, *byte);
            },
            ParserEvent::EscDispatch { params, intermediates, ignore, byte } => {
                self.esc_dispatch(params.as_slice(), intermediates.as_slice(), *ignore, *byte);
            },
        }
    }

    /// Resize both screens, and bring the cursor, the scroll region and
    /// the tab stops in line with the new size.
    pub fn resize(&mut self, physical_rows: usize, physical_cols: usize)
        requires
            old(self)@.wf(),
            ScreenView::valid_size(
                physical_rows as nat,
                physical_cols as nat,
                old(self)@.screen.scrollback_size,
            ),
        ensures
            final(self)@ == old(self)@.resize(physical_rows as nat, physical_cols as nat),
            final(self)@.wf(),
    {
        proof {
            reveal(TerminalView::resize);
        }
        self.screen.resize(physical_rows, physical_cols);
        self.alt_screen.resize(physical_rows, physical_cols);
        if self.cursor.x >= physical_cols {
            self.cursor.x = physical_cols - 1;
        }
        if self.cursor.y >= physical_rows as i64 {
            self.cursor.y = physical_rows as i64 - 1;
        }
        if self.saved_cursor.x >= physical_cols {
            self.saved_cursor.x = physical_cols - 1;
        }
        if self.saved_cursor.y >= physical_rows as i64 {
            self.saved_cursor.y = physical_rows as i64 - 1;
        }
        self.wrap_next = false;
        self.scroll_region = 0..physical_rows as VisibleRowIndex;
        let mut tabs: Vec<bool> = Vec::new();
        let mut i: usize = 0;
        while i < physical_cols
            invariant
                i <= physical_cols,
                tabs@.len() == i,
                self.tabs@ == old(self).tabs@,
                forall|j: int|
                    0 <= j < i ==> tabs@[j] == (if j < self.tabs@.len() {
                        self.tabs@[j]
                    } else {
                        j % 8 == 0
                    }),
            decreases physical_cols - i,
        {
            let stop = if i < self.tabs.len() {
                self.tabs[i]
            } else {
                i % 8 == 0
            };
            tabs.push(stop);
            i += 1;
        }
        assert(tabs@ =~= old(self)@.resize(physical_rows as nat, physical_cols as nat).tabs);
        self.tabs = tabs;
    }

    /// Returns true if any of the visible lines are marked dirty.
    pub fn has_dirty_lines(&self) -> (dirty: bool)
        requires
            self@.wf(),
        ensures
            dirty == (exists|y: int| 0 <= y < self@.rows() && self@.active().row(y).dirty),
    {
        let lines = self.screen().visible_lines();
        assert(lines_view(lines@).len() == lines@.len());
        let mut i: usize = 0;
        while i < lines.len()
            invariant
                i <= lines@.len(),
                self@.wf(),
                lines@.len() == self@.rows(),
                lines_view(lines@) == self@.active().visible(),
                forall|y: int| 0 <= y < i ==> !self@.active().row(y).dirty,
            decreases lines@.len() - i,
        {
            assert(self@.active().row(i as int) == self@.active().visible()[i as int]);
            assert(lines_view(lines@)[i as int] == lines@[i as int]@);
            if lines[i].is_dirty() {
                return true;
            }
            i += 1;
        }
        false
    }

    /// Returns the set of visible lines that are dirty, each with its
    /// index relative to the top of the viewport, in order.
    pub fn get_dirty_lines(&self) -> (dirty: Vec<(usize, &Line)>)
        requires
            self@.wf(),
        ensures
            dirty@.len() == self@.dirty_rows().len(),
            forall|k: int|
                0 <= k < dirty@.len() ==> (#[trigger] dirty@[k]).0 == self@.dirty_rows()[k]
                    && dirty@[k].1@ == self@.active().row(self@.dirty_rows()[k]),
    {
        let mut res: Vec<(usize, &Line)> = Vec::new();
        let lines = self.screen().visible_lines();
        assert(lines_view(lines@).len() == lines@.len());
        let ghost keep = |y: int| self@.active().row(y).dirty;
        let mut i: usize = 0;
        proof {
            reveal(Seq::filter);
            assert(Seq::new(0, |y: int| y).filter(keep) =~= Seq::<int>::empty());
        }
        while i < lines.len()
            invariant
                i <= lines@.len(),
                self@.wf(),
                lines@.len() == self@.rows(),
                lines_view(lines@) == self@.active().visible(),
                keep == (|y: int| self@.active().row(y).dirty),
                res@.len() == Seq::new(i as nat, |y: int| y).filter(keep).len(),
                forall|k: int|
                    0 <= k < res@.len() ==> (#[trigger] res@[k]).0 == Seq::new(
                        i as nat,
                        |y: int| y,
                    ).filter(keep)[k] && res@[k].1@ == self@.active().row(res@[k].0 as int),
            decreases lines@.len() - i,
        {
            proof {
                reveal(Seq::filter);
                let upto = Seq::new((i + 1) as nat, |y: int| y);
                assert(upto.drop_last() =~= Seq::new(i as nat, |y: int| y));
                assert(upto.last() == i);
                assert(self@.active().row(i as int) == self@.active().visible()[i as int]);
                assert(lines_view(lines@)[i as int] == lines@[i as int]@);
            }
            if lines[i].is_dirty() {
                res.push((i, &lines[i]));
            }
            i += 1;
        }
        assert(Seq::new(i as nat, |y: int| y) =~= Seq::new(
            self@.active().physical_rows,
            |y: int| y,
        ));
        res
    }

    /// Clear the dirty flag for all dirty lines.
    pub fn clean_dirty_lines(&mut self)
        requires
            old(self)@.wf(),
        ensures
            final(self)@ == old(self)@.with_active(old(self)@.active().cleaned()),
            final(self)@.wf(),
    {
        self.screen_mut().clean_all();
    }

    /// Informs the terminal of a pointer event that the host saw at the
    /// time `now`, in milliseconds on its clock. The result says what the
    /// host is to do about it.
    pub fn mouse_event(&mut self, event: MouseEvent, now: u64) -> (actions: Vec<HostAction>)
        requires
            old(self)@.wf(),
        ensures
            final(self)@ == old(self)@.mouse_event(event, now),
            actions_view(actions@) == old(self)@.mouse_requests(event),
            final(self)@.wf(),
    {
        if self.alt_screen_is_active {
            self.mouse.handle(event, now, &self.alt_screen)
        } else {
            self.mouse.handle(event, now, &self.screen)
        }
    }

    /// What is remembered of the pointer: the button held, the last
    /// click, and the selection.
    pub fn mouse(&self) -> (mouse: MouseState)
        ensures
            mouse == self@.mouse,
    {
        self.mouse
    }

    /// Hand over the responses queued so far.
    pub fn take_answerback(&mut self) -> (answers: Vec<AnswerBack>)
        ensures
            answers_view(answers@) == old(self)@.answerback,
            final(self)@ == old(self)@.drained(),
    {
        let mut answers: Vec<AnswerBack> = Vec::new();
        std::mem::swap(&mut answers, &mut self.answerback);
        assert(self@.answerback =~= Seq::<AnswerBackView>::empty());
        answers
    }

    /// The attributes that the next printed character gets.
    pub fn pen(&self) -> (pen: CellAttributes)
        ensures
            pen@ == self@.pen,
    {
        self.pen
    }

    /// The scroll region, as a range of visible rows.
    pub fn scroll_region(&self) -> (region: Range<VisibleRowIndex>)
        ensures
            region.start == self@.region_top,
            region.end == self@.region_bottom,
    {
        self.scroll_region.start..self.scroll_region.end
    }

    /// Whether the alternate screen is shown.
    pub fn is_alt_screen_active(&self) -> (active: bool)
        ensures
            active == self@.alt_screen_is_active,
    {
        self.alt_screen_is_active
    }

    /// Whether a wrap is pending.
    pub fn wrap_next(&self) -> (pending: bool)
        ensures
            pending == self@.wrap_next,
    {
        self.wrap_next
    }

    /// Whether cursor keys send application sequences.
    pub fn application_cursor_keys(&self) -> (on: bool)
        ensures
            on == self@.application_cursor_keys,
    {
        self.application_cursor_keys
    }

    /// Whether the keypad sends application sequences.
    pub fn application_keypad(&self) -> (on: bool)
        ensures
            on == self@.application_keypad,
    {
        self.application_keypad
    }

    /// Whether pasted text is to be bracketed.
    pub fn bracketed_paste(&self) -> (on: bool)
        ensures
            on == self@.bracketed_paste,
    {
        self.bracketed_paste
    }

    /// Whether a line feed also returns to the first column.
    pub fn new_line_mode(&self) -> (on: bool)
        ensures
            on == self@.new_line_mode,
    {
        self.new_line_mode
    }

    /// Whether the cursor is shown.
    pub fn cursor_visible(&self) -> (on: bool)
        ensures
            on == self@.cursor_visible,
    {
        self.cursor_visible
    }

    /// The hyperlink that cells refer to as `id`, if there is one.
    pub fn hyperlink(&self, id: usize) -> (link: Option<&Hyperlink>)
        ensures
            match link {
                Some(l) => id < self@.hyperlinks.len() && l@ == self@.hyperlinks[id as int],
                None => id >= self@.hyperlinks.len(),
            },
    {
        if id < self.hyperlinks.len() {
            Some(&self.hyperlinks[id])
        } else {
            None
        }
    }
}

} // verus!
