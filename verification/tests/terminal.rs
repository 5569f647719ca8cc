//! Tests of the terminal model and of its escape sequence processing,
//! driven through the byte stream.

use term::cell::CellAttributes;
use term::line::Line;
use term::model::CursorPosition;
use term::terminal::Terminal;
use term::terminalstate::Hyperlink;

const CSI: &[u8] = b"\x1b[";

#[derive(Clone, Copy)]
enum DisplayErase {
    Above,
}

#[derive(Clone, Copy)]
enum LineErase {
    ToRight,
    ToLeft,
}

const TEXT: u8 = 1;
const ATTRS: u8 = 2;
const DIRTY: u8 = 4;

struct TestTerm {
    term: Terminal,
}

impl TestTerm {
    fn new(height: usize, width: usize, scrollback: usize) -> Self {
        Self { term: Terminal::new(height, width, scrollback) }
    }

    fn print<B: AsRef<[u8]>>(&mut self, bytes: B) {
        self.term.advance_bytes(bytes.as_ref());
    }

    fn set_scroll_region(&mut self, top: usize, bottom: usize) {
        self.print(CSI);
        self.print(format!("{};{}r", top + 1, bottom + 1));
    }

    fn delete_lines(&mut self, n: isize) {
        self.print(CSI);
        self.print(format!("{}M", n));
    }

    fn cup(&mut self, col: isize, row: isize) {
        self.print(CSI);
        self.print(format!("{};{}H", row + 1, col + 1));
    }

    fn hvp(&mut self, col: isize, row: isize) {
        self.print(CSI);
        self.print(format!("{};{}f", row + 1, col + 1));
    }

    fn erase_in_display(&mut self, erase: DisplayErase) {
        self.print(CSI);
        let num = match erase {
            DisplayErase::Above => 1,
        };
        self.print(format!("{}J", num));
    }

    fn erase_in_line(&mut self, erase: LineErase) {
        self.print(CSI);
        let num = match erase {
            LineErase::ToRight => 0,
            LineErase::ToLeft => 1,
        };
        self.print(format!("{}K", num));
    }

    fn hyperlink(&mut self, link: &Hyperlink) {
        self.print(format!("\x1b]8;id={};{}\x1b\\", link.id, link.url));
    }

    fn hyperlink_off(&mut self) {
        self.print("\x1b]8;;\x1b\\");
    }

    fn soft_reset(&mut self) {
        self.print(CSI);
        self.print("!p");
    }

    fn clean_dirty_lines(&mut self) {
        self.term.state_mut().clean_dirty_lines();
    }

    fn assert_cursor_pos(&self, x: usize, y: i64, reason: Option<&str>) {
        let cursor = self.term.state().cursor_pos();
        let expect = CursorPosition { x, y };
        assert_eq!(
            cursor, expect,
            "actual cursor (left) didn't match expected cursor (right) reason={:?}",
            reason
        );
    }

    fn assert_dirty_lines(&self, expected: &[usize], reason: Option<&str>) {
        let dirty_indices: Vec<usize> =
            self.term.state().get_dirty_lines().iter().map(|&(i, ..)| i).collect();
        assert_eq!(
            &dirty_indices, &expected,
            "actual dirty lines (left) didn't match expected dirty lines (right) reason={:?}",
            reason
        );
    }
}

/// Asserts that both line slices match according to the selected flags.
fn assert_lines_equal(lines: &[Line], expect_lines: &[Line], compare: u8) {
    let mut expect_iter = expect_lines.iter();

    for (idx, line) in lines.iter().enumerate() {
        let expect = expect_iter.next().unwrap();

        if compare & DIRTY != 0 {
            assert_eq!(line.is_dirty(), expect.is_dirty(), "line {} dirty didn't match", idx,);
        }

        if compare & ATTRS != 0 {
            let line_attrs: Vec<_> = line.cells.iter().map(|c| c.attrs.clone()).collect();
            let expect_attrs: Vec<_> = expect.cells.iter().map(|c| c.attrs.clone()).collect();
            assert_eq!(expect_attrs, line_attrs, "line {} attrs didn't match", idx,);
        }
        if compare & TEXT != 0 {
            let line_str = line.as_str();
            let expect_str = expect.as_str();
            assert_eq!(line_str, expect_str, "line {} text didn't match", idx,);
        }
    }

    assert_eq!(lines.len(), expect_lines.len(), "expectation has wrong number of lines");
}

fn plain_line(s: &str) -> Line {
    Line::from_text(s, &CellAttributes::default())
}

fn print_all_lines(term: &Terminal) {
    let screen = term.state().screen();

    println!("whole screen contents are:");
    for line in screen.all_lines().iter() {
        println!("[{}]", line.as_str());
    }
}

fn print_visible_lines(term: &Terminal) {
    let screen = term.state().screen();

    println!("screen contents are:");
    for line in screen.visible_lines().iter() {
        println!("[{}]", line.as_str());
    }
}

/// Asserts that the visible lines of the terminal have the same character
/// contents as the expected lines. The other cell attributes are not
/// compared; this is a convenience for writing visually understandable
/// tests.
fn assert_visible_contents(term: &TestTerm, expect_lines: &[&str]) {
    print_visible_lines(&term.term);
    let screen = term.term.state().screen();

    let expect: Vec<Line> = expect_lines.iter().map(|s| plain_line(s)).collect();

    assert_lines_equal(screen.visible_lines(), &expect, TEXT);
}

fn assert_all_contents(term: &TestTerm, expect_lines: &[&str]) {
    print_all_lines(&term.term);
    let screen = term.term.state().screen();

    let expect: Vec<Line> = expect_lines.iter().map(|s| plain_line(s)).collect();

    assert_lines_equal(screen.all_lines(), &expect, TEXT);
}

#[test]
fn test_ind() {
    let mut term = TestTerm::new(4, 4, 0);
    term.print("a\nb\x1bD");
    term.assert_cursor_pos(1, 2, None);
    assert_visible_contents(&term, &["a   ", "b   ", "    ", "    "]);
    term.print("\x1bD");
    term.assert_cursor_pos(1, 3, None);
    term.print("\x1bD");
    term.assert_cursor_pos(1, 3, None);
    assert_visible_contents(&term, &["b   ", "    ", "    ", "    "]);
}

#[test]
fn test_nel() {
    let mut term = TestTerm::new(4, 4, 0);
    term.print("a\nb\x1bE");
    term.assert_cursor_pos(0, 2, None);
    term.print("\x1bE");
    term.assert_cursor_pos(0, 3, None);
    term.print("\x1bE");
    term.assert_cursor_pos(0, 3, None);
    assert_visible_contents(&term, &["b   ", "    ", "    ", "    "]);
}

#[test]
fn test_hts() {
    let mut term = TestTerm::new(3, 25, 0);
    term.print("boo");
    term.print("\x1bH\n");
    term.assert_cursor_pos(0, 1, None);
    term.print("\t");
    term.assert_cursor_pos(3, 1, None);
    term.print("\t");
    term.assert_cursor_pos(8, 1, None);
}

#[test]
fn test_ri() {
    let mut term = TestTerm::new(4, 2, 0);
    term.print("a\nb\nc\nd.");
    assert_visible_contents(&term, &["a ", "b ", "c ", "d."]);
    term.assert_cursor_pos(1, 3, None);
    term.print("\x1bM");
    term.assert_cursor_pos(1, 2, None);
    term.print("\x1bM");
    term.assert_cursor_pos(1, 1, None);
    term.print("\x1bM");
    term.assert_cursor_pos(1, 0, None);
    term.print("\x1bM");
    term.assert_cursor_pos(1, 0, None);
    assert_visible_contents(&term, &["  ", "a ", "b ", "c "]);
}

#[test]
fn test_vpa() {
    let mut term = TestTerm::new(3, 4, 0);
    term.assert_cursor_pos(0, 0, None);
    term.print("a\nb\nc");
    term.assert_cursor_pos(1, 2, None);
    term.print("\x1b[d");
    term.assert_cursor_pos(1, 0, None);
    term.print("\n\n");
    term.assert_cursor_pos(0, 2, None);

    // escapes are 1-based, so check that we're handling that
    // when we parse them!
    term.print("\x1b[2d");
    term.assert_cursor_pos(0, 1, None);
    term.print("\x1b[-2d");
    term.assert_cursor_pos(0, 1, None);
}

#[test]
fn test_ech() {
    let mut term = TestTerm::new(3, 4, 0);
    term.print("hey!wat?");
    term.cup(1, 0);
    term.print("\x1b[2X");
    assert_visible_contents(&term, &["h  !", "wat?", "    "]);
    // check how we handle overflowing the width
    term.print("\x1b[12X");
    assert_visible_contents(&term, &["h   ", "wat?", "    "]);
    term.print("\x1b[-12X");
    assert_visible_contents(&term, &["h   ", "wat?", "    "]);
}

#[test]
fn test_cup() {
    let mut term = TestTerm::new(3, 4, 0);
    term.cup(1, 1);
    term.assert_cursor_pos(1, 1, None);
    term.cup(-1, -1);
    term.assert_cursor_pos(0, 0, None);
    term.cup(2, 2);
    term.assert_cursor_pos(2, 2, None);
    term.cup(-1, -1);
    term.assert_cursor_pos(0, 0, None);
    term.cup(500, 500);
    term.assert_cursor_pos(3, 2, None);
}

#[test]
fn test_hvp() {
    let mut term = TestTerm::new(3, 4, 0);
    term.hvp(1, 1);
    term.assert_cursor_pos(1, 1, None);
    term.hvp(-1, -1);
    term.assert_cursor_pos(0, 0, None);
    term.hvp(2, 2);
    term.assert_cursor_pos(2, 2, None);
    term.hvp(-1, -1);
    term.assert_cursor_pos(0, 0, None);
    term.hvp(500, 500);
    term.assert_cursor_pos(3, 2, None);
}

#[test]
fn test_dl() {
    let mut term = TestTerm::new(3, 1, 0);
    term.print("a\nb\nc");
    term.cup(0, 1);
    term.delete_lines(1);
    assert_visible_contents(&term, &["a", "c", " "]);
    term.assert_cursor_pos(0, 1, None);
    term.cup(0, 0);
    term.delete_lines(2);
    assert_visible_contents(&term, &[" ", " ", " "]);
    term.print("1\n2\n3");
    term.cup(0, 1);
    term.delete_lines(-2);
    assert_visible_contents(&term, &["1", "2", "3"]);
}

#[test]
fn basic_output() {
    let mut term = TestTerm::new(5, 10, 0);

    term.cup(1, 1);
    term.print("hello, world!");
    assert_visible_contents(
        &term,
        &["          ", " hello, wo", "rld!      ", "          ", "          "],
    );

    term.erase_in_display(DisplayErase::Above);
    assert_visible_contents(
        &term,
        &["          ", "          ", "rld!      ", "          ", "          "],
    );

    term.cup(2, 2);
    term.erase_in_line(LineErase::ToRight);
    assert_visible_contents(
        &term,
        &["          ", "          ", "rl        ", "          ", "          "],
    );

    term.erase_in_line(LineErase::ToLeft);
    assert_visible_contents(
        &term,
        &["          ", "          ", "          ", "          ", "          "],
    );
}

/// Ensure that we dirty lines as the cursor is moved around, otherwise
/// the renderer won't draw the cursor in the right place
#[test]
fn cursor_movement_damage() {
    let mut term = TestTerm::new(2, 3, 0);

    term.print("fooo.");
    assert_visible_contents(&term, &["foo", "o. "]);
    term.assert_cursor_pos(2, 1, None);
    term.assert_dirty_lines(&[0, 1], None);

    term.cup(0, 1);
    term.clean_dirty_lines();
    term.print("\x08");
    term.assert_cursor_pos(0, 1, Some("BS doesn't change the line"));
    term.assert_dirty_lines(&[1], None);
    term.clean_dirty_lines();

    term.cup(0, 0);
    term.assert_dirty_lines(&[0, 1], Some("cursor movement dirties old and new lines"));
}

/// Deleting lines at the cursor, with the whole screen and with a part of
/// it as scroll region
#[test]
fn test_delete_lines() {
    let mut term = TestTerm::new(5, 3, 0);

    term.print("111\r\n222\r\n333\r\n444\r\n555");
    assert_visible_contents(&term, &["111", "222", "333", "444", "555"]);
    term.assert_dirty_lines(&[0, 1, 2, 3, 4], None);
    term.cup(0, 1);
    term.clean_dirty_lines();

    term.assert_dirty_lines(&[], None);
    term.delete_lines(2);
    assert_visible_contents(&term, &["111", "444", "555", "   ", "   "]);
    term.assert_dirty_lines(&[1, 2, 3, 4], None);
    term.clean_dirty_lines();

    term.cup(0, 3);
    term.print("aaa\r\nbbb");
    term.cup(0, 1);
    term.clean_dirty_lines();
    assert_visible_contents(&term, &["111", "444", "555", "aaa", "bbb"]);

    // test with a scroll region smaller than the screen
    term.set_scroll_region(1, 3);
    print_all_lines(&term.term);
    term.delete_lines(2);

    assert_visible_contents(&term, &["111", "aaa", "   ", "   ", "bbb"]);
    term.assert_dirty_lines(&[1, 2, 3], None);

    // expand the scroll region to fill the screen
    term.set_scroll_region(0, 4);
    term.clean_dirty_lines();
    term.delete_lines(1);

    assert_visible_contents(&term, &["111", "   ", "   ", "bbb", "   "]);
    term.assert_dirty_lines(&[1, 2, 3, 4], None);
}

#[test]
fn test_scrollup() {
    let mut term = TestTerm::new(2, 1, 4);
    term.print("1\n");
    assert_all_contents(&term, &["1", " "]);
    term.print("2\n");
    assert_all_contents(&term, &["1", "2", " "]);
    term.print("3\n");
    assert_all_contents(&term, &["1", "2", "3", " "]);
    term.print("4\n");
    assert_all_contents(&term, &["1", "2", "3", "4", " "]);
    term.print("5\n");
    assert_all_contents(&term, &["1", "2", "3", "4", "5", " "]);
    term.print("6\n");
    assert_all_contents(&term, &["2", "3", "4", "5", "6", " "]);
    term.print("7\n");
    assert_all_contents(&term, &["3", "4", "5", "6", "7", " "]);
    term.print("8\n");
    assert_all_contents(&term, &["4", "5", "6", "7", "8", " "]);
}

#[test]
fn test_hyperlinks() {
    let mut term = TestTerm::new(3, 5, 0);
    let link = Hyperlink { url: "http://example.com".to_string(), id: "".to_string() };
    term.hyperlink(&link);
    term.print("hello");
    term.hyperlink_off();

    let mut linked = CellAttributes::default();
    linked.hyperlink = Some(0);
    assert_eq!(term.term.state().hyperlink(0), Some(&link));

    assert_lines_equal(
        term.term.state().screen().visible_lines(),
        &[Line::from_text("hello", &linked), plain_line("     "), plain_line("     ")],
        TEXT | ATTRS,
    );

    term.hyperlink(&link);
    term.print("he");
    // Resetting pen should not reset the link
    term.print("\x1b[m");
    term.print("y!!");

    assert_lines_equal(
        term.term.state().screen().visible_lines(),
        &[Line::from_text("hello", &linked), Line::from_text("hey!!", &linked), plain_line("     ")],
        TEXT | ATTRS,
    );

    let otherlink =
        Hyperlink { url: "http://example.com/other".to_string(), id: "w00t".to_string() };

    // Switching link and turning it off
    term.hyperlink(&otherlink);
    term.print("wo");
    // soft reset also disables hyperlink attribute
    term.soft_reset();
    term.print("00t");
    assert_eq!(term.term.state().hyperlink(1), Some(&otherlink));

    let mut partial_line: Line = plain_line("wo00t");
    partial_line.cells[0].attrs.hyperlink = Some(1);
    partial_line.cells[1].attrs.hyperlink = Some(1);

    assert_lines_equal(
        term.term.state().screen().visible_lines(),
        &[Line::from_text("hello", &linked), Line::from_text("hey!!", &linked), partial_line],
        TEXT | ATTRS,
    );
}
