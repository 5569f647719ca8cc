//! The parts of the terminal on their own: cells, lines, screens, the
//! control sequence decoder.

use std::ops::Range;
use term::cell::{Cell, CellAttributes, Intensity, Underline};
use term::color::ColorAttribute;
use term::csi::CSIAction::{
    DeleteCharacter, DeleteLines, DeviceStatusReport, EraseCharacter, EraseInDisplay, EraseInLine,
    InsertCharacter, InsertLines, LinePosition, ReportCursorPosition, RequestDeviceAttributes,
    RestoreCursor, SaveCursor, ScrollLines, SetBackgroundColor, SetBlink, SetCursorXY,
    SetDecPrivateMode, SetForegroundColor, SetIntensity, SetInvisible, SetItalic, SetPen,
    SetNewLineMode, SetReverse, SetScrollingRegion, SetStrikethrough, SetUnderline, SoftReset, TabBackward,
    TabForward,
};
use term::csi::{
    parse_ansi_modes, parse_csi, parse_dec_modes, parse_sgr, DecPrivateMode, DisplayErase, LineErase, Position,
};
use term::glyph::{GlyphInfo, GlyphPosition};
use term::line::Line;
use term::parser::ParserEvent;
use term::screen::Screen;
use term::terminalstate::{
    find_next_tab_stop, find_prev_tab_stop, find_tab_backward, find_tab_forward, push_decimal,
    default_tab_stops, AnswerBack, TerminalState,
};

fn texts(lines: &[Line]) -> Vec<String> {
    lines.iter().map(|l| l.as_str()).collect()
}

fn region(r: Range<i64>) -> Range<i64> {
    r
}

#[test]
fn attribute_fields_are_independent() {
    let mut attrs = CellAttributes::default();
    assert_eq!(attrs.intensity(), Intensity::Normal);
    assert_eq!(attrs.underline(), Underline::Off);
    assert!(!attrs.italic() && !attrs.blink() && !attrs.reverse());
    assert!(!attrs.strikethrough() && !attrs.halfbright() && !attrs.invisible());
    assert_eq!(attrs.foreground(), ColorAttribute::Default);
    assert_eq!(attrs.background(), ColorAttribute::Default);
    assert_eq!(attrs.hyperlink(), None);

    attrs.set_underline(Underline::Double);
    assert_eq!(attrs.underline(), Underline::Double);
    assert_eq!(attrs.intensity(), Intensity::Normal);
    attrs.set_intensity(Intensity::Half);
    assert_eq!(attrs.intensity(), Intensity::Half);
    assert_eq!(attrs.underline(), Underline::Double);
    attrs.set_italic(true);
    attrs.set_reverse(true);
    attrs.set_halfbright(true);
    assert!(attrs.italic() && attrs.reverse() && attrs.halfbright());
    assert!(!attrs.blink() && !attrs.strikethrough() && !attrs.invisible());
    attrs.set_blink(true);
    attrs.set_strikethrough(true);
    attrs.set_invisible(true);
    attrs.set_italic(false);
    assert!(!attrs.italic() && attrs.blink() && attrs.strikethrough() && attrs.invisible());
    assert_eq!(attrs.intensity(), Intensity::Half);
    assert_eq!(attrs.underline(), Underline::Double);
    attrs.set_intensity(Intensity::Bold);
    attrs.set_underline(Underline::Single);
    assert_eq!(attrs.intensity(), Intensity::Bold);
    assert_eq!(attrs.underline(), Underline::Single);
    assert!(attrs.reverse() && attrs.halfbright());

    attrs.set_foreground(ColorAttribute::PaletteIndex(7));
    attrs.set_background(ColorAttribute::TrueColor(1, 2, 3));
    attrs.set_hyperlink(Some(4));
    assert_eq!(attrs.foreground, ColorAttribute::PaletteIndex(7));
    assert_eq!(attrs.background, ColorAttribute::TrueColor(1, 2, 3));
    assert_eq!(attrs.hyperlink, Some(4));

    // equal fields make equal attributes
    let mut other = CellAttributes::default();
    other.set_intensity(Intensity::Bold);
    other.set_underline(Underline::Single);
    other.set_blink(true);
    other.set_reverse(true);
    other.set_strikethrough(true);
    other.set_halfbright(true);
    other.set_invisible(true);
    other.foreground = ColorAttribute::PaletteIndex(7);
    other.background = ColorAttribute::TrueColor(1, 2, 3);
    other.hyperlink = Some(4);
    assert_eq!(attrs, other);
    other.set_blink(false);
    assert_ne!(attrs, other);
}

#[test]
fn cells_hold_utf8() {
    let attrs = CellAttributes::default();
    assert_eq!(Cell::from_char('a', &attrs).chars(), b"a");
    assert_eq!(Cell::from_char('\u{e9}', &attrs).chars(), "\u{e9}".as_bytes());
    assert_eq!(Cell::from_char('\u{20ac}', &attrs).chars(), "\u{20ac}".as_bytes());
    assert_eq!(Cell::from_char('\u{1f600}', &attrs).chars(), "\u{1f600}".as_bytes());
    assert_eq!(Cell::default().chars(), b" ");
    assert_eq!(Cell::default().attrs(), attrs);
    assert_eq!(Cell::default(), Cell::from_char(' ', &attrs));
    // the bytes end at the first zero
    assert_eq!(Cell::from_char('\0', &attrs).chars(), b"");
    assert_eq!(Cell::from_bytes(b"ab\0cd", &attrs).chars(), b"ab");
    // and there are at most eight of them
    assert_eq!(Cell::from_bytes(b"0123456789", &attrs).chars(), b"01234567");
    let mut bold = attrs;
    bold.set_intensity(Intensity::Bold);
    assert_eq!(Cell::from_char('x', &bold).attrs, bold);
}

#[test]
fn lines_from_text() {
    let attrs = CellAttributes::default();
    let line = Line::from_text("hey!", &attrs);
    assert_eq!(line.cells.len(), 4);
    assert_eq!(line.width(), 4);
    assert!(line.is_dirty());
    assert_eq!(line.as_str(), "hey!");
    assert_eq!(line.cells[1], Cell::from_char('e', &attrs));

    // a base character and its combining mark share a cell
    let combined = Line::from_text("e\u{301}x", &attrs);
    assert_eq!(combined.cells.len(), 2);
    assert_eq!(combined.cells[0].chars(), "e\u{301}".as_bytes());
    assert_eq!(combined.as_str(), "e\u{301}x");

    // a cluster of more than eight bytes is cut, and what is left of it may
    // not be text any more
    let family = "\u{1f468}\u{200d}\u{1f469}\u{200d}\u{1f467}";
    let long = Line::from_text(family, &attrs);
    assert_eq!(long.cells.len(), 1);
    assert_eq!(long.cells[0].chars(), &family.as_bytes()[0..8]);
    assert_eq!(long.as_str(), "?");

    assert_eq!(line.columns_as_str(1, 3), "ey");
    assert_eq!(line.columns_as_str(2, 100), "y!");
    assert_eq!(line.columns_as_str(3, 1), "");
    assert_eq!(line.columns_as_str(9, 12), "");
    assert_eq!(line.hyperlink_at(0), None);
    let mut linked = attrs;
    linked.set_hyperlink(Some(3));
    assert_eq!(Line::from_text("ab", &linked).hyperlink_at(1), Some(3));
    assert_eq!(Line::from_text("ab", &linked).hyperlink_at(2), None);

    assert_eq!(Line::from_text("", &attrs).cells.len(), 0);
    assert_eq!(Line::from_text("", &attrs).as_str(), "");
    let parts = vec!["ab", "c"];
    assert_eq!(Line::from_graphemes(&parts, &attrs).as_str(), "abc");
    assert_eq!(Line::from_graphemes(&parts, &attrs).cells.len(), 2);
}

#[test]
fn line_editing() {
    let attrs = CellAttributes::default();
    let mut line = Line::new(3);
    assert_eq!(line.as_str(), "   ");
    assert!(line.is_dirty());
    line.set_clean();
    assert!(!line.is_dirty());
    line.set_cell(1, Cell::from_char('b', &attrs));
    assert!(line.is_dirty());
    assert_eq!(line.as_str(), " b ");
    // writing past the end grows the line
    line.set_cell(5, Cell::from_char('f', &attrs));
    assert_eq!(line.as_str(), " b   f");
    line.set_clean();
    line.clear(4, 100);
    assert_eq!(line.as_str(), " b    ");
    assert!(line.is_dirty());
    line.clear(3, 2);
    assert_eq!(line.as_str(), " b    ");
    line.set_cell(0, Cell::from_char('a', &attrs));
    line.set_cell(2, Cell::from_char('c', &attrs));
    line.insert_blanks(1, 2);
    assert_eq!(line.as_str(), "a  bc ");
    line.insert_blanks(7, 2);
    assert_eq!(line.as_str(), "a  bc ");
    line.delete_cells(0, 3);
    assert_eq!(line.as_str(), "bc    ");
    line.delete_cells(1, 100);
    assert_eq!(line.as_str(), "b     ");
    line.insert_blanks(0, 100);
    assert_eq!(line.as_str(), "      ");
    line.set_clean();
    line.set_dirty();
    assert!(line.is_dirty());
    assert_eq!(Line::new(0).as_str(), "");
}

#[test]
fn screen_cells_and_lines() {
    let attrs = CellAttributes::default();
    let mut screen = Screen::new(2, 3, 1);
    assert_eq!(screen.physical_rows(), 2);
    assert_eq!(screen.physical_cols(), 3);
    assert_eq!(screen.scrollback_size(), 1);
    assert_eq!(texts(screen.all_lines()), vec!["   ", "   "]);
    screen.set_cell(0, 0, 'a', &attrs);
    screen.set_cell(4, 1, 'b', &attrs);
    assert_eq!(texts(screen.visible_lines()), vec!["a  ", "    b"]);
    screen.clear_line(1, 0..3);
    assert_eq!(texts(screen.visible_lines()), vec!["a  ", "    b"]);
    screen.clear_line(1, 4..9);
    assert_eq!(texts(screen.visible_lines()), vec!["a  ", "     "]);
    assert_eq!(screen.phys_row(0), 0);
    assert_eq!(screen.phys_row(1), 1);
    screen.scroll_up(&region(0..2), 1);
    assert_eq!(texts(screen.all_lines()), vec!["a  ", "     ", "   "]);
    assert_eq!(screen.phys_row(0), 1);
    assert_eq!(screen.phys_range(&region(0..2)), 1..3);
    screen.delete_cells(0, 0, 1);
    screen.insert_cells(0, 1, 1);
    screen.set_cell(2, 1, 'z', &attrs);
    screen.clear_rows(0, 1);
    assert_eq!(texts(screen.all_lines()), vec!["a  ", "     ", "  z"]);
}

#[test]
fn screen_dirty_flags() {
    let mut screen = Screen::new(3, 1, 0);
    let dirty = |s: &Screen| -> Vec<bool> { s.visible_lines().iter().map(|l| l.is_dirty()).collect() };
    assert_eq!(dirty(&screen), vec![true, true, true]);
    screen.clean_all();
    assert_eq!(dirty(&screen), vec![false, false, false]);
    screen.dirty_line(1);
    assert_eq!(dirty(&screen), vec![false, true, false]);
    screen.clean_line(1);
    screen.set_cell(0, 2, 'x', &CellAttributes::default());
    assert_eq!(dirty(&screen), vec![false, false, true]);
    screen.clean_all();
    // scrolling down dirties the lines that move and the fresh ones
    screen.scroll_down(&region(0..2), 1);
    assert_eq!(dirty(&screen), vec![true, true, false]);
    assert_eq!(texts(screen.visible_lines()), vec![" ", " ", "x"]);
    screen.clean_all();
    screen.scroll_up(&region(1..3), 1);
    assert_eq!(dirty(&screen), vec![false, true, true]);
    assert_eq!(texts(screen.visible_lines()), vec![" ", "x", " "]);
    screen.clean_all();
    screen.scroll_up(&region(1..3), 0);
    assert_eq!(dirty(&screen), vec![false, true, true]);
    assert_eq!(texts(screen.visible_lines()), vec![" ", "x", " "]);
}

#[test]
fn screen_scrolls_into_scrollback() {
    let attrs = CellAttributes::default();
    let mut screen = Screen::new(3, 2, 2);
    screen.set_cell(0, 0, 'a', &attrs);
    screen.set_cell(0, 1, 'b', &attrs);
    screen.set_cell(0, 2, 'c', &attrs);
    screen.scroll_up(&region(0..3), 2);
    assert_eq!(texts(screen.visible_lines()), vec!["c ", "  ", "  "]);
    assert_eq!(texts(screen.all_lines()), vec!["a ", "b ", "c ", "  ", "  "]);
    screen.scroll_up(&region(0..3), 1);
    assert_eq!(texts(screen.all_lines()), vec!["b ", "c ", "  ", "  ", "  "]);
    // a region that starts at the top but ends above the bottom
    let mut part = Screen::new(3, 1, 1);
    part.set_cell(0, 0, 'a', &attrs);
    part.set_cell(0, 1, 'b', &attrs);
    part.set_cell(0, 2, 'c', &attrs);
    part.scroll_up(&region(0..2), 1);
    assert_eq!(texts(part.all_lines()), vec!["a", "b", " ", "c"]);
    part.scroll_up(&region(0..2), 2);
    assert_eq!(texts(part.all_lines()), vec![" ", " ", " ", "c"]);
}

#[test]
fn screen_resize() {
    let attrs = CellAttributes::default();
    let mut screen = Screen::new(2, 2, 1);
    screen.set_cell(0, 0, 'a', &attrs);
    screen.set_cell(0, 1, 'b', &attrs);
    screen.resize(4, 3);
    assert_eq!(texts(screen.all_lines()), vec!["a ", "b ", "   ", "   "]);
    assert_eq!(screen.physical_rows(), 4);
    assert_eq!(screen.physical_cols(), 3);
    screen.resize(1, 3);
    assert_eq!(texts(screen.all_lines()), vec!["   ", "   "]);
    assert_eq!(texts(screen.visible_lines()), vec!["   "]);
    screen.resize(1, 1);
    assert_eq!(texts(screen.all_lines()), vec!["   ", "   "]);
}

#[test]
fn control_sequences_decode() {
    let xy = |x, y| SetCursorXY { x, y };
    let abs = Position::Absolute;
    let rel = Position::Relative;
    for (params, byte, expect) in [
        (vec![], '@', vec![InsertCharacter(1)]),
        (vec![3], '@', vec![InsertCharacter(3)]),
        (vec![], 'A', vec![xy(rel(0), rel(-1))]),
        (vec![0], 'A', vec![xy(rel(0), rel(-1))]),
        (vec![-5], 'A', vec![xy(rel(0), rel(-1))]),
        (vec![4], 'A', vec![xy(rel(0), rel(-4))]),
        (vec![4], 'B', vec![xy(rel(0), rel(4))]),
        (vec![4], 'C', vec![xy(rel(4), rel(0))]),
        (vec![4], 'D', vec![xy(rel(-4), rel(0))]),
        (vec![2], 'E', vec![xy(abs(0), rel(2))]),
        (vec![2], 'F', vec![xy(abs(0), rel(-2))]),
        (vec![7], 'G', vec![xy(abs(6), rel(0))]),
        (vec![], 'G', vec![xy(abs(0), rel(0))]),
        (vec![], 'H', vec![xy(abs(0), abs(0))]),
        (vec![3], 'H', vec![xy(abs(0), abs(2))]),
        (vec![3, 9], 'H', vec![xy(abs(8), abs(2))]),
        (vec![0, 9], 'f', vec![xy(abs(8), abs(0))]),
        (vec![i64::MAX, i64::MAX], 'f', vec![xy(abs(i64::MAX - 1), abs(i64::MAX - 1))]),
        (vec![], 'I', vec![TabForward(1)]),
        (vec![2], 'Z', vec![TabBackward(2)]),
        (vec![], 'J', vec![EraseInDisplay(DisplayErase::Below)]),
        (vec![0], 'J', vec![EraseInDisplay(DisplayErase::Below)]),
        (vec![1], 'J', vec![EraseInDisplay(DisplayErase::Above)]),
        (vec![2], 'J', vec![EraseInDisplay(DisplayErase::All)]),
        (vec![3], 'J', vec![EraseInDisplay(DisplayErase::SavedLines)]),
        (vec![4], 'J', vec![]),
        (vec![], 'K', vec![EraseInLine(LineErase::ToRight)]),
        (vec![1], 'K', vec![EraseInLine(LineErase::ToLeft)]),
        (vec![2], 'K', vec![EraseInLine(LineErase::All)]),
        (vec![3], 'K', vec![]),
        (vec![], 'L', vec![InsertLines(1)]),
        (vec![5], 'M', vec![DeleteLines(5)]),
        (vec![5], 'P', vec![DeleteCharacter(5)]),
        (vec![5], 'S', vec![ScrollLines(-5)]),
        (vec![], 'T', vec![ScrollLines(1)]),
        (vec![5], 'X', vec![EraseCharacter(5)]),
        (vec![], 'c', vec![RequestDeviceAttributes]),
        (vec![1], 'c', vec![]),
        (vec![], 'd', vec![LinePosition(abs(0))]),
        (vec![4], 'd', vec![LinePosition(abs(3))]),
        (vec![], 'm', vec![SetPen(CellAttributes::default())]),
        (vec![5], 'n', vec![DeviceStatusReport]),
        (vec![6], 'n', vec![ReportCursorPosition]),
        (vec![], 'n', vec![]),
        (vec![], 'r', vec![SetScrollingRegion { top: 0, bottom: i64::MAX }]),
        (vec![2, 4], 'r', vec![SetScrollingRegion { top: 1, bottom: 3 }]),
        (vec![2], 'r', vec![SetScrollingRegion { top: 1, bottom: i64::MAX }]),
        (vec![], 's', vec![SaveCursor]),
        (vec![], 'u', vec![RestoreCursor]),
        (vec![1], 'z', vec![]),
        (vec![], 'h', vec![]),
        (vec![20], 'h', vec![SetNewLineMode(true)]),
        (vec![4, 20, 20], 'l', vec![SetNewLineMode(false), SetNewLineMode(false)]),
        (vec![4], 'l', vec![]),
    ] {
        assert_eq!(parse_csi(&params, &[], false, byte), expect, "CSI {:?} {}", params, byte);
        assert_eq!(parse_csi(&params, &[], true, byte), vec![], "flagged CSI {:?} {}", params, byte);
        assert_eq!(parse_csi(&params, b"-", false, byte), vec![]);
    }
    assert_eq!(parse_csi(&[], b"!", false, 'p'), vec![SoftReset]);
    assert_eq!(parse_csi(&[], b"!", true, 'p'), vec![]);
    assert_eq!(parse_csi(&[], b"?!", false, 'p'), vec![]);
    assert_eq!(
        parse_csi(&[1, 12, 25, 1049, 2004], b"?", false, 'h'),
        vec![
            SetDecPrivateMode(DecPrivateMode::ApplicationCursorKeys, true),
            SetDecPrivateMode(DecPrivateMode::ShowCursor, true),
            SetDecPrivateMode(DecPrivateMode::AlternateScreen, true),
            SetDecPrivateMode(DecPrivateMode::BracketedPaste, true),
        ]
    );
    assert_eq!(
        parse_csi(&[2004], b"?", false, 'l'),
        vec![SetDecPrivateMode(DecPrivateMode::BracketedPaste, false)]
    );
    assert_eq!(parse_dec_modes(&[3, 25], false), vec![SetDecPrivateMode(DecPrivateMode::ShowCursor, false)]);
    assert_eq!(parse_ansi_modes(&[3, 20], true), vec![SetNewLineMode(true)]);
}

#[test]
fn renditions_decode() {
    let fg = |i| SetForegroundColor(ColorAttribute::PaletteIndex(i));
    let bg = |i| SetBackgroundColor(ColorAttribute::PaletteIndex(i));
    assert_eq!(parse_sgr(&[]), vec![]);
    assert_eq!(parse_sgr(&[0]), vec![SetPen(CellAttributes::default())]);
    assert_eq!(
        parse_sgr(&[1, 2, 22, 3, 23, 4, 21, 24, 5, 25]),
        vec![
            SetIntensity(Intensity::Bold),
            SetIntensity(Intensity::Half),
            SetIntensity(Intensity::Normal),
            SetItalic(true),
            SetItalic(false),
            SetUnderline(Underline::Single),
            SetUnderline(Underline::Double),
            SetUnderline(Underline::Off),
            SetBlink(true),
            SetBlink(false),
        ]
    );
    assert_eq!(
        parse_sgr(&[7, 27, 8, 28, 9, 29]),
        vec![
            SetReverse(true),
            SetReverse(false),
            SetInvisible(true),
            SetInvisible(false),
            SetStrikethrough(true),
            SetStrikethrough(false),
        ]
    );
    assert_eq!(parse_sgr(&[30, 37, 40, 47]), vec![fg(0), fg(7), bg(0), bg(7)]);
    assert_eq!(parse_sgr(&[90, 97, 100, 107]), vec![fg(8), fg(15), bg(8), bg(15)]);
    assert_eq!(
        parse_sgr(&[39, 49]),
        vec![
            SetForegroundColor(ColorAttribute::Default),
            SetBackgroundColor(ColorAttribute::Default)
        ]
    );
    assert_eq!(parse_sgr(&[38, 5, 0, 48, 5, 255, 1]), vec![fg(0), bg(255), SetIntensity(Intensity::Bold)]);
    assert_eq!(
        parse_sgr(&[38, 2, 0, 128, 255, 48, 2, 1, 2, 3]),
        vec![
            SetForegroundColor(ColorAttribute::TrueColor(0, 128, 255)),
            SetBackgroundColor(ColorAttribute::TrueColor(1, 2, 3)),
        ]
    );
    // unknown parameters are passed over; a malformed color ends the run
    assert_eq!(parse_sgr(&[6, 1, 50, -1, 3]), vec![SetIntensity(Intensity::Bold), SetItalic(true)]);
    assert_eq!(parse_sgr(&[1, 38, 5, 256, 3]), vec![SetIntensity(Intensity::Bold)]);
    assert_eq!(parse_sgr(&[38]), vec![]);
    assert_eq!(parse_sgr(&[38, 5]), vec![]);
    assert_eq!(parse_sgr(&[48, 2, 1, 2]), vec![]);
    assert_eq!(parse_sgr(&[48, 2, 1, 2, -3, 1]), vec![]);
    assert_eq!(parse_sgr(&[38, 7, 1, 2, 3]), vec![]);
}

#[test]
fn tab_stop_search() {
    let tabs = default_tab_stops(20);
    assert_eq!(tabs.len(), 20);
    assert_eq!(
        tabs.iter().enumerate().filter(|(_, t)| **t).map(|(i, _)| i).collect::<Vec<_>>(),
        vec![0, 8, 16]
    );
    assert_eq!(find_next_tab_stop(&tabs, 0), 8);
    assert_eq!(find_next_tab_stop(&tabs, 7), 8);
    assert_eq!(find_next_tab_stop(&tabs, 8), 16);
    assert_eq!(find_next_tab_stop(&tabs, 16), 19);
    assert_eq!(find_next_tab_stop(&tabs, 19), 19);
    assert_eq!(find_prev_tab_stop(&tabs, 19), 16);
    assert_eq!(find_prev_tab_stop(&tabs, 16), 8);
    assert_eq!(find_prev_tab_stop(&tabs, 9), 8);
    assert_eq!(find_prev_tab_stop(&tabs, 8), 0);
    assert_eq!(find_prev_tab_stop(&tabs, 1), 0);
    assert_eq!(find_prev_tab_stop(&tabs, 0), 0);
    assert_eq!(find_tab_forward(&tabs, 3, 0), 3);
    assert_eq!(find_tab_forward(&tabs, 3, -1), 3);
    assert_eq!(find_tab_forward(&tabs, 3, 2), 16);
    assert_eq!(find_tab_forward(&tabs, 3, i64::MAX), 19);
    assert_eq!(find_tab_backward(&tabs, 17, 1), 16);
    assert_eq!(find_tab_backward(&tabs, 17, 2), 8);
    assert_eq!(find_tab_backward(&tabs, 17, i64::MAX), 0);
    assert_eq!(find_tab_backward(&tabs, 17, 0), 17);
    assert_eq!(default_tab_stops(0), Vec::<bool>::new());
    assert_eq!(find_next_tab_stop(&vec![false], 0), 0);
}

#[test]
fn decimal_digits() {
    for (n, expect) in [
        (0u64, "0"),
        (7, "7"),
        (10, "10"),
        (99, "99"),
        (100, "100"),
        (1234567890, "1234567890"),
        (u64::MAX, "18446744073709551615"),
    ] {
        let mut buf = b"x".to_vec();
        push_decimal(&mut buf, n);
        assert_eq!(buf, format!("x{}", expect).into_bytes());
    }
}

#[test]
fn state_applies_events() {
    let mut state = TerminalState::new(2, 4, 0);
    state.perform(&ParserEvent::Print('h'));
    state.perform(&ParserEvent::Print('i'));
    state.perform(&ParserEvent::Execute(b'\n'));
    state.perform(&ParserEvent::CsiDispatch {
        params: vec![1, 3],
        intermediates: vec![],
        ignore: false,
        byte: 'H',
    });
    state.perform(&ParserEvent::Print('!'));
    state.perform(&ParserEvent::Hook { params: vec![1], intermediates: vec![], ignore: false });
    state.perform(&ParserEvent::Put(b'q'));
    state.perform(&ParserEvent::Unhook);
    state.perform(&ParserEvent::EscDispatch {
        params: vec![],
        intermediates: vec![],
        ignore: false,
        byte: b'E',
    });
    state.perform(&ParserEvent::OscDispatch(vec![b"0".to_vec(), b"t".to_vec()]));
    state.perform(&ParserEvent::CsiDispatch {
        params: vec![6],
        intermediates: vec![],
        ignore: false,
        byte: 'n',
    });
    assert_eq!(texts(state.screen().visible_lines()), vec!["hi! ", "    "]);
    assert_eq!(state.cursor_pos().x, 0);
    assert_eq!(state.cursor_pos().y, 1);
    assert_eq!(
        state.take_answerback(),
        vec![
            AnswerBack::TitleChanged("t".to_string()),
            AnswerBack::WriteToPty(b"\x1b[2;1R".to_vec())
        ]
    );
    assert_eq!(state.take_answerback(), vec![]);
    state.push_answerback(b"abc");
    assert_eq!(state.take_answerback(), vec![AnswerBack::WriteToPty(b"abc".to_vec())]);
}

#[test]
fn state_operations() {
    let mut state = TerminalState::new(3, 3, 0);
    state.print('a');
    state.new_line(false);
    assert_eq!((state.cursor_pos().x, state.cursor_pos().y), (1, 1));
    state.print('b');
    state.new_line(true);
    state.print('c');
    assert_eq!(texts(state.screen().visible_lines()), vec!["a  ", " b ", "c  "]);
    state.scroll_up(1);
    assert_eq!(texts(state.screen().visible_lines()), vec![" b ", "c  ", "   "]);
    state.scroll_down(2);
    assert_eq!(texts(state.screen().visible_lines()), vec!["   ", "   ", " b "]);
    state.scroll_lines(-2);
    assert_eq!(texts(state.screen().visible_lines()), vec![" b ", "   ", "   "]);
    state.scroll_lines(i64::MIN);
    assert_eq!(texts(state.screen().visible_lines()), vec!["   ", "   ", "   "]);
    state.scroll_lines(i64::MAX);
    state.scroll_lines(0);
    state.set_cursor_pos(&Position::Absolute(-4), &Position::Relative(i64::MIN));
    assert_eq!((state.cursor_pos().x, state.cursor_pos().y), (0, 0));
    state.set_cursor_pos(&Position::Relative(i64::MAX), &Position::Absolute(i64::MAX));
    assert_eq!((state.cursor_pos().x, state.cursor_pos().y), (2, 2));
    state.reverse_index();
    assert_eq!((state.cursor_pos().x, state.cursor_pos().y), (2, 1));
    state.print('x');
    state.erase_chars(0);
    state.delete_chars(-1);
    state.insert_chars(0);
    state.delete_lines(0);
    state.insert_lines(-3);
    assert_eq!(texts(state.screen().visible_lines()), vec!["   ", "  x", "   "]);
    state.set_cursor_pos(&Position::Absolute(0), &Position::Relative(0));
    state.insert_chars(i64::MAX);
    assert_eq!(texts(state.screen().visible_lines()), vec!["   ", "   ", "   "]);
    state.set_scrolling_region(-5, i64::MAX);
    assert_eq!(state.scroll_region(), 0..3);
    state.set_scrolling_region(i64::MAX, i64::MIN);
    assert_eq!(state.scroll_region(), 0..3);
    state.set_scrolling_region(1, 1);
    assert_eq!(state.scroll_region(), 1..2);
    state.full_reset();
    assert_eq!(state.scroll_region(), 0..3);
    assert_eq!(state.hyperlink(0), None);
}

#[test]
fn glyphs_in_whole_pixels() {
    let pos = GlyphPosition { x_advance: 640, y_advance: -64, x_offset: 63, y_offset: -65 };
    let info = GlyphInfo::new("a", 2, 42, 7, &pos);
    assert_eq!(
        info,
        GlyphInfo {
            num_cells: 1,
            font_idx: 2,
            glyph_pos: 42,
            cluster: 7,
            x_advance: 10,
            y_advance: -1,
            x_offset: 0,
            y_offset: -1,
        }
    );
    let still = GlyphPosition { x_advance: 0, y_advance: -63, x_offset: i32::MAX, y_offset: i32::MIN };
    let wide = GlyphInfo::new("\u{ff28}", 0, 1, 0, &still);
    assert_eq!(wide.num_cells, 2);
    assert_eq!((wide.x_advance, wide.y_advance), (0, 0));
    assert_eq!((wide.x_offset, wide.y_offset), (33554431, -33554432));
    assert_eq!(GlyphInfo::new("", 0, 1, 0, &still).num_cells, 0);
    assert_eq!(GlyphInfo::new("abc", 0, 1, 0, &still).num_cells, 3);
    assert_eq!(GlyphInfo::new("e\u{301}", 0, 1, 0, &still).num_cells, 1);
    // the number of cells is the width's low eight bits
    assert_eq!(GlyphInfo::with_width(255, 0, 1, 0, &still).num_cells, 255);
    assert_eq!(GlyphInfo::with_width(256, 0, 1, 0, &still).num_cells, 0);
    assert_eq!(GlyphInfo::with_width(300, 0, 1, 0, &still).num_cells, 44);
}
