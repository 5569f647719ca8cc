//! The decoder for control sequences: from the parameters, intermediates
//! and final byte of a sequence to what the terminal is asked to do.

use vstd::prelude::*;
use crate::cell::{CellAttributes, Intensity, Underline};
use crate::color::ColorAttribute;
use crate::screen::VisibleRowIndex;

verus! {

/// An absolute visible row or column number, or a position relative to
/// where the cursor is. Both are signed, so that range checks can wait
/// until the request is carried out.
#[derive(Debug, Clone, Copy, PartialEq, Eq, Structural)]
pub enum Position {
    Absolute(VisibleRowIndex),
    Relative(i64),
}

/// Which part of the cursor's line to erase.
#[derive(Debug, Clone, Copy, PartialEq, Eq, Structural)]
pub enum LineErase {
    ToRight,
    ToLeft,
    All,
}

/// Which part of the display to erase.
#[derive(Debug, Clone, Copy, PartialEq, Eq, Structural)]
pub enum DisplayErase {
    Below,
    Above,
    All,
    SavedLines,
}

/// The DEC private modes the terminal knows.
#[derive(Debug, Clone, Copy, PartialEq, Eq, Structural)]
pub enum DecPrivateMode {
    /// Mode 1: cursor keys send application sequences.
    ApplicationCursorKeys,
    /// Mode 25: the cursor is shown.
    ShowCursor,
    /// Mode 1049: the alternate screen, with the cursor saved on entry
    /// and restored on exit.
    AlternateScreen,
    /// Mode 2004: pasted text is bracketed.
    BracketedPaste,
}

/// What a control sequence asks for, with its defaults filled in.
#[derive(Debug, Clone, Copy, PartialEq, Eq, Structural)]
pub enum CSIAction {
    SetPen(CellAttributes),
    SetForegroundColor(ColorAttribute),
    SetBackgroundColor(ColorAttribute),
    SetIntensity(Intensity),
    SetUnderline(Underline),
    SetItalic(bool),
    SetBlink(bool),
    SetReverse(bool),
    SetStrikethrough(bool),
    SetInvisible(bool),
    SetCursorXY { x: Position, y: Position },
    EraseInLine(LineErase),
    EraseInDisplay(DisplayErase),
    SetDecPrivateMode(DecPrivateMode, bool),
    DeviceStatusReport,
    ReportCursorPosition,
    /// Zero-based first and last row of the region.
    SetScrollingRegion { top: i64, bottom: i64 },
    RequestDeviceAttributes,
    DeleteLines(i64),
    InsertLines(i64),
    SaveCursor,
    RestoreCursor,
    LinePosition(Position),
    /// Scroll the region down by the amount, or up if it is negative.
    ScrollLines(i64),
    SoftReset,
    EraseCharacter(i64),
    DeleteCharacter(i64),
    InsertCharacter(i64),
    TabForward(i64),
    TabBackward(i64),
    /// Whether a line feed also returns to the first column.
    SetNewLineMode(bool),
}

/// Parameter `i` of a sequence, or `default` where it is omitted. A
/// parameter that is zero or negative counts as omitted.
pub open spec fn param_or(params: Seq<i64>, i: int, default: i64) -> i64 {
    if i < params.len() && params[i] > 0 {
        params[i]
    } else {
        default
    }
}

/// The selector of a sequence whose default is zero: its first parameter.
pub open spec fn selector(params: Seq<i64>) -> i64 {
    if params.len() == 0 {
        0
    } else {
        params[0]
    }
}

/// Whether `v` can be a palette index or a color component.
pub open spec fn is_color_component(v: i64) -> bool {
    0 <= v <= 255
}

/// The color that the extended color parameters at the front of `params`
/// name, with the number of parameters they take: `38;5;N` an entry of
/// the palette, `38;2;R;G;B` a 24 bit color (and likewise after 48).
pub open spec fn extended_color(params: Seq<i64>) -> Option<(ColorAttribute, int)> {
    if params.len() >= 3 && params[1] == 5 && is_color_component(params[2]) {
        Some((ColorAttribute::PaletteIndex(params[2] as u8), 3))
    } else if params.len() >= 5 && params[1] == 2 && is_color_component(params[2])
        && is_color_component(params[3]) && is_color_component(params[4]) {
        Some((ColorAttribute::TrueColor(params[2] as u8, params[3] as u8, params[4] as u8), 5))
    } else {
        None
    }
}

/// What the rendition parameter at the front of `params` asks for, and how
/// many parameters it takes. An unknown parameter asks for nothing and
/// takes one; a malformed extended color takes all that is left.
#[verifier::opaque]
pub open spec fn sgr_one(params: Seq<i64>) -> (Option<CSIAction>, int) {
    let p = params[0];
    if p == 0 {
        (Some(CSIAction::SetPen(CellAttributes::plain())), 1)
    } else if p == 1 {
        (Some(CSIAction::SetIntensity(Intensity::Bold)), 1)
    } else if p == 2 {
        (Some(CSIAction::SetIntensity(Intensity::Half)), 1)
    } else if p == 22 {
        (Some(CSIAction::SetIntensity(Intensity::Normal)), 1)
    } else if p == 3 {
        (Some(CSIAction::SetItalic(true)), 1)
    } else if p == 23 {
        (Some(CSIAction::SetItalic(false)), 1)
    } else if p == 4 {
        (Some(CSIAction::SetUnderline(Underline::Single)), 1)
    } else if p == 21 {
        (Some(CSIAction::SetUnderline(Underline::Double)), 1)
    } else if p == 24 {
        (Some(CSIAction::SetUnderline(Underline::Off)), 1)
    } else if p == 5 {
        (Some(CSIAction::SetBlink(true)), 1)
    } else if p == 25 {
        (Some(CSIAction::SetBlink(false)), 1)
    } else if p == 7 {
        (Some(CSIAction::SetReverse(true)), 1)
    } else if p == 27 {
        (Some(CSIAction::SetReverse(false)), 1)
    } else if p == 8 {
        (Some(CSIAction::SetInvisible(true)), 1)
    } else if p == 28 {
        (Some(CSIAction::SetInvisible(false)), 1)
    } else if p == 9 {
        (Some(CSIAction::SetStrikethrough(true)), 1)
    } else if p == 29 {
        (Some(CSIAction::SetStrikethrough(false)), 1)
    } else if 30 <= p <= 37 {
        (Some(CSIAction::SetForegroundColor(ColorAttribute::PaletteIndex((p - 30) as u8))), 1)
    } else if 40 <= p <= 47 {
        (Some(CSIAction::SetBackgroundColor(ColorAttribute::PaletteIndex((p - 40) as u8))), 1)
    } else if 90 <= p <= 97 {
        (Some(CSIAction::SetForegroundColor(ColorAttribute::PaletteIndex((p - 90 + 8) as u8))), 1)
    } else if 100 <= p <= 107 {
        (Some(CSIAction::SetBackgroundColor(ColorAttribute::PaletteIndex((p - 100 + 8) as u8))), 1)
    } else if p == 39 {
        (Some(CSIAction::SetForegroundColor(ColorAttribute::Default)), 1)
    } else if p == 49 {
        (Some(CSIAction::SetBackgroundColor(ColorAttribute::Default)), 1)
    } else if p == 38 {
        match extended_color(params) {
            Some((color, used)) => (Some(CSIAction::SetForegroundColor(color)), used),
            None => (None, params.len() as int),
        }
    } else if p == 48 {
        match extended_color(params) {
            Some((color, used)) => (Some(CSIAction::SetBackgroundColor(color)), used),
            None => (None, params.len() as int),
        }
    } else {
        (None, 1)
    }
}

/// The pen updates that the rendition parameters `params` ask for, in order.
pub open spec fn sgr_actions(params: Seq<i64>) -> Seq<CSIAction>
    decreases params.len(),
{
    if params.len() == 0 {
        Seq::empty()
    } else {
        let (action, used) = sgr_one(params);
        let rest = if 1 <= used <= params.len() {
            sgr_actions(params.subrange(used, params.len() as int))
        } else {
            Seq::empty()
        };
        match action {
            Some(a) => seq![a] + rest,
            None => rest,
        }
    }
}

/// The DEC private mode with the number `p`, if the terminal knows it.
pub open spec fn dec_mode(p: i64) -> Option<DecPrivateMode> {
    if p == 1 {
        Some(DecPrivateMode::ApplicationCursorKeys)
    } else if p == 25 {
        Some(DecPrivateMode::ShowCursor)
    } else if p == 1049 {
        Some(DecPrivateMode::AlternateScreen)
    } else if p == 2004 {
        Some(DecPrivateMode::BracketedPaste)
    } else {
        None
    }
}

/// The mode changes that the parameters `params` of a DECSET (`on`) or
/// DECRST ask for, in order. Unknown modes are passed over.
pub open spec fn dec_mode_actions(params: Seq<i64>, on: bool) -> Seq<CSIAction>
    decreases params.len(),
{
    if params.len() == 0 {
        Seq::empty()
    } else {
        let rest = dec_mode_actions(params.drop_first(), on);
        match dec_mode(params[0]) {
            Some(mode) => seq![CSIAction::SetDecPrivateMode(mode, on)] + rest,
            None => rest,
        }
    }
}

/// The changes of ANSI modes that the parameters `params` of a set mode
/// (`on`) or reset mode sequence ask for, in order. Mode 20, the new line
/// mode, is the one the terminal knows.
pub open spec fn ansi_mode_actions(params: Seq<i64>, on: bool) -> Seq<CSIAction>
    decreases params.len(),
{
    if params.len() == 0 {
        Seq::empty()
    } else {
        let rest = ansi_mode_actions(params.drop_first(), on);
        if params[0] == 20 {
            seq![CSIAction::SetNewLineMode(on)] + rest
        } else {
            rest
        }
    }
}

/// What a sequence without intermediates asks for.
#[verifier::opaque]
pub open spec fn plain_csi_actions(params: Seq<i64>, byte: char) -> Seq<CSIAction> {
    let n = param_or(params, 0, 1);
    let sel = selector(params);
    if byte == '@' {
        seq![CSIAction::InsertCharacter(n)]
    } else if byte == 'A' {
        seq![CSIAction::SetCursorXY { x: Position::Relative(0), y: Position::Relative((-n) as i64) }]
    } else if byte == 'B' {
        seq![CSIAction::SetCursorXY { x: Position::Relative(0), y: Position::Relative(n) }]
    } else if byte == 'C' {
        seq![CSIAction::SetCursorXY { x: Position::Relative(n), y: Position::Relative(0) }]
    } else if byte == 'D' {
        seq![CSIAction::SetCursorXY { x: Position::Relative((-n) as i64), y: Position::Relative(0) }]
    } else if byte == 'E' {
        seq![CSIAction::SetCursorXY { x: Position::Absolute(0), y: Position::Relative(n) }]
    } else if byte == 'F' {
        seq![CSIAction::SetCursorXY { x: Position::Absolute(0), y: Position::Relative((-n) as i64) }]
    } else if byte == 'G' {
        seq![CSIAction::SetCursorXY { x: Position::Absolute((n - 1) as i64), y: Position::Relative(0) }]
    } else if byte == 'H' || byte == 'f' {
        seq![
            CSIAction::SetCursorXY {
                x: Position::Absolute((param_or(params, 1, 1) - 1) as i64),
                y: Position::Absolute((n - 1) as i64),
            },
        ]
    } else if byte == 'I' {
        seq![CSIAction::TabForward(n)]
    } else if byte == 'Z' {
        seq![CSIAction::TabBackward(n)]
    } else if byte == 'J' {
        if sel == 0 {
            seq![CSIAction::EraseInDisplay(DisplayErase::Below)]
        } else if sel == 1 {
            seq![CSIAction::EraseInDisplay(DisplayErase::Above)]
        } else if sel == 2 {
            seq![CSIAction::EraseInDisplay(DisplayErase::All)]
        } else if sel == 3 {
            seq![CSIAction::EraseInDisplay(DisplayErase::SavedLines)]
        } else {
            Seq::empty()
        }
    } else if byte == 'K' {
        if sel == 0 {
            seq![CSIAction::EraseInLine(LineErase::ToRight)]
        } else if sel == 1 {
            seq![CSIAction::EraseInLine(LineErase::ToLeft)]
        } else if sel == 2 {
            seq![CSIAction::EraseInLine(LineErase::All)]
        } else {
            Seq::empty()
        }
    } else if byte == 'L' {
        seq![CSIAction::InsertLines(n)]
    } else if byte == 'M' {
        seq![CSIAction::DeleteLines(n)]
    } else if byte == 'P' {
        seq![CSIAction::DeleteCharacter(n)]
    } else if byte == 'S' {
        seq![CSIAction::ScrollLines((-n) as i64)]
    } else if byte == 'T' {
        seq![CSIAction::ScrollLines(n)]
    } else if byte == 'X' {
        seq![CSIAction::EraseCharacter(n)]
    } else if byte == 'c' {
        if sel == 0 {
            seq![CSIAction::RequestDeviceAttributes]
        } else {
            Seq::empty()
        }
    } else if byte == 'd' {
        seq![CSIAction::LinePosition(Position::Absolute((n - 1) as i64))]
    } else if byte == 'h' {
        ansi_mode_actions(params, true)
    } else if byte == 'l' {
        ansi_mode_actions(params, false)
    } else if byte == 'm' {
        if params.len() == 0 {
            seq![CSIAction::SetPen(CellAttributes::plain())]
        } else {
            sgr_actions(params)
        }
    } else if byte == 'n' {
        if sel == 5 {
            seq![CSIAction::DeviceStatusReport]
        } else if sel == 6 {
            seq![CSIAction::ReportCursorPosition]
        } else {
            Seq::empty()
        }
    } else if byte == 'r' {
        seq![
            CSIAction::SetScrollingRegion {
                top: (n - 1) as i64,
                bottom: if params.len() > 1 && params[1] > 0 {
                    (params[1] - 1) as i64
                } else {
                    i64::MAX
                },
            },
        ]
    } else if byte == 's' {
        seq![CSIAction::SaveCursor]
    } else if byte == 'u' {
        seq![CSIAction::RestoreCursor]
    } else {
        Seq::empty()
    }
}

/// What the control sequence with the parameters `params`, the
/// intermediates `intermediates` and the final byte `byte` asks for. A
/// sequence that the parser flagged, or that the terminal does not know,
/// asks for nothing.
#[verifier::opaque]
pub open spec fn csi_actions(
    params: Seq<i64>,
    intermediates: Seq<u8>,
    ignore: bool,
    byte: char,
) -> Seq<CSIAction> {
    if ignore {
        Seq::empty()
    } else if intermediates.len() == 0 {
        plain_csi_actions(params, byte)
    } else if intermediates.len() == 1 && intermediates[0] == 0x3f && byte == 'h' {
        dec_mode_actions(params, true)
    } else if intermediates.len() == 1 && intermediates[0] == 0x3f && byte == 'l' {
        dec_mode_actions(params, false)
    } else if intermediates.len() == 1 && intermediates[0] == 0x21 && byte == 'p' {
        seq![CSIAction::SoftReset]
    } else {
        Seq::empty()
    }
}

/// Parameter `i`, or `default` where it is omitted.
fn get_param_or(params: &[i64], i: usize, default: i64) -> (v: i64)
    ensures
        v == param_or(params@, i as int, default),
{
    if i < params.len() && params[i] > 0 {
        params[i]
    } else {
        default
    }
}

/// Decode the extended color at `at`.
fn get_extended_color(params: &[i64], at: usize) -> (found: Option<(ColorAttribute, usize)>)
    requires
        at < params.len(),
    ensures
        match extended_color(params@.subrange(at as int, params@.len() as int)) {
            Some((color, used)) => found == Some((color, used as usize)) && at + used
                <= params.len(),
            None => found.is_none(),
        },
{
    let left = params.len() - at;
    let ghost rest = params@.subrange(at as int, params@.len() as int);
    if left >= 3 && params[at + 1] == 5 && 0 <= params[at + 2] && params[at + 2] <= 255 {
        assert(rest[1] == params@[at + 1] && rest[2] == params@[at + 2]);
        Some((ColorAttribute::PaletteIndex(params[at + 2] as u8), 3))
    } else if left >= 5 && params[at + 1] == 2 && 0 <= params[at + 2] && params[at + 2] <= 255 && 0
        <= params[at + 3] && params[at + 3] <= 255 && 0 <= params[at + 4] && params[at + 4] <= 255 {
        assert(rest[1] == params@[at + 1] && rest[2] == params@[at + 2] && rest[3] == params@[at
            + 3] && rest[4] == params@[at + 4]);
        Some(
            (
                ColorAttribute::TrueColor(
                    params[at + 2] as u8,
                    params[at + 3] as u8,
                    params[at + 4] as u8,
                ),
                5,
            ),
        )
    } else {
        proof {
            if left >= 3 {
                assert(rest[1] == params@[at + 1] && rest[2] == params@[at + 2]);
            }
            if left >= 5 {
                assert(rest[3] == params@[at + 3] && rest[4] == params@[at + 4]);
            }
        }
        None
    }
}

/// Decode the rendition parameter at `at`.
fn get_sgr_one(params: &[i64], at: usize) -> (found: (Option<CSIAction>, usize))
    requires
        at < params.len(),
    ensures
        found.0 == sgr_one(params@.subrange(at as int, params@.len() as int)).0,
        found.1 == sgr_one(params@.subrange(at as int, params@.len() as int)).1,
        1 <= found.1 <= params.len() - at,
{
    proof {
        reveal(sgr_one);
    }
    let p = params[at];
    let left = params.len() - at;
    assert(params@.subrange(at as int, params@.len() as int)[0] == p);
    if p == 0 {
        (Some(CSIAction::SetPen(CellAttributes::default())), 1)
    } else if p == 1 {
        (Some(CSIAction::SetIntensity(Intensity::Bold)), 1)
    } else if p == 2 {
        (Some(CSIAction::SetIntensity(Intensity::Half)), 1)
    } else if p == 22 {
        (Some(CSIAction::SetIntensity(Intensity::Normal)), 1)
    } else if p == 3 {
        (Some(CSIAction::SetItalic(true)), 1)
    } else if p == 23 {
        (Some(CSIAction::SetItalic(false)), 1)
    } else if p == 4 {
        (Some(CSIAction::SetUnderline(Underline::Single)), 1)
    } else if p == 21 {
        (Some(CSIAction::SetUnderline(Underline::Double)), 1)
    } else if p == 24 {
        (Some(CSIAction::SetUnderline(Underline::Off)), 1)
    } else if p == 5 {
        (Some(CSIAction::SetBlink(true)), 1)
    } else if p == 25 {
        (Some(CSIAction::SetBlink(false)), 1)
    } else if p == 7 {
        (Some(CSIAction::SetReverse(true)), 1)
    } else if p == 27 {
        (Some(CSIAction::SetReverse(false)), 1)
    } else if p == 8 {
        (Some(CSIAction::SetInvisible(true)), 1)
    } else if p == 28 {
        (Some(CSIAction::SetInvisible(false)), 1)
    } else if p == 9 {
        (Some(CSIAction::SetStrikethrough(true)), 1)
    } else if p == 29 {
        (Some(CSIAction::SetStrikethrough(false)), 1)
    } else if 30 <= p && p <= 37 {
        (Some(CSIAction::SetForegroundColor(ColorAttribute::PaletteIndex((p - 30) as u8))), 1)
    } else if 40 <= p && p <= 47 {
        (Some(CSIAction::SetBackgroundColor(ColorAttribute::PaletteIndex((p - 40) as u8))), 1)
    } else if 90 <= p && p <= 97 {
        (Some(CSIAction::SetForegroundColor(ColorAttribute::PaletteIndex((p - 90 + 8) as u8))), 1)
    } else if 100 <= p && p <= 107 {
        (Some(CSIAction::SetBackgroundColor(ColorAttribute::PaletteIndex((p - 100 + 8) as u8))), 1)
    } else if p == 39 {
        (Some(CSIAction::SetForegroundColor(ColorAttribute::Default)), 1)
    } else if p == 49 {
        (Some(CSIAction::SetBackgroundColor(ColorAttribute::Default)), 1)
    } else if p == 38 {
        match get_extended_color(params, at) {
            Some((color, used)) => (Some(CSIAction::SetForegroundColor(color)), used),
            None => (None, left),
        }
    } else if p == 48 {
        match get_extended_color(params, at) {
            Some((color, used)) => (Some(CSIAction::SetBackgroundColor(color)), used),
            None => (None, left),
        }
    } else {
        (None, 1)
    }
}

/// Decode the rendition parameters of an SGR sequence.
pub fn parse_sgr(params: &[i64]) -> (actions: Vec<CSIAction>)
    ensures
        actions@ == sgr_actions(params@),
{
    let mut actions: Vec<CSIAction> = Vec::new();
    let mut at: usize = 0;
    assert(params@.subrange(0, params@.len() as int) =~= params@);
    while at < params.len()
        invariant
            at <= params.len(),
            actions@ + sgr_actions(params@.subrange(at as int, params@.len() as int))
                == sgr_actions(params@),
        decreases params.len() - at,
    {
        let ghost before = actions@;
        let ghost rest = params@.subrange(at as int, params@.len() as int);
        let (action, used) = get_sgr_one(params, at);
        match action {
            Some(a) => {
                actions.push(a);
            },
            None => {},
        }
        proof {
            let after = params@.subrange(at + used, params@.len() as int);
            assert(rest.subrange(used as int, rest.len() as int) =~= after);
            match action {
                Some(a) => {
                    assert(actions@ + sgr_actions(after) =~= before + (seq![a] + sgr_actions(
                        after,
                    )));
                },
                None => {},
            }
        }
        at += used;
    }
    assert(actions@ + Seq::<CSIAction>::empty() =~= actions@);
    actions
}

/// The DEC private mode with the number `p`.
fn get_dec_mode(p: i64) -> (mode: Option<DecPrivateMode>)
    ensures
        mode == dec_mode(p),
{
    if p == 1 {
        Some(DecPrivateMode::ApplicationCursorKeys)
    } else if p == 25 {
        Some(DecPrivateMode::ShowCursor)
    } else if p == 1049 {
        Some(DecPrivateMode::AlternateScreen)
    } else if p == 2004 {
        Some(DecPrivateMode::BracketedPaste)
    } else {
        None
    }
}

/// Decode the parameters of a DECSET (`on`) or DECRST sequence.
pub fn parse_dec_modes(params: &[i64], on: bool) -> (actions: Vec<CSIAction>)
    ensures
        actions@ == dec_mode_actions(params@, on),
{
    let mut actions: Vec<CSIAction> = Vec::new();
    let mut at: usize = 0;
    assert(params@.subrange(0, params@.len() as int) =~= params@);
    while at < params.len()
        invariant
            at <= params.len(),
            actions@ + dec_mode_actions(params@.subrange(at as int, params@.len() as int), on)
                == dec_mode_actions(params@, on),
        decreases params.len() - at,
    {
        let ghost before = actions@;
        let ghost rest = params@.subrange(at as int, params@.len() as int);
        let mode = get_dec_mode(params[at]);
        match mode {
            Some(m) => {
                actions.push(CSIAction::SetDecPrivateMode(m, on));
            },
            None => {},
        }
        proof {
            let after = params@.subrange(at + 1, params@.len() as int);
            assert(rest.drop_first() =~= after);
            assert(rest[0] == params@[at as int]);
            match mode {
                Some(m) => {
                    assert(actions@ + dec_mode_actions(after, on) =~= before + (seq![
                        CSIAction::SetDecPrivateMode(m, on),
                    ] + dec_mode_actions(after, on)));
                },
                None => {},
            }
        }
        at += 1;
    }
    assert(actions@ + Seq::<CSIAction>::empty() =~= actions@);
    actions
}

/// Decode the parameters of a set mode (`on`) or reset mode sequence.
pub fn parse_ansi_modes(params: &[i64], on: bool) -> (actions: Vec<CSIAction>)
    ensures
        actions@ == ansi_mode_actions(params@, on),
{
    let mut actions: Vec<CSIAction> = Vec::new();
    let mut at: usize = 0;
    assert(params@.subrange(0, params@.len() as int) =~= params@);
    while at < params.len()
        invariant
            at <= params.len(),
            actions@ + ansi_mode_actions(params@.subrange(at as int, params@.len() as int), on)
                == ansi_mode_actions(params@, on),
        decreases params.len() - at,
    {
        let ghost before = actions@;
        let ghost rest = params@.subrange(at as int, params@.len() as int);
        let known = params[at] == 20;
        if known {
            actions.push(CSIAction::SetNewLineMode(on));
        }
        proof {
            let after = params@.subrange(at + 1, params@.len() as int);
            assert(rest.drop_first() =~= after);
            assert(rest[0] == params@[at as int]);
            if known {
                assert(actions@ + ansi_mode_actions(after, on) =~= before + (seq![
                    CSIAction::SetNewLineMode(on),
                ] + ansi_mode_actions(after, on)));
            }
        }
        at += 1;
    }
    assert(actions@ + Seq::<CSIAction>::empty() =~= actions@);
    actions
}

/// A run of one action.
fn one(action: CSIAction) -> (actions: Vec<CSIAction>)
    ensures
        actions@ == seq![action],
{
    let mut actions: Vec<CSIAction> = Vec::new();
    actions.push(action);
    actions
}

/// Decode a sequence without intermediates.
fn parse_plain_csi(params: &[i64], byte: char) -> (actions: Vec<CSIAction>)
    ensures
        actions@ == plain_csi_actions(params@, byte),
{
    proof {
        reveal(plain_csi_actions);
    }
    let n = get_param_or(params, 0, 1);
    let sel = if params.len() == 0 {
        0
    } else {
        params[0]
    };
    if byte == '@' {
        one(CSIAction::InsertCharacter(n))
    } else if byte == 'A' {
        one(CSIAction::SetCursorXY { x: Position::Relative(0), y: Position::Relative(-n) })
    } else if byte == 'B' {
        one(CSIAction::SetCursorXY { x: Position::Relative(0), y: Position::Relative(n) })
    } else if byte == 'C' {
        one(CSIAction::SetCursorXY { x: Position::Relative(n), y: Position::Relative(0) })
    } else if byte == 'D' {
        one(CSIAction::SetCursorXY { x: Position::Relative(-n), y: Position::Relative(0) })
    } else if byte == 'E' {
        one(CSIAction::SetCursorXY { x: Position::Absolute(0), y: Position::Relative(n) })
    } else if byte == 'F' {
        one(CSIAction::SetCursorXY { x: Position::Absolute(0), y: Position::Relative(-n) })
    } else if byte == 'G' {
        one(CSIAction::SetCursorXY { x: Position::Absolute(n - 1), y: Position::Relative(0) })
    } else if byte == 'H' || byte == 'f' {
        let col = get_param_or(params, 1, 1);
        one(CSIAction::SetCursorXY { x: Position::Absolute(col - 1), y: Position::Absolute(n - 1) })
    } else if byte == 'I' {
        one(CSIAction::TabForward(n))
    } else if byte == 'Z' {
        one(CSIAction::TabBackward(n))
    } else if byte == 'J' {
        if sel == 0 {
            one(CSIAction::EraseInDisplay(DisplayErase::Below))
        } else if sel == 1 {
            one(CSIAction::EraseInDisplay(DisplayErase::Above))
        } else if sel == 2 {
            one(CSIAction::EraseInDisplay(DisplayErase::All))
        } else if sel == 3 {
            one(CSIAction::EraseInDisplay(DisplayErase::SavedLines))
        } else {
            Vec::new()
        }
    } else if byte == 'K' {
        if sel == 0 {
            one(CSIAction::EraseInLine(LineErase::ToRight))
        } else if sel == 1 {
            one(CSIAction::EraseInLine(LineErase::ToLeft))
        } else if sel == 2 {
            one(CSIAction::EraseInLine(LineErase::All))
        } else {
            Vec::new()
        }
    } else if byte == 'L' {
        one(CSIAction::InsertLines(n))
    } else if byte == 'M' {
        one(CSIAction::DeleteLines(n))
    } else if byte == 'P' {
        one(CSIAction::DeleteCharacter(n))
    } else if byte == 'S' {
        one(CSIAction::ScrollLines(-n))
    } else if byte == 'T' {
        one(CSIAction::ScrollLines(n))
    } else if byte == 'X' {
        one(CSIAction::EraseCharacter(n))
    } else if byte == 'c' {
        if sel == 0 {
            one(CSIAction::RequestDeviceAttributes)
        } else {
            Vec::new()
        }
    } else if byte == 'd' {
        one(CSIAction::LinePosition(Position::Absolute(n - 1)))
    } else if byte == 'h' {
        parse_ansi_modes(params, true)
    } else if byte == 'l' {
        parse_ansi_modes(params, false)
    } else if byte == 'm' {
        if params.len() == 0 {
            one(CSIAction::SetPen(CellAttributes::default()))
        } else {
            parse_sgr(params)
        }
    } else if byte == 'n' {
        if sel == 5 {
            one(CSIAction::DeviceStatusReport)
        } else if sel == 6 {
            one(CSIAction::ReportCursorPosition)
        } else {
            Vec::new()
        }
    } else if byte == 'r' {
        let bottom = if params.len() > 1 && params[1] > 0 {
            params[1] - 1
        } else {
            i64::MAX
        };
        one(CSIAction::SetScrollingRegion { top: n - 1, bottom })
    } else if byte == 's' {
        one(CSIAction::SaveCursor)
    } else if byte == 'u' {
        one(CSIAction::RestoreCursor)
    } else {
        Vec::new()
    }
}

/// Decode a control sequence into the actions it asks for.
pub fn parse_csi(params: &[i64], intermediates: &[u8], ignore: bool, byte: char) -> (actions: Vec<
    CSIAction,
>)
    ensures
        actions@ == csi_actions(params@, intermediates@, ignore, byte),
{
    proof {
        reveal(csi_actions);
    }
    if ignore {
        Vec::new()
    } else if intermediates.len() == 0 {
        parse_plain_csi(params, byte)
    } else if intermediates.len() == 1 && intermediates[0] == 0x3f && byte == 'h' {
        parse_dec_modes(params, true)
    } else if intermediates.len() == 1 && intermediates[0] == 0x3f && byte == 'l' {
        parse_dec_modes(params, false)
    } else if intermediates.len() == 1 && intermediates[0] == 0x21 && byte == 'p' {
        one(CSIAction::SoftReset)
    } else {
        Vec::new()
    }
}

} // verus!
