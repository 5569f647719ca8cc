//! One grid cell: a grapheme of at most eight UTF-8 bytes and the packed
//! attributes it is drawn with.

use vstd::prelude::*;
use vstd::utf8::*;
use crate::color::ColorAttribute;
use crate::text::encode_char;

verus! {

/// The weight of the glyph strokes.
#[derive(Debug, Clone, Copy, PartialEq, Eq, Structural)]
pub enum Intensity {
    Normal,
    Bold,
    Half,
}

/// The underline style.
#[derive(Debug, Clone, Copy, PartialEq, Eq, Structural)]
pub enum Underline {
    Off,
    Single,
    Double,
}

/// Index of a hyperlink in the table of the terminal that owns the cell.
pub type HyperlinkId = usize;

/// What a `CellAttributes` value means, field by field.
pub struct AttrView {
    pub intensity: Intensity,
    pub underline: Underline,
    pub italic: bool,
    pub blink: bool,
    pub reverse: bool,
    pub strikethrough: bool,
    pub halfbright: bool,
    pub invisible: bool,
    pub foreground: ColorAttribute,
    pub background: ColorAttribute,
    pub hyperlink: Option<HyperlinkId>,
}

impl AttrView {
    /// The attributes of a cell nothing has been written to.
    pub open spec fn plain() -> AttrView {
        AttrView {
            intensity: Intensity::Normal,
            underline: Underline::Off,
            italic: false,
            blink: false,
            reverse: false,
            strikethrough: false,
            halfbright: false,
            invisible: false,
            foreground: ColorAttribute::Default,
            background: ColorAttribute::Default,
            hyperlink: None,
        }
    }
}

/// The rendition of a cell. Intensity takes bits 0-1 of the packed word,
/// underline bits 2-3, and italic, blink, reverse, strikethrough, halfbright
/// and invisible one bit each from bit 4 up.
#[derive(Debug, Clone, Copy, PartialEq, Eq, Structural)]
pub struct CellAttributes {
    attributes: u16,
    pub foreground: ColorAttribute,
    pub background: ColorAttribute,
    pub hyperlink: Option<HyperlinkId>,
}

/// The intensity that the two bits `bits` stand for.
spec fn intensity_of_bits(bits: u16) -> Intensity {
    if bits == 1 {
        Intensity::Bold
    } else if bits == 2 {
        Intensity::Half
    } else {
        Intensity::Normal
    }
}

/// The underline style that the two bits `bits` stand for.
spec fn underline_of_bits(bits: u16) -> Underline {
    if bits == 1 {
        Underline::Single
    } else if bits == 2 {
        Underline::Double
    } else {
        Underline::Off
    }
}

/// Whether bit `bit` of `word` is set.
spec fn bit_is_set(word: u16, bit: u16) -> bool {
    word & (1u16 << bit) != 0
}

impl View for CellAttributes {
    type V = AttrView;

    closed spec fn view(&self) -> AttrView {
        AttrView {
            intensity: intensity_of_bits(self.attributes & 3),
            underline: underline_of_bits((self.attributes >> 2) & 3),
            italic: bit_is_set(self.attributes, 4),
            blink: bit_is_set(self.attributes, 5),
            reverse: bit_is_set(self.attributes, 6),
            strikethrough: bit_is_set(self.attributes, 7),
            halfbright: bit_is_set(self.attributes, 8),
            invisible: bit_is_set(self.attributes, 9),
            foreground: self.foreground,
            background: self.background,
            hyperlink: self.hyperlink,
        }
    }
}

/// Whether `after` is `before` with the flag in bit `b` set to `value`, and
/// the intensity, the underline and every other flag as they were.
spec fn only_flag_changed(before: u16, after: u16, b: u16, value: bool) -> bool {
    &&& after & 3 == before & 3
    &&& (after >> 2) & 3 == (before >> 2) & 3
    &&& bit_is_set(after, b) == value
    &&& forall|other: u16| 4 <= other <= 9 && other != b ==> bit_is_set(after, other) == bit_is_set(before, other)
}

/// Writing one flag bit changes that flag and nothing else.
proof fn lemma_write_flag(before: u16, b: u16, value: bool)
    requires
        4 <= b <= 9,
    ensures
        only_flag_changed(
            before,
            (before & !(1u16 << b)) | (if value { 1u16 << b } else { 0u16 }),
            b,
            value,
        ),
{
    let on: u16 = if value { 1u16 << b } else { 0u16 };
    let after: u16 = (before & !(1u16 << b)) | on;
    assert(after & 3 == before & 3 && (after >> 2) & 3 == (before >> 2) & 3 && ((after & (1u16 << b)
        != 0) == value)) by (bit_vector)
        requires
            4 <= b <= 9,
            on == (if value { 1u16 << b } else { 0u16 }),
            after == (before & !(1u16 << b)) | on,
    ;
    assert forall|other: u16| 4 <= other <= 9 && other != b implies bit_is_set(after, other)
        == bit_is_set(before, other) by {
        assert((after & (1u16 << other) != 0) == (before & (1u16 << other) != 0)) by (bit_vector)
            requires
                4 <= b <= 9,
                4 <= other <= 9,
                other != b,
                on == (if value { 1u16 << b } else { 0u16 }),
                after == (before & !(1u16 << b)) | on,
        ;
    }
}

impl CellAttributes {
    /// The attributes of a cell nothing has been written to, as a value.
    pub closed spec fn plain() -> CellAttributes {
        CellAttributes {
            attributes: 0,
            foreground: ColorAttribute::Default,
            background: ColorAttribute::Default,
            hyperlink: None,
        }
    }

    /// The plain value reads as the plain view.
    pub proof fn lemma_plain_view()
        ensures
            Self::plain()@ == AttrView::plain(),
    {
        assert(0u16 & 3 == 0 && (0u16 >> 2) & 3 == 0 && (forall|b: u16|
            4 <= b <= 9 ==> 0u16 & (1u16 << b) == 0)) by (bit_vector);
    }

    /// Whether the flag in bit `b` is set.
    fn flag(&self, b: u16) -> (on: bool)
        requires
            4 <= b <= 9,
        ensures
            on == bit_is_set(self.attributes, b),
    {
        (self.attributes & (1u16 << b)) != 0
    }

    /// Set the flag in bit `b` to `value`.
    fn set_flag(&mut self, b: u16, value: bool)
        requires
            4 <= b <= 9,
        ensures
            only_flag_changed(old(self).attributes, final(self).attributes, b, value),
            final(self).foreground == old(self).foreground,
            final(self).background == old(self).background,
            final(self).hyperlink == old(self).hyperlink,
    {
        proof {
            lemma_write_flag(self.attributes, b, value);
        }
        let on: u16 = if value { 1u16 << b } else { 0u16 };
        self.attributes = (self.attributes & !(1u16 << b)) | on;
    }

    pub fn foreground(&self) -> (color: ColorAttribute)
        ensures
            color == self@.foreground,
    {
        self.foreground
    }

    pub fn set_foreground(&mut self, value: ColorAttribute)
        ensures
            final(self)@ == (AttrView { foreground: value, ..old(self)@ }),
    {
        self.foreground = value;
    }

    pub fn background(&self) -> (color: ColorAttribute)
        ensures
            color == self@.background,
    {
        self.background
    }

    pub fn set_background(&mut self, value: ColorAttribute)
        ensures
            final(self)@ == (AttrView { background: value, ..old(self)@ }),
    {
        self.background = value;
    }

    /// The hyperlink the cell belongs to, if any.
    pub fn hyperlink(&self) -> (link: Option<HyperlinkId>)
        ensures
            link == self@.hyperlink,
    {
        self.hyperlink
    }

    pub fn set_hyperlink(&mut self, value: Option<HyperlinkId>)
        ensures
            final(self)@ == (AttrView { hyperlink: value, ..old(self)@ }),
    {
        self.hyperlink = value;
    }

    pub fn intensity(&self) -> (level: Intensity)
        ensures
            level == self@.intensity,
    {
        let bits: u16 = self.attributes & 3;
        if bits == 1 {
            Intensity::Bold
        } else if bits == 2 {
            Intensity::Half
        } else {
            Intensity::Normal
        }
    }

    pub fn set_intensity(&mut self, value: Intensity)
        ensures
            final(self)@ == (AttrView { intensity: value, ..old(self)@ }),
    {
        let code: u16 = match value {
            Intensity::Normal => 0,
            Intensity::Bold => 1,
            Intensity::Half => 2,
        };
        let before: u16 = self.attributes;
        let after: u16 = (before & !3u16) | code;
        assert(after & 3 == code && (after >> 2) & 3 == (before >> 2) & 3 && (forall|b: u16|
            4 <= b <= 9 ==> (after & (1u16 << b) != 0) == (before & (1u16 << b) != 0)))
            by (bit_vector)
            requires
                code <= 2,
                after == (before & !3u16) | code,
        ;
        self.attributes = after;
    }

    pub fn underline(&self) -> (style: Underline)
        ensures
            style == self@.underline,
    {
        let bits: u16 = (self.attributes >> 2) & 3;
        if bits == 1 {
            Underline::Single
        } else if bits == 2 {
            Underline::Double
        } else {
            Underline::Off
        }
    }

    pub fn set_underline(&mut self, value: Underline)
        ensures
            final(self)@ == (AttrView { underline: value, ..old(self)@ }),
    {
        let code: u16 = match value {
            Underline::Off => 0,
            Underline::Single => 1,
            Underline::Double => 2,
        };
        let before: u16 = self.attributes;
        let after: u16 = (before & !12u16) | (code << 2);
        assert(after & 3 == before & 3 && (after >> 2) & 3 == code && (forall|b: u16|
            4 <= b <= 9 ==> (after & (1u16 << b) != 0) == (before & (1u16 << b) != 0)))
            by (bit_vector)
            requires
                code <= 2,
                after == (before & !12u16) | (code << 2),
        ;
        self.attributes = after;
    }

    pub fn italic(&self) -> (on: bool)
        ensures
            on == self@.italic,
    {
        self.flag(4)
    }

    pub fn set_italic(&mut self, value: bool)
        ensures
            final(self)@ == (AttrView { italic: value, ..old(self)@ }),
    {
        self.set_flag(4, value);
    }

    pub fn blink(&self) -> (on: bool)
        ensures
            on == self@.blink,
    {
        self.flag(5)
    }

    pub fn set_blink(&mut self, value: bool)
        ensures
            final(self)@ == (AttrView { blink: value, ..old(self)@ }),
    {
        self.set_flag(5, value);
    }

    pub fn reverse(&self) -> (on: bool)
        ensures
            on == self@.reverse,
    {
        self.flag(6)
    }

    pub fn set_reverse(&mut self, value: bool)
        ensures
            final(self)@ == (AttrView { reverse: value, ..old(self)@ }),
    {
        self.set_flag(6, value);
    }

    pub fn strikethrough(&self) -> (on: bool)
        ensures
            on == self@.strikethrough,
    {
        self.flag(7)
    }

    pub fn set_strikethrough(&mut self, value: bool)
        ensures
            final(self)@ == (AttrView { strikethrough: value, ..old(self)@ }),
    {
        self.set_flag(7, value);
    }

    pub fn halfbright(&self) -> (on: bool)
        ensures
            on == self@.halfbright,
    {
        self.flag(8)
    }

    pub fn set_halfbright(&mut self, value: bool)
        ensures
            final(self)@ == (AttrView { halfbright: value, ..old(self)@ }),
    {
        self.set_flag(8, value);
    }

    pub fn invisible(&self) -> (on: bool)
        ensures
            on == self@.invisible,
    {
        self.flag(9)
    }

    pub fn set_invisible(&mut self, value: bool)
        ensures
            final(self)@ == (AttrView { invisible: value, ..old(self)@ }),
    {
        self.set_flag(9, value);
    }
}

impl Default for CellAttributes {
    fn default() -> (attrs: CellAttributes)
        ensures
            attrs == CellAttributes::plain(),
            attrs@ == AttrView::plain(),
    {
        proof {
            CellAttributes::lemma_plain_view();
        }
        CellAttributes {
            attributes: 0,
            foreground: ColorAttribute::Default,
            background: ColorAttribute::Default,
            hyperlink: None,
        }
    }
}

/// The eight bytes a cell stores for the UTF-8 text `bytes`: its first eight
/// bytes, followed by zeros where it is shorter.
pub open spec fn zero_padded(bytes: Seq<u8>) -> Seq<u8> {
    Seq::new(
        8,
        |i: int|
            if i < bytes.len() {
                bytes[i]
            } else {
                0u8
            },
    )
}

/// The number of bytes of `bytes` before its first zero.
pub open spec fn text_len(bytes: Seq<u8>) -> nat
    decreases bytes.len(),
{
    if bytes.len() == 0 || bytes[0] == 0 {
        0
    } else {
        1 + text_len(bytes.drop_first())
    }
}

/// `text_len` is the one index that has no zero before it and a zero, or
/// the end, at it.
pub proof fn lemma_text_len(bytes: Seq<u8>, n: int)
    requires
        0 <= n <= bytes.len(),
        forall|j: int| 0 <= j < n ==> bytes[j] != 0,
        n == bytes.len() || bytes[n] == 0,
    ensures
        text_len(bytes) == n,
    decreases n,
{
    if n > 0 {
        let rest = bytes.drop_first();
        assert forall|j: int| 0 <= j < n - 1 implies rest[j] != 0 by {
            assert(rest[j] == bytes[j + 1]);
        }
        lemma_text_len(rest, n - 1);
    }
}

/// What a `Cell` holds: its eight stored bytes and its attributes.
pub struct CellView {
    pub bytes: Seq<u8>,
    pub attrs: AttrView,
}

impl CellView {
    /// The cell that shows the character `c`.
    pub open spec fn from_char(c: char, attrs: AttrView) -> CellView {
        CellView { bytes: zero_padded(encode_scalar(c as u32)), attrs }
    }

    /// The cell that shows the grapheme cluster `grapheme`, cut to eight bytes.
    pub open spec fn from_grapheme(grapheme: Seq<char>, attrs: AttrView) -> CellView {
        CellView { bytes: zero_padded(encode_utf8(grapheme)), attrs }
    }

    /// A space with plain attributes.
    pub open spec fn blank() -> CellView {
        Self::from_char(' ', AttrView::plain())
    }

    /// The stored bytes up to the first zero.
    pub open spec fn chars(self) -> Seq<u8> {
        self.bytes.subrange(0, text_len(self.bytes) as int)
    }

    /// The text the cell contributes to its line: its bytes decoded, or a
    /// question mark where they are not UTF-8.
    pub open spec fn text(self) -> Seq<char> {
        if valid_utf8(self.chars()) {
            decode_utf8(self.chars())
        } else {
            seq!['?']
        }
    }
}

/// One cell of the grid.
#[derive(Debug, Clone, Copy, PartialEq, Eq)]
pub struct Cell {
    chars: [u8; 8],
    pub attrs: CellAttributes,
}

impl View for Cell {
    type V = CellView;

    closed spec fn view(&self) -> CellView {
        CellView { bytes: self.chars@, attrs: self.attrs@ }
    }
}

impl Cell {
    /// The grapheme's bytes, without the zero padding.
    pub fn chars(&self) -> (bytes: &[u8])
        ensures
            bytes@ == self@.chars(),
    {
        let mut len: usize = 0;
        while len < 8 && self.chars[len] != 0
            invariant
                len <= 8,
                forall|j: int| 0 <= j < len ==> self.chars@[j] != 0,
            decreases 8 - len,
        {
            len += 1;
        }
        proof {
            lemma_text_len(self.chars@, len as int);
        }
        vstd::slice::slice_subrange(self.chars.as_slice(), 0, len)
    }

    /// The cell that shows `c` with the attributes `attr`.
    pub fn from_char(c: char, attr: &CellAttributes) -> (cell: Cell)
        ensures
            cell@ == CellView::from_char(c, attr@),
    {
        let bytes = encode_char(c);
        Cell::from_bytes(bytes.as_slice(), attr)
    }

    /// The cell that shows the text `bytes`, cut to eight bytes.
    pub fn from_bytes(bytes: &[u8], attr: &CellAttributes) -> (cell: Cell)
        ensures
            cell@ == (CellView { bytes: zero_padded(bytes@), attrs: attr@ }),
    {
        let mut chars = [0u8;8];
        let mut i: usize = 0;
        while i < 8 && i < bytes.len()
            invariant
                i <= 8,
                i <= bytes.len(),
                forall|j: int| 0 <= j < i ==> chars@[j] == bytes@[j],
                forall|j: int| i <= j < 8 ==> chars@[j] == 0,
            decreases 8 - i,
        {
            chars[i] = bytes[i];
            i += 1;
        }
        assert(chars@ =~= zero_padded(bytes@));
        Cell { chars, attrs: *attr }
    }

    /// The cell's attributes.
    pub fn attrs(&self) -> (attrs: CellAttributes)
        ensures
            attrs@ == self@.attrs,
    {
        self.attrs
    }
}

impl Default for Cell {
    fn default() -> (cell: Cell)
        ensures
            cell@ == CellView::blank(),
    {
        Cell::from_char(' ', &CellAttributes::default())
    }
}

} // verus!
