//! Bounds-checked writes of character/attribute cells into the 80x25 VGA
//! text framebuffer.
use vstd::prelude::*;
use vstd::string::StringSliceAdditionalSpecFns;

use crate::error::{KError, KErrorType};

verus! {

pub const VGA_WIDTH: usize = 80;
pub const VGA_HEIGHT: usize = 25;
/// Number of cells in the framebuffer.
pub const VGA_CELLS: usize = VGA_WIDTH * VGA_HEIGHT;

/// The sixteen VGA text-mode colors.
#[derive(Clone, Copy, Debug, PartialEq, Eq, Structural)]
pub enum VgaColor {
    Black,
    Blue,
    Green,
    Cyan,
    Red,
    Magenta,
    Brown,
    LightGrey,
    DarkGrey,
    LightBlue,
    LightGreen,
    LightCyan,
    LightRed,
    LightMagenta,
    LightBrown,
    White,
}

/// The 4-bit hardware code of a color.
pub open spec fn color_code(c: VgaColor) -> u8 {
    match c {
        VgaColor::Black => 0,
        VgaColor::Blue => 1,
        VgaColor::Green => 2,
        VgaColor::Cyan => 3,
        VgaColor::Red => 4,
        VgaColor::Magenta => 5,
        VgaColor::Brown => 6,
        VgaColor::LightGrey => 7,
        VgaColor::DarkGrey => 8,
        VgaColor::LightBlue => 9,
        VgaColor::LightGreen => 10,
        VgaColor::LightCyan => 11,
        VgaColor::LightRed => 12,
        VgaColor::LightMagenta => 13,
        VgaColor::LightBrown => 14,
        VgaColor::White => 15,
    }
}

/// The attribute byte: `(blink << 7) | (bg << 4) | fg`. A background code
/// of 8 or more shares bit 7 with blink.
pub open spec fn attribute_byte(fg: VgaColor, bg: VgaColor, blink: bool) -> u8 {
    (color_code(bg) << 4u8) | color_code(fg) | (if blink { 0x80u8 } else { 0 })
}

/// The framebuffer cell that shows byte `ch` with attribute `attr`: the
/// attribute in the high byte, the low seven bits of `ch` in the low byte.
pub open spec fn cell_value(ch: u8, attr: u8) -> u16 {
    (attr as int * 256 + (ch % 128) as int) as u16
}

/// `cells` after writing `text` from cell `offset` with attribute `attr`.
pub open spec fn cells_with_text(cells: Seq<u16>, text: Seq<u8>, offset: int, attr: u8) -> Seq<u16> {
    Seq::new(
        cells.len(),
        |i: int|
            if offset <= i < offset + text.len() {
                cell_value(text[i - offset], attr)
            } else {
                cells[i]
            },
    )
}

/// What a text framebuffer shows, its cells row after row, and every store
/// made to it so far, in order, as (cell index, cell value).
pub struct Screen {
    pub cells: Seq<u16>,
    pub writes: Seq<(int, u16)>,
}

/// The stores that write `text` from cell `offset` with attribute `attr`:
/// one per byte, left to right.
pub open spec fn text_writes(text: Seq<u8>, offset: int, attr: u8) -> Seq<(int, u16)> {
    Seq::new(text.len(), |i: int| (offset + i, cell_value(text[i], attr)))
}

/// A text framebuffer that takes whole cells.
pub trait TextCells {
    /// The contents of the framebuffer.
    spec fn screen(&self) -> Screen;

    /// Stores `pair` in cell `idx`, by one access that is never elided or
    /// reordered with the other stores.
    fn put_char(&mut self, pair: u16, idx: usize)
        requires
            idx < old(self).screen().cells.len(),
        ensures
            final(self).screen().cells == old(self).screen().cells.update(idx as int, pair),
            final(self).screen().writes == old(self).screen().writes.push((idx as int, pair)),
    ;
}

fn color_value(c: VgaColor) -> (r: u8)
    ensures
        r == color_code(c),
{
    match c {
        VgaColor::Black => 0,
        VgaColor::Blue => 1,
        VgaColor::Green => 2,
        VgaColor::Cyan => 3,
        VgaColor::Red => 4,
        VgaColor::Magenta => 5,
        VgaColor::Brown => 6,
        VgaColor::LightGrey => 7,
        VgaColor::DarkGrey => 8,
        VgaColor::LightBlue => 9,
        VgaColor::LightGreen => 10,
        VgaColor::LightCyan => 11,
        VgaColor::LightRed => 12,
        VgaColor::LightMagenta => 13,
        VgaColor::LightBrown => 14,
        VgaColor::White => 15,
    }
}

/// The attribute byte for foreground `fg`, background `bg` and `blink`.
pub fn get_vga_color(fg: VgaColor, bg: VgaColor, blink: bool) -> (r: u8)
    ensures
        r == attribute_byte(fg, bg, blink),
{
    let f = color_value(fg);
    let b = color_value(bg);
    let k: u8 = if blink { 1 } else { 0 };
    assert(k << 7u8 == if blink { 0x80u8 } else { 0 }) by {
        assert(1u8 << 7u8 == 0x80) by (bit_vector);
        assert(0u8 << 7u8 == 0) by (bit_vector);
    }
    (b << 4u8) | f | (k << 7u8)
}

/// The cell that shows byte `character` with attribute `color`.
fn get_byte_pair(character: u8, color: u8) -> (r: u16)
    ensures
        r == cell_value(character, color),
{
    assert(((color as u16) << 8u16) | ((character & 0x7F) as u16)
        == (color as int * 256 + (character % 128) as int) as u16) by (bit_vector);
    ((color as u16) << 8u16) | ((character & 0x7F) as u16)
}

/// The attribute used where the caller gives none: green on black, steady.
pub const TERM_COLOR: u8 = 0x02;

/// Writes `text` from cell `offset` with attribute `color`, or fails with
/// `InvalidInput`, writing nothing, where it would run past the last cell.
pub fn put_text_with_attribute<T: TextCells>(
    fb: &mut T,
    text: &str,
    offset: usize,
    color: u8,
) -> (r: Result<(), KError<'static>>)
    requires
        old(fb).screen().cells.len() == VGA_CELLS,
    ensures
        r.is_ok() <==> offset + text.spec_bytes().len() <= VGA_CELLS,
        r.is_ok() ==> final(fb).screen().cells == cells_with_text(
            old(fb).screen().cells,
            text.spec_bytes(),
            offset as int,
            color,
        ),
        r.is_ok() ==> final(fb).screen().writes == old(fb).screen().writes + text_writes(
            text.spec_bytes(),
            offset as int,
            color,
        ),
        r is Err ==> final(fb).screen() == old(fb).screen(),
        r matches Err(e) ==> e.error_type == KErrorType::InvalidInput,
{
    let bytes = text.as_bytes();
    if offset > VGA_CELLS || bytes.len() > VGA_CELLS - offset {
        return Err(KError::new(KErrorType::InvalidInput, "text length exceeds buffer capacity"));
    }
    let ghost start = old(fb).screen().cells;
    let ghost logged = old(fb).screen().writes;
    let mut i: usize = 0;
    while i < bytes.len()
        invariant
            bytes@ == text.spec_bytes(),
            offset + bytes@.len() <= VGA_CELLS,
            i <= bytes@.len(),
            start.len() == VGA_CELLS,
            fb.screen().cells == cells_with_text(start, bytes@.take(i as int), offset as int, color),
            fb.screen().writes == logged + text_writes(bytes@.take(i as int), offset as int, color),
        decreases bytes@.len() - i,
    {
        let pair = get_byte_pair(bytes[i], color);
        fb.put_char(pair, offset + i);
        i = i + 1;
        assert(fb.screen().cells =~= cells_with_text(start, bytes@.take(i as int), offset as int, color));
        assert(fb.screen().writes =~= logged + text_writes(bytes@.take(i as int), offset as int, color));
    }
    assert(bytes@.take(i as int) =~= bytes@);
    Ok(())
}

/// Writes `text` from cell 0 with the default attribute.
pub fn put_text<T: TextCells>(fb: &mut T, text: &str) -> (r: Result<(), KError<'static>>)
    requires
        old(fb).screen().cells.len() == VGA_CELLS,
    ensures
        r.is_ok() <==> text.spec_bytes().len() <= VGA_CELLS,
        r.is_ok() ==> final(fb).screen().cells == cells_with_text(old(fb).screen().cells, text.spec_bytes(), 0, TERM_COLOR),
        r.is_ok() ==> final(fb).screen().writes == old(fb).screen().writes + text_writes(
            text.spec_bytes(),
            0,
            TERM_COLOR,
        ),
        r is Err ==> final(fb).screen() == old(fb).screen(),
        r matches Err(e) ==> e.error_type == KErrorType::InvalidInput,
{
    put_text_offset(fb, text, 0)
}

/// Writes `text` from cell `offset` with the default attribute.
pub fn put_text_offset<T: TextCells>(fb: &mut T, text: &str, offset: usize) -> (r: Result<(), KError<'static>>)
    requires
        old(fb).screen().cells.len() == VGA_CELLS,
    ensures
        r.is_ok() <==> offset + text.spec_bytes().len() <= VGA_CELLS,
        r.is_ok() ==> final(fb).screen().cells == cells_with_text(
            old(fb).screen().cells,
            text.spec_bytes(),
            offset as int,
            TERM_COLOR,
        ),
        r.is_ok() ==> final(fb).screen().writes == old(fb).screen().writes + text_writes(
            text.spec_bytes(),
            offset as int,
            TERM_COLOR,
        ),
        r is Err ==> final(fb).screen() == old(fb).screen(),
        r matches Err(e) ==> e.error_type == KErrorType::InvalidInput,
{
    put_text_with_attribute(fb, text, offset, TERM_COLOR)
}

/// Writes `text` from cell `offset` in foreground `fg` on background `bg`,
/// blinking if `blink`.
pub fn put_text_offset_color<T: TextCells>(
    fb: &mut T,
    text: &str,
    offset: usize,
    fg: VgaColor,
    bg: VgaColor,
    blink: bool,
) -> (r: Result<(), KError<'static>>)
    requires
        old(fb).screen().cells.len() == VGA_CELLS,
    ensures
        r.is_ok() <==> offset + text.spec_bytes().len() <= VGA_CELLS,
        r.is_ok() ==> final(fb).screen().cells == cells_with_text(
            old(fb).screen().cells,
            text.spec_bytes(),
            offset as int,
            attribute_byte(fg, bg, blink),
        ),
        r.is_ok() ==> final(fb).screen().writes == old(fb).screen().writes + text_writes(
            text.spec_bytes(),
            offset as int,
            attribute_byte(fg, bg, blink),
        ),
        r is Err ==> final(fb).screen() == old(fb).screen(),
        r matches Err(e) ==> e.error_type == KErrorType::InvalidInput,
{
    let color = get_vga_color(fg, bg, blink);
    put_text_with_attribute(fb, text, offset, color)
}


/// Writing empty text at any offset within the framebuffer succeeds,
/// stores nothing and changes no cell.
pub proof fn lemma_empty_text_no_op(cells: Seq<u16>, text: Seq<u8>, offset: int, attr: u8)
    requires
        text.len() == 0,
        0 <= offset <= VGA_CELLS,
    ensures
        offset + text.len() <= VGA_CELLS,
        cells_with_text(cells, text, offset, attr) == cells,
        text_writes(text, offset, attr) == Seq::<(int, u16)>::empty(),
{
    assert(cells_with_text(cells, text, offset, attr) =~= cells);
    assert(text_writes(text, offset, attr) =~= Seq::<(int, u16)>::empty());
}

/// A framebuffer held in memory.
pub struct TextBuffer {
    cells: Vec<u16>,
    writes: Ghost<Seq<(int, u16)>>,
}

impl TextBuffer {
    /// A framebuffer of `VGA_CELLS` blank (zero) cells.
    pub fn new() -> (r: TextBuffer)
        ensures
            r.screen().cells == Seq::new(VGA_CELLS as nat, |i: int| 0u16),
            r.screen().writes == Seq::<(int, u16)>::empty(),
    {
        let mut cells: Vec<u16> = Vec::new();
        let mut i: usize = 0;
        while i < VGA_CELLS
            invariant
                i <= VGA_CELLS,
                cells@ == Seq::new(i as nat, |j: int| 0u16),
            decreases VGA_CELLS - i,
        {
            cells.push(0);
            i = i + 1;
            assert(cells@ =~= Seq::new(i as nat, |j: int| 0u16));
        }
        TextBuffer { cells, writes: Ghost(Seq::empty()) }
    }

    /// The cell at `idx`.
    pub fn cell(&self, idx: usize) -> (r: u16)
        requires
            idx < self.screen().cells.len(),
        ensures
            r == self.screen().cells[idx as int],
    {
        self.cells[idx]
    }
}

impl TextCells for TextBuffer {
    closed spec fn screen(&self) -> Screen {
        Screen { cells: self.cells@, writes: self.writes@ }
    }

    fn put_char(&mut self, pair: u16, idx: usize) {
        self.cells.set(idx, pair);
        self.writes = Ghost(self.writes@.push((idx as int, pair)));
    }
}

} // verus!
