//! The text console: a fixed 80x25 grid of two-byte cells, a cursor, a
//! two-class color palette, and the write/scroll logic, together with the
//! scoped panic-mode writer that borrows the console for error reporting.

use vstd::prelude::*;
use vstd::string::StrSliceExecFns;
use vstd::string::StringSliceAdditionalSpecFns;

verus! {

/// Number of rows of the text grid.
pub const BUFFER_HEIGHT: usize = 25;
/// Number of columns of the text grid.
pub const BUFFER_WIDTH: usize = 80;
/// Index of the bottom row.
pub const LAST_ROW: usize = BUFFER_HEIGHT - 1;
/// Glyph written in place of a byte that is neither printable ASCII nor newline.
pub const PLACEHOLDER_CHAR: u8 = 0xfe;

/// The 16 colors of the text-mode palette, in hardware order.
#[derive(Clone, Copy, Debug, PartialEq, Eq, Structural)]
pub enum Color {
    Black,
    Blue,
    Green,
    Cyan,
    Red,
    Magenta,
    Brown,
    LightGray,
    DarkGray,
    LightBlue,
    LightGreen,
    LightCyan,
    LightRed,
    Pink,
    Yellow,
    White,
}

impl Color {
    /// The 4-bit hardware code of this color.
    pub open spec fn code_spec(self) -> u8 {
        match self {
            Color::Black => 0,
            Color::Blue => 1,
            Color::Green => 2,
            Color::Cyan => 3,
            Color::Red => 4,
            Color::Magenta => 5,
            Color::Brown => 6,
            Color::LightGray => 7,
            Color::DarkGray => 8,
            Color::LightBlue => 9,
            Color::LightGreen => 10,
            Color::LightCyan => 11,
            Color::LightRed => 12,
            Color::Pink => 13,
            Color::Yellow => 14,
            Color::White => 15,
        }
    }

    /// The color that a 4-bit hardware code denotes.
    pub open spec fn color_of(code: u8) -> Color {
        if code == 0 {
            Color::Black
        } else if code == 1 {
            Color::Blue
        } else if code == 2 {
            Color::Green
        } else if code == 3 {
            Color::Cyan
        } else if code == 4 {
            Color::Red
        } else if code == 5 {
            Color::Magenta
        } else if code == 6 {
            Color::Brown
        } else if code == 7 {
            Color::LightGray
        } else if code == 8 {
            Color::DarkGray
        } else if code == 9 {
            Color::LightBlue
        } else if code == 10 {
            Color::LightGreen
        } else if code == 11 {
            Color::LightCyan
        } else if code == 12 {
            Color::LightRed
        } else if code == 13 {
            Color::Pink
        } else if code == 14 {
            Color::Yellow
        } else {
            Color::White
        }
    }

    /// The hardware code of this color, as a value.
    pub fn code(self) -> (c: u8)
        ensures
            c == self.code_spec(),
            c < 16,
    {
        match self {
            Color::Black => 0,
            Color::Blue => 1,
            Color::Green => 2,
            Color::Cyan => 3,
            Color::Red => 4,
            Color::Magenta => 5,
            Color::Brown => 6,
            Color::LightGray => 7,
            Color::DarkGray => 8,
            Color::LightBlue => 9,
            Color::LightGreen => 10,
            Color::LightCyan => 11,
            Color::LightRed => 12,
            Color::Pink => 13,
            Color::Yellow => 14,
            Color::White => 15,
        }
    }

    /// The color denoted by a 4-bit hardware code.
    pub fn from_code(code: u8) -> (c: Color)
        requires
            code < 16,
        ensures
            c == Color::color_of(code),
            c.code_spec() == code,
    {
        let c = if code == 0 {
            Color::Black
        } else if code == 1 {
            Color::Blue
        } else if code == 2 {
            Color::Green
        } else if code == 3 {
            Color::Cyan
        } else if code == 4 {
            Color::Red
        } else if code == 5 {
            Color::Magenta
        } else if code == 6 {
            Color::Brown
        } else if code == 7 {
            Color::LightGray
        } else if code == 8 {
            Color::DarkGray
        } else if code == 9 {
            Color::LightBlue
        } else if code == 10 {
            Color::LightGreen
        } else if code == 11 {
            Color::LightCyan
        } else if code == 12 {
            Color::LightRed
        } else if code == 13 {
            Color::Pink
        } else if code == 14 {
            Color::Yellow
        } else {
            Color::White
        };
        c
    }

    /// Decoding the code of a color gives the color back.
    pub proof fn lemma_color_of_code(c: Color)
        ensures
            Color::color_of(c.code_spec()) == c,
    {
    }
}

/// The packed color byte of a grid cell: background in the high four bits,
/// foreground in the low four.
#[derive(Clone, Copy, Debug, PartialEq, Eq, Structural)]
pub struct ColorCode(u8);

impl View for ColorCode {
    type V = u8;

    closed spec fn view(&self) -> u8 {
        self.0
    }
}

impl ColorCode {
    /// Packs a foreground and a background color into one byte.
    pub fn new(foreground: Color, background: Color) -> (r: ColorCode)
        ensures
            r@ == background.code_spec() * 16 + foreground.code_spec(),
    {
        let f = foreground.code();
        let b = background.code();
        let packed = (b << 4) | f;
        proof {
            assert(b < 16 && f < 16 ==> ((b << 4) | f) == b * 16 + f) by (bit_vector);
        }
        ColorCode(packed)
    }

    /// The packed byte itself, as the hardware cell stores it.
    pub fn byte(self) -> (b: u8)
        ensures
            b == self@,
    {
        self.0
    }

    /// The foreground color of the packed byte.
    pub fn foreground(self) -> (c: Color)
        ensures
            c == Color::color_of(self@ % 16),
    {
        let low = self.0 & 0x0f;
        proof {
            let r = self.0;
            assert((r & 0x0f) == r % 16 && (r & 0x0f) < 16) by (bit_vector);
        }
        Color::from_code(low)
    }

    /// The background color of the packed byte.
    pub fn background(self) -> (c: Color)
        ensures
            c == Color::color_of(self@ / 16),
    {
        let high = self.0 >> 4;
        proof {
            let r = self.0;
            assert((r >> 4) == r / 16 && (r >> 4) < 16) by (bit_vector);
        }
        Color::from_code(high)
    }

    /// Color packing round-trips: decomposing the byte packed from any
    /// foreground/background pair recovers the pair exactly.
    pub proof fn lemma_roundtrip(foreground: Color, background: Color)
        ensures
            Color::color_of(((background.code_spec() * 16 + foreground.code_spec()) as u8) % 16)
                == foreground,
            Color::color_of(((background.code_spec() * 16 + foreground.code_spec()) as u8) / 16)
                == background,
    {
        let f = foreground.code_spec();
        let b = background.code_spec();
        assert(f < 16 && b < 16);
        let packed = (b * 16 + f) as u8;
        assert(packed == b * 16 + f);
        assert(packed % 16 == f && packed / 16 == b) by (nonlinear_arith)
            requires
                packed == b * 16 + f,
                f < 16,
                b < 16,
        ;
        Color::lemma_color_of_code(foreground);
        Color::lemma_color_of_code(background);
    }
}

/// The classes of text that can be written to the console.
#[derive(Clone, Copy, Debug, PartialEq, Eq, Structural)]
pub enum TextType {
    Text,
    Error,
}

/// The colors used for the two classes of text.
#[derive(Clone, Copy, Debug, PartialEq, Eq, Structural)]
pub struct Pallet {
    pub text: ColorCode,
    pub error: ColorCode,
}

impl Pallet {
    /// The color that this palette assigns to a class of text.
    pub open spec fn color_spec(self, ty: TextType) -> ColorCode {
        match ty {
            TextType::Text => self.text,
            TextType::Error => self.error,
        }
    }

    /// The color to use for the given class of text.
    pub fn color(&self, ty: TextType) -> (c: ColorCode)
        ensures
            c == self.color_spec(ty),
    {
        match ty {
            TextType::Text => self.text,
            TextType::Error => self.error,
        }
    }
}

/// A byte as it reaches the grid: printable ASCII (space through tilde) and
/// newline pass through, everything else becomes the placeholder glyph.
pub open spec fn sanitize_spec(b: u8) -> u8 {
    if (32 <= b && b <= 126) || b == 10 {
        b
    } else {
        PLACEHOLDER_CHAR
    }
}

/// Maps a byte to what the console may display for it: itself when printable
/// ASCII or newline, the placeholder glyph otherwise.
pub fn byte_to_ascii(unicode_byte: u8) -> (r: u8)
    ensures
        r == sanitize_spec(unicode_byte),
{
    if (32 <= unicode_byte && unicode_byte <= 126) || unicode_byte == 10 {
        unicode_byte
    } else {
        PLACEHOLDER_CHAR
    }
}

/// A byte sequence after placeholder substitution.
pub open spec fn sanitized(bs: Seq<u8>) -> Seq<u8> {
    bs.map_values(|b: u8| sanitize_spec(b))
}

/// The contents of a single cell of the text grid: a glyph byte and its
/// packed color byte, the hardware's two-byte cell format.
#[derive(Clone, Copy, Debug, PartialEq, Eq, Structural)]
pub struct ScreenChar {
    pub ascii_char: u8,
    pub color_code: ColorCode,
}

/// Number of cells of the grid, row-major.
pub const GRID_CELLS: usize = BUFFER_HEIGHT * BUFFER_WIDTH;
/// First cell of the bottom row; also the number of cells that move on a scroll.
pub const SCROLL_CELLS: usize = GRID_CELLS - BUFFER_WIDTH;

/// Mathematical state of the console: the grid (row-major), the cursor, and
/// the palette.
#[verifier::ext_equal]
pub struct WriterView {
    pub grid: Seq<ScreenChar>,
    pub row: int,
    pub col: int,
    pub pallet: Pallet,
}

/// A console state that the writer maintains: a full grid, the cursor inside
/// it (the column may rest one past the last cell, forcing a newline on the
/// next write).
pub open spec fn wf_view(v: WriterView) -> bool {
    &&& v.grid.len() == GRID_CELLS
    &&& 0 <= v.row <= LAST_ROW
    &&& 0 <= v.col <= BUFFER_WIDTH
}

/// The blank cell that a scroll leaves on the bottom row: a space in the
/// palette's normal color.
pub open spec fn blank_char(p: Pallet) -> ScreenChar {
    ScreenChar { ascii_char: 32, color_code: p.text }
}

/// The grid after a destructive scroll: every row takes the contents of the
/// row below it, and the bottom row becomes blank.
pub open spec fn scrolled(g: Seq<ScreenChar>, blank: ScreenChar) -> Seq<ScreenChar> {
    Seq::new(g.len(), |i: int| if i + BUFFER_WIDTH < g.len() { g[i + BUFFER_WIDTH] } else { blank })
}

/// Cursor advance to the next row: moves down, or scrolls when already on the
/// bottom row; either way the column returns to the left edge.
pub open spec fn new_line_spec(v: WriterView) -> WriterView {
    if v.row == LAST_ROW {
        WriterView { grid: scrolled(v.grid, blank_char(v.pallet)), row: v.row, col: 0, pallet: v.pallet }
    } else {
        WriterView { grid: v.grid, row: v.row + 1, col: 0, pallet: v.pallet }
    }
}

/// Writing one non-newline byte: an implicit newline first when the row is
/// full, then the byte lands under the cursor in the class's color and the
/// cursor moves right.
pub open spec fn put_spec(v: WriterView, b: u8, ty: TextType) -> WriterView {
    let v1 = if v.col >= BUFFER_WIDTH { new_line_spec(v) } else { v };
    WriterView {
        grid: v1.grid.update(
            v1.row * (BUFFER_WIDTH as int) + v1.col,
            ScreenChar { ascii_char: b, color_code: v1.pallet.color_spec(ty) },
        ),
        row: v1.row,
        col: v1.col + 1,
        pallet: v1.pallet,
    }
}

/// Writing one byte: a newline advances the cursor, any other byte lands on
/// the grid.
pub open spec fn write_byte_spec(v: WriterView, b: u8, ty: TextType) -> WriterView {
    if b == 10 {
        new_line_spec(v)
    } else {
        put_spec(v, b, ty)
    }
}

/// Writing a byte sequence, left to right.
pub open spec fn write_bytes_spec(v: WriterView, bs: Seq<u8>, ty: TextType) -> WriterView
    decreases bs.len(),
{
    if bs.len() == 0 {
        v
    } else {
        write_byte_spec(write_bytes_spec(v, bs.drop_last(), ty), bs.last(), ty)
    }
}

/// Writing a byte preserves well-formedness and never touches the palette.
pub proof fn lemma_write_byte_spec_wf(v: WriterView, b: u8, ty: TextType)
    requires
        wf_view(v),
    ensures
        wf_view(write_byte_spec(v, b, ty)),
        write_byte_spec(v, b, ty).pallet == v.pallet,
{
}

/// Writing any byte sequence preserves well-formedness and the palette.
pub proof fn lemma_write_bytes_spec_wf(v: WriterView, bs: Seq<u8>, ty: TextType)
    requires
        wf_view(v),
    ensures
        wf_view(write_bytes_spec(v, bs, ty)),
        write_bytes_spec(v, bs, ty).pallet == v.pallet,
    decreases bs.len(),
{
    if bs.len() > 0 {
        lemma_write_bytes_spec_wf(v, bs.drop_last(), ty);
        lemma_write_byte_spec_wf(write_bytes_spec(v, bs.drop_last(), ty), bs.last(), ty);
    }
}

/// Writes to the text grid: owns the grid cells, the cursor and the palette.
/// Constructed once at startup as the sole handle to the display; every call
/// site reaches it behind the interrupt-masking lock of the embedding.
pub struct Writer {
    row_position: usize,
    col_position: usize,
    pallet: Pallet,
    buffer: Vec<ScreenChar>,
}

impl View for Writer {
    type V = WriterView;

    closed spec fn view(&self) -> WriterView {
        WriterView {
            grid: self.buffer@,
            row: self.row_position as int,
            col: self.col_position as int,
            pallet: self.pallet,
        }
    }
}

impl Writer {
    /// The writer's state is a well-formed console state.
    pub open spec fn wf(&self) -> bool {
        wf_view(self@)
    }

    /// A fresh console: blank grid, cursor at the left edge of the bottom row.
    pub fn new(pallet: Pallet) -> (w: Writer)
        ensures
            w.wf(),
            w@.row == LAST_ROW,
            w@.col == 0,
            w@.pallet == pallet,
            w@.grid == Seq::new(GRID_CELLS as nat, |i: int| blank_char(pallet)),
    {
        let blank = ScreenChar { ascii_char: 32, color_code: pallet.color(TextType::Text) };
        let mut buffer: Vec<ScreenChar> = Vec::new();
        let mut i: usize = 0;
        while i < GRID_CELLS
            invariant
                i <= GRID_CELLS,
                buffer@.len() == i,
                forall|j: int| 0 <= j < i ==> buffer@[j] == blank_char(pallet),
                blank == blank_char(pallet),
            decreases GRID_CELLS - i,
        {
            buffer.push(blank);
            i += 1;
        }
        let w = Writer { row_position: LAST_ROW, col_position: 0, pallet, buffer };
        proof {
            assert(w@.grid =~= Seq::new(GRID_CELLS as nat, |j: int| blank_char(pallet)));
        }
        w
    }

    /// The cursor's row.
    pub fn row_position(&self) -> (r: usize)
        ensures
            r == self@.row,
    {
        self.row_position
    }

    /// The cursor's column.
    pub fn col_position(&self) -> (c: usize)
        ensures
            c == self@.col,
    {
        self.col_position
    }

    /// The cell at a grid position.
    pub fn cell_at(&self, row: usize, col: usize) -> (sc: ScreenChar)
        requires
            self.wf(),
            row < BUFFER_HEIGHT,
            col < BUFFER_WIDTH,
        ensures
            sc == self@.grid[row * (BUFFER_WIDTH as int) + col],
    {
        self.buffer[row * BUFFER_WIDTH + col]
    }

    /// Shifts all rows up by one and blanks the bottom row with the normal
    /// class's color; the cursor does not move.
    fn shift_up(&mut self)
        requires
            old(self).wf(),
        ensures
            final(self).wf(),
            final(self)@ == (WriterView {
                grid: scrolled(old(self)@.grid, blank_char(old(self)@.pallet)),
                row: old(self)@.row,
                col: old(self)@.col,
                pallet: old(self)@.pallet,
            }),
    {
        let ghost g0 = self@;
        let mut i: usize = 0;
        while i < SCROLL_CELLS
            invariant
                i <= SCROLL_CELLS,
                self.buffer@.len() == GRID_CELLS,
                g0.grid.len() == GRID_CELLS,
                forall|j: int| 0 <= j < i ==> self.buffer@[j] == g0.grid[j + BUFFER_WIDTH],
                forall|j: int| i <= j < GRID_CELLS ==> self.buffer@[j] == g0.grid[j],
                self.row_position == g0.row,
                self.col_position == g0.col,
                self.pallet == g0.pallet,
            decreases SCROLL_CELLS - i,
        {
            let c = self.buffer[i + BUFFER_WIDTH];
            self.buffer[i] = c;
            i += 1;
        }
        let blank = ScreenChar { ascii_char: 32, color_code: self.pallet.color(TextType::Text) };
        while i < GRID_CELLS
            invariant
                SCROLL_CELLS <= i <= GRID_CELLS,
                self.buffer@.len() == GRID_CELLS,
                g0.grid.len() == GRID_CELLS,
                forall|j: int| 0 <= j < SCROLL_CELLS ==> self.buffer@[j] == g0.grid[j + BUFFER_WIDTH],
                forall|j: int| SCROLL_CELLS <= j < i ==> self.buffer@[j] == blank_char(g0.pallet),
                self.row_position == g0.row,
                self.col_position == g0.col,
                self.pallet == g0.pallet,
                blank == blank_char(g0.pallet),
            decreases GRID_CELLS - i,
        {
            self.buffer[i] = blank;
            i += 1;
        }
        proof {
            assert(self.buffer@ =~= scrolled(g0.grid, blank_char(g0.pallet)));
        }
    }

    /// Advances to the next row, scrolling when already on the bottom row.
    fn new_line(&mut self)
        requires
            old(self).wf(),
        ensures
            final(self).wf(),
            final(self)@ == new_line_spec(old(self)@),
    {
        if self.row_position == LAST_ROW {
            self.shift_up();
        } else {
            self.row_position += 1;
        }
        self.col_position = 0;
    }

    /// Writes a single byte at the cursor, advancing it; a newline byte only
    /// moves the cursor.
    fn write_byte(&mut self, byte: u8, ty: TextType)
        requires
            old(self).wf(),
        ensures
            final(self).wf(),
            final(self)@ == write_byte_spec(old(self)@, byte, ty),
    {
        if byte == 10 {
            self.new_line();
        } else {
            if self.col_position >= BUFFER_WIDTH {
                self.new_line();
            }
            let row = self.row_position;
            let col = self.col_position;
            let color_code = self.pallet.color(ty);
            let idx = row * BUFFER_WIDTH + col;
            self.buffer[idx] = ScreenChar { ascii_char: byte, color_code };
            self.col_position = self.col_position + 1;
        }
    }

    /// Writes a sequence of code-page glyph bytes, using the color for `ty`.
    pub fn write_bytes(&mut self, bytes: &[u8], ty: TextType)
        requires
            old(self).wf(),
        ensures
            final(self).wf(),
            final(self)@ == write_bytes_spec(old(self)@, bytes@, ty),
    {
        let ghost v0 = self@;
        let mut k: usize = 0;
        while k < bytes.len()
            invariant
                k <= bytes@.len(),
                wf_view(v0),
                self.wf(),
                self@ == write_bytes_spec(v0, bytes@.take(k as int), ty),
            decreases bytes@.len() - k,
        {
            let b = bytes[k];
            proof {
                assert(bytes@.take(k as int + 1).drop_last() =~= bytes@.take(k as int));
                assert(bytes@.take(k as int + 1).last() == bytes@[k as int]);
            }
            self.write_byte(b, ty);
            k += 1;
        }
        proof {
            assert(bytes@.take(bytes@.len() as int) =~= bytes@);
        }
    }

    /// Writes a string, using the color for `ty`; every byte that is neither
    /// printable ASCII nor newline reaches the grid as the placeholder glyph.
    pub fn write_string(&mut self, s: &str, ty: TextType)
        requires
            old(self).wf(),
        ensures
            final(self).wf(),
            final(self)@ == write_bytes_spec(old(self)@, sanitized(s.spec_bytes()), ty),
    {
        let bs = s.as_bytes_vec();
        let mut out: Vec<u8> = Vec::new();
        let mut k: usize = 0;
        while k < bs.len()
            invariant
                k <= bs@.len(),
                out@.len() == k,
                forall|j: int| 0 <= j < k ==> out@[j] == sanitize_spec(bs@[j]),
                bs@ == s.spec_bytes(),
            decreases bs@.len() - k,
        {
            let b = byte_to_ascii(bs[k]);
            out.push(b);
            k += 1;
        }
        proof {
            assert(out@ =~= sanitized(s.spec_bytes()));
        }
        self.write_bytes(out.as_slice(), ty);
    }

    /// Enters panic mode: records the cursor, moves it to the top-left
    /// corner, and hands out the panic writer, which writes in the error
    /// class. The writer is taken by value, so a nested session can only
    /// start from the inner handle and restores its own entry point first.
    pub fn enter_panic_mode(self) -> (p: PanicWriter)
        requires
            self.wf(),
        ensures
            p.wf(),
            p.inner() == enter_panic_spec(self@),
            p.saved_row() == self@.row,
            p.saved_col() == self@.col,
    {
        let saved_row = self.row_position;
        let saved_col = self.col_position;
        let mut w = self;
        w.row_position = 0;
        w.col_position = 0;
        PanicWriter { writer: w, saved_row, saved_col }
    }
}

/// The console state on entering panic mode: same grid and palette, cursor
/// forced to the top-left corner.
pub open spec fn enter_panic_spec(v: WriterView) -> WriterView {
    WriterView { grid: v.grid, row: 0, col: 0, pallet: v.pallet }
}

/// The console state on leaving panic mode: same grid and palette, cursor
/// restored to the recorded position.
pub open spec fn leave_panic_spec(v: WriterView, row: int, col: int) -> WriterView {
    WriterView { grid: v.grid, row, col, pallet: v.pallet }
}

/// A scoped panic-mode writer: borrows the console exclusively, writes in
/// the error class from the top row, and on `leave` restores the cursor it
/// recorded on entry.
pub struct PanicWriter {
    writer: Writer,
    saved_row: usize,
    saved_col: usize,
}

impl PanicWriter {
    /// The state of the borrowed console.
    pub closed spec fn inner(&self) -> WriterView {
        self.writer@
    }

    /// The recorded cursor row.
    pub closed spec fn saved_row(&self) -> int {
        self.saved_row as int
    }

    /// The recorded cursor column.
    pub closed spec fn saved_col(&self) -> int {
        self.saved_col as int
    }

    /// The borrowed console is well formed and the recorded cursor lies
    /// inside it.
    pub open spec fn wf(&self) -> bool {
        &&& wf_view(self.inner())
        &&& 0 <= self.saved_row() <= LAST_ROW
        &&& 0 <= self.saved_col() <= BUFFER_WIDTH
    }

    /// Writes glyph bytes in the error class; the recorded cursor is untouched.
    pub fn write_bytes(&mut self, bytes: &[u8])
        requires
            old(self).wf(),
        ensures
            final(self).wf(),
            final(self).inner() == write_bytes_spec(old(self).inner(), bytes@, TextType::Error),
            final(self).saved_row() == old(self).saved_row(),
            final(self).saved_col() == old(self).saved_col(),
    {
        self.writer.write_bytes(bytes, TextType::Error);
    }

    /// Writes a string in the error class, with placeholder substitution;
    /// the recorded cursor is untouched.
    pub fn write_string(&mut self, s: &str)
        requires
            old(self).wf(),
        ensures
            final(self).wf(),
            final(self).inner() == write_bytes_spec(
                old(self).inner(),
                sanitized(s.spec_bytes()),
                TextType::Error,
            ),
            final(self).saved_row() == old(self).saved_row(),
            final(self).saved_col() == old(self).saved_col(),
    {
        self.writer.write_string(s, TextType::Error);
    }

    /// Leaves panic mode, giving the console back with the cursor restored
    /// to where it stood on entry.
    pub fn leave(self) -> (w: Writer)
        requires
            self.wf(),
        ensures
            w.wf(),
            w@ == leave_panic_spec(self.inner(), self.saved_row(), self.saved_col()),
    {
        let PanicWriter { writer, saved_row, saved_col } = self;
        let mut w = writer;
        w.row_position = saved_row;
        w.col_position = saved_col;
        w
    }
}

/// Row-major index arithmetic of the grid.
pub proof fn lemma_grid_index(r: int, c: int)
    requires
        0 <= r < BUFFER_HEIGHT,
        0 <= c < BUFFER_WIDTH,
    ensures
        0 <= r * (BUFFER_WIDTH as int) + c < GRID_CELLS,
        r * (BUFFER_WIDTH as int) + c + (BUFFER_WIDTH as int) == (r + 1) * (BUFFER_WIDTH as int)
            + c,
        (r + 1 < BUFFER_HEIGHT) <==> (r * (BUFFER_WIDTH as int) + c + (BUFFER_WIDTH as int)
            < GRID_CELLS),
{
    assert(BUFFER_WIDTH == 80 && BUFFER_HEIGHT == 25 && GRID_CELLS == 2000);
    assert((0 <= r * 80 + c < 2000) && (r * 80 + c + 80 == (r + 1) * 80 + c) && ((r + 1 < 25)
        <==> (r * 80 + c + 80 < 2000))) by (nonlinear_arith)
        requires
            0 <= r < 25,
            0 <= c < 80,
    ;
}

/// Placeholder substitution as it lands on the grid: writing the sanitized
/// form of any byte puts the byte itself in the cell under the cursor when
/// the byte is printable ASCII, the placeholder glyph when it is anything
/// else, while a newline byte only moves the cursor.
pub proof fn lemma_placeholder_substitution(v: WriterView, b: u8, ty: TextType)
    requires
        wf_view(v),
    ensures
        32 <= b <= 126 ==> sanitize_spec(b) == b,
        b == 10 ==> write_byte_spec(v, sanitize_spec(b), ty) == new_line_spec(v),
        b != 10 ==> ({
            let v1 = if v.col >= BUFFER_WIDTH { new_line_spec(v) } else { v };
            let target = v1.row * (BUFFER_WIDTH as int) + v1.col;
            write_byte_spec(v, sanitize_spec(b), ty).grid[target] == (ScreenChar {
                ascii_char: if 32 <= b <= 126 { b } else { PLACEHOLDER_CHAR },
                color_code: v.pallet.color_spec(ty),
            })
        }),
{
    if b != 10 {
        let v1 = if v.col >= BUFFER_WIDTH { new_line_spec(v) } else { v };
        lemma_grid_index(v1.row, v1.col);
    }
}

/// The grid after k destructive scrolls.
pub open spec fn scroll_n(g: Seq<ScreenChar>, blank: ScreenChar, k: nat) -> Seq<ScreenChar>
    decreases k,
{
    if k == 0 {
        g
    } else {
        scrolled(scroll_n(g, blank, (k - 1) as nat), blank)
    }
}

/// Scroll correctness: after k scrolls of a full grid, every cell of row r
/// holds what row r + k held before the scrolling began, as long as that row
/// existed; every other row, the bottom row among them, is blank.
pub proof fn lemma_scroll_correctness(g: Seq<ScreenChar>, blank: ScreenChar, k: nat, r: int, c: int)
    requires
        g.len() == GRID_CELLS,
        1 <= k,
        0 <= r < BUFFER_HEIGHT,
        0 <= c < BUFFER_WIDTH,
    ensures
        scroll_n(g, blank, k).len() == GRID_CELLS,
        r + k < BUFFER_HEIGHT ==> scroll_n(g, blank, k)[r * (BUFFER_WIDTH as int) + c] == g[(r
            + k) * (BUFFER_WIDTH as int) + c],
        r + k >= BUFFER_HEIGHT ==> scroll_n(g, blank, k)[r * (BUFFER_WIDTH as int) + c] == blank,
    decreases k,
{
    let w = BUFFER_WIDTH as int;
    let idx = r * w + c;
    lemma_grid_index(r, c);
    if k == 1 {
        assert(scroll_n(g, blank, 0) == g);
        if r + 1 < BUFFER_HEIGHT {
            assert(scrolled(g, blank)[idx] == g[idx + w]);
        } else {
            assert(scrolled(g, blank)[idx] == blank);
        }
    } else {
        let h = scroll_n(g, blank, (k - 1) as nat);
        lemma_scroll_correctness(g, blank, (k - 1) as nat, r, c);
        if r + 1 < BUFFER_HEIGHT {
            lemma_scroll_correctness(g, blank, (k - 1) as nat, r + 1, c);
            assert(scrolled(h, blank)[idx] == h[idx + w]);
            assert(h[idx + w] == h[(r + 1) * w + c]);
        } else {
            assert(scrolled(h, blank)[idx] == blank);
        }
    }
}

/// Writing k newline bytes from the bottom row scrolls the grid exactly k
/// times and leaves the cursor at the left edge of the bottom row.
pub proof fn lemma_newlines_scroll(v: WriterView, k: nat, ty: TextType)
    requires
        wf_view(v),
        v.row == LAST_ROW,
        1 <= k,
    ensures
        ({
            let after = write_bytes_spec(v, Seq::new(k, |i: int| 10), ty);
            &&& after.grid == scroll_n(v.grid, blank_char(v.pallet), k)
            &&& after.row == LAST_ROW
            &&& after.col == 0
            &&& after.pallet == v.pallet
        }),
    decreases k,
{
    let bs = Seq::new(k, |i: int| 10u8);
    let blank = blank_char(v.pallet);
    assert(bs.last() == 10u8);
    if k == 1 {
        assert(bs.drop_last() =~= Seq::<u8>::empty());
        assert(write_bytes_spec(v, bs.drop_last(), ty) == v);
        assert(write_bytes_spec(v, bs, ty) == new_line_spec(v));
        assert(scroll_n(v.grid, blank, 0) == v.grid);
        assert(scroll_n(v.grid, blank, 1) == scrolled(v.grid, blank));
    } else {
        lemma_newlines_scroll(v, (k - 1) as nat, ty);
        assert(bs.drop_last() =~= Seq::new((k - 1) as nat, |i: int| 10u8));
        let prev = write_bytes_spec(v, bs.drop_last(), ty);
        assert(write_bytes_spec(v, bs, ty) == write_byte_spec(prev, 10u8, ty));
        assert(write_byte_spec(prev, 10u8, ty) == new_line_spec(prev));
        assert(new_line_spec(prev).grid == scrolled(prev.grid, blank_char(prev.pallet)));
        assert(scroll_n(v.grid, blank, k) == scrolled(scroll_n(v.grid, blank, (k - 1) as nat), blank));
    }
}

/// Texts written through the panic handle, folded in order, all in the error
/// class and all with placeholder substitution.
pub open spec fn panic_writes_spec(v: WriterView, writes: Seq<Seq<u8>>) -> WriterView
    decreases writes.len(),
{
    if writes.len() == 0 {
        v
    } else {
        panic_writes_spec(
            write_bytes_spec(v, sanitized(writes[0]), TextType::Error),
            writes.drop_first(),
        )
    }
}

/// Panic-mode writes never move the recorded restoration point and never
/// change the palette, and they keep the console well formed.
pub proof fn lemma_panic_writes_wf(v: WriterView, writes: Seq<Seq<u8>>)
    requires
        wf_view(v),
    ensures
        wf_view(panic_writes_spec(v, writes)),
        panic_writes_spec(v, writes).pallet == v.pallet,
    decreases writes.len(),
{
    if writes.len() > 0 {
        lemma_write_bytes_spec_wf(v, sanitized(writes[0]), TextType::Error);
        lemma_panic_writes_wf(
            write_bytes_spec(v, sanitized(writes[0]), TextType::Error),
            writes.drop_first(),
        );
    }
}

/// Panic-mode isolation: entering panic mode, writing any sequence of texts
/// through the handle, and leaving restores the exact prior cursor, for any
/// prior cursor position and any texts written; the grid keeps what the
/// panic-mode writes produced.
pub proof fn lemma_panic_mode_isolation(v: WriterView, writes: Seq<Seq<u8>>)
    requires
        wf_view(v),
    ensures
        ({
            let done = panic_writes_spec(enter_panic_spec(v), writes);
            let restored = leave_panic_spec(done, v.row, v.col);
            &&& restored.row == v.row
            &&& restored.col == v.col
            &&& restored.grid == done.grid
            &&& restored.pallet == v.pallet
            &&& wf_view(restored)
        }),
{
    lemma_panic_writes_wf(enter_panic_spec(v), writes);
}

} // verus!
