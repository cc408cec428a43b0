//! The text console: an 80x25 grid of character cells, a cursor with a
//! blinking glyph, and the line-editing operations the keyboard and timer
//! handlers drive.
//!
//! The grid is owned state; mirroring it onto device memory is the
//! surrounding program's job. Every operation is specified as a pure
//! transition on [`WriterView`], the mathematical model of the writer.

use vstd::prelude::*;

verus! {

pub const BUFFER_HEIGHT: usize = 25;
pub const BUFFER_WIDTH: usize = 80;

/// Character code of the blinking cursor glyph.
pub const CURSOR_GLYPH: u8 = 179;

/// The sixteen fixed color indices of the display.
#[derive(Clone, Copy, PartialEq, Eq, Structural, Debug)]
pub enum Color {
    Black,
    Blue,
    Green,
    Cyan,
    Red,
    Magenta,
    Brown,
    LightGray,
    DarkGray,
    LightBlue,
    LightGreen,
    LightCyan,
    LightRed,
    Pink,
    Yellow,
    White,
}

impl Color {
    /// The numeric index of this color.
    pub open spec fn spec_code(self) -> u8 {
        match self {
            Color::Black => 0,
            Color::Blue => 1,
            Color::Green => 2,
            Color::Cyan => 3,
            Color::Red => 4,
            Color::Magenta => 5,
            Color::Brown => 6,
            Color::LightGray => 7,
            Color::DarkGray => 8,
            Color::LightBlue => 9,
            Color::LightGreen => 10,
            Color::LightCyan => 11,
            Color::LightRed => 12,
            Color::Pink => 13,
            Color::Yellow => 14,
            Color::White => 15,
        }
    }

    pub fn code(self) -> (c: u8)
        ensures
            c == self.spec_code(),
    {
        match self {
            Color::Black => 0,
            Color::Blue => 1,
            Color::Green => 2,
            Color::Cyan => 3,
            Color::Red => 4,
            Color::Magenta => 5,
            Color::Brown => 6,
            Color::LightGray => 7,
            Color::DarkGray => 8,
            Color::LightBlue => 9,
            Color::LightGreen => 10,
            Color::LightCyan => 11,
            Color::LightRed => 12,
            Color::Pink => 13,
            Color::Yellow => 14,
            Color::White => 15,
        }
    }
}

/// A packed attribute byte: `(background << 4) | foreground`.
#[derive(Clone, Copy, PartialEq, Eq, Structural, Debug)]
pub struct ColorCode(pub u8);

impl ColorCode {
    pub fn new(foreground: Color, background: Color) -> (c: ColorCode)
        ensures
            c.0 == (background.spec_code() << 4) | foreground.spec_code(),
    {
        ColorCode((background.code() << 4) | foreground.code())
    }
}

/// One cell of the grid: a character byte and its color attribute.
#[derive(Clone, Copy, PartialEq, Eq, Structural, Debug)]
pub struct ScreenChar {
    pub ascii_char: u8,
    pub color: ColorCode,
}

/// The mathematical model of a [`Writer`]: its scalar state plus the grid
/// flattened row-major into a sequence of `BUFFER_HEIGHT * BUFFER_WIDTH`
/// cells.
#[verifier::ext_equal]
pub struct WriterView {
    pub line: bool,
    pub interval: int,
    pub selected: int,
    pub col: int,
    pub color: ColorCode,
    pub grid: Seq<ScreenChar>,
}

/// The console writer. Owns the only mutable view of the character grid.
pub struct Writer {
    pub line: bool,
    pub line_interval: usize,
    pub selected_pos: usize,
    pub column_position: usize,
    pub color_code: ColorCode,
    pub buffer: Vec<ScreenChar>,
}

impl View for Writer {
    type V = WriterView;

    open spec fn view(&self) -> WriterView {
        WriterView {
            line: self.line,
            interval: self.line_interval as int,
            selected: self.selected_pos as int,
            col: self.column_position as int,
            color: self.color_code,
            grid: self.buffer@,
        }
    }
}

impl WriterView {
    /// Well-formedness: the grid has exactly one cell per position, and the
    /// cursor column and the remembered glyph column never pass the width.
    pub open spec fn wf(self) -> bool {
        &&& self.grid.len() == 2000
        &&& 0 <= self.col <= 80
        &&& 0 <= self.selected <= 80
        &&& 0 <= self.interval
    }

    /// The cell at `(row, col)` of the grid.
    pub open spec fn cell(self, row: int, col: int) -> ScreenChar {
        self.grid[row * 80 + col]
    }

    /// One whole row of the grid.
    pub open spec fn row(self, row: int) -> Seq<ScreenChar> {
        self.grid.subrange(row * 80, row * 80 + 80)
    }

    /// The character bytes of the bottom row as the line-capture buffer sees
    /// them: the first `col` cells, then zeros out to the full width.
    pub open spec fn last_line_bytes(self) -> Seq<u8> {
        Seq::new(80, |i: int| if i < self.col { self.cell(24, i).ascii_char } else { 0 })
    }
}

/// A blank cell drawn with the given attribute.
pub open spec fn blank_cell(color: ColorCode) -> ScreenChar {
    ScreenChar { ascii_char: 0, color }
}

/// The cursor glyph drawn with the given attribute.
pub open spec fn cursor_cell(color: ColorCode) -> ScreenChar {
    ScreenChar { ascii_char: CURSOR_GLYPH, color }
}

/// A whole row of cells cleared to black-on-black blanks.
pub open spec fn cleared_row() -> Seq<ScreenChar> {
    Seq::new(80, |i: int| blank_cell(ColorCode(0)))
}

/// Erasing the cursor glyph: overwrite the remembered glyph column of the
/// bottom row with a blank, so the glyph never persists at a stale column.
/// A remembered column at the width has no cell to erase.
pub open spec fn erase_cursor(v: WriterView) -> WriterView {
    if v.selected >= 80 {
        v
    } else {
        WriterView { grid: v.grid.update(1920 + v.selected, blank_cell(v.color)), ..v }
    }
}

/// Drawing the cursor glyph at the current column (only when blinked on,
/// unless forced). The column is remembered either way; a column at the
/// width has no cell to draw into.
pub open spec fn draw_cursor(v: WriterView, force: bool) -> WriterView {
    if !v.line && !force {
        v
    } else if v.col < 80 {
        WriterView {
            selected: v.col,
            grid: v.grid.update(1920 + v.col, cursor_cell(v.color)),
            ..v
        }
    } else {
        WriterView { selected: v.col, ..v }
    }
}

/// Advancing to a fresh line: erase the cursor, shift every row up by one
/// (row 0 is discarded), clear the new bottom row, reset the column to 0,
/// and redraw the cursor there.
pub open spec fn spec_new_line(v: WriterView) -> WriterView {
    let e = erase_cursor(v);
    let shifted = WriterView { grid: e.grid.subrange(80, 2000) + cleared_row(), ..e };
    draw_cursor(WriterView { col: 0, ..shifted }, true)
}

/// Writing one byte: rearm the blink countdown, erase the cursor, then
/// either advance a line (on newline, or first when the column has reached
/// the width) and place the byte at the current column, and finally redraw
/// the cursor at the new column.
pub open spec fn spec_write_byte(v: WriterView, byte: u8) -> WriterView {
    let e = erase_cursor(WriterView { interval: 3, ..v });
    let placed = if byte == 10 {
        spec_new_line(e)
    } else {
        let base = if e.col >= 80 { spec_new_line(e) } else { e };
        WriterView {
            grid: base.grid.update(1920 + base.col, ScreenChar { ascii_char: byte, color: base.color }),
            col: base.col + 1,
            ..base
        }
    };
    draw_cursor(placed, true)
}

/// Erasing the character left of the cursor. The column never goes below
/// the floor of 2 (the prompt prefix); at or below the floor the column is
/// pinned there and nothing else changes.
pub open spec fn spec_delete_last_char(v: WriterView) -> WriterView {
    let e = erase_cursor(WriterView { interval: 3, ..v });
    if e.col <= 2 {
        WriterView { col: 2, ..e }
    } else {
        let placed = WriterView {
            grid: e.grid.update(1920 + (e.col - 1), ScreenChar { ascii_char: 32, color: e.color }),
            col: e.col - 1,
            ..e
        };
        draw_cursor(placed, true)
    }
}

/// One timer tick: on countdown rollover (10 ticks) toggle the blink state
/// and draw or erase the glyph accordingly; otherwise just count.
pub open spec fn spec_update_line(v: WriterView) -> WriterView {
    if v.interval >= 10 {
        if v.line {
            WriterView { interval: 0, ..erase_cursor(WriterView { line: false, ..v }) }
        } else {
            WriterView { interval: 0, ..draw_cursor(WriterView { line: true, ..v }, false) }
        }
    } else {
        WriterView { interval: v.interval + 1, ..v }
    }
}

/// A byte as `write_string` feeds it to `write_byte`: printable low ASCII
/// and newline pass through, everything else becomes the placeholder glyph.
pub open spec fn normalize_byte(b: u8) -> u8 {
    if (0x20 <= b && b <= 0x7e) || b == 10 {
        b
    } else {
        0xfe
    }
}

/// Writing a whole string, byte by normalized byte.
pub open spec fn spec_write_string(v: WriterView, s: Seq<u8>) -> WriterView
    decreases s.len(),
{
    if s.len() == 0 {
        v
    } else {
        spec_write_string(spec_write_byte(v, normalize_byte(s[0])), s.skip(1))
    }
}

/// Writing a string in two pieces is the same as writing their
/// concatenation.
pub proof fn lemma_write_string_append(v: WriterView, s1: Seq<u8>, s2: Seq<u8>)
    ensures
        spec_write_string(v, s1 + s2) == spec_write_string(spec_write_string(v, s1), s2),
    decreases s1.len(),
{
    if s1.len() == 0 {
        assert(s1 + s2 =~= s2);
    } else {
        assert((s1 + s2)[0] == s1[0]);
        assert((s1 + s2).skip(1) =~= s1.skip(1) + s2);
        lemma_write_string_append(spec_write_byte(v, normalize_byte(s1[0])), s1.skip(1), s2);
    }
}

/// The erase-one-character operation applied `n` times in a row.
pub open spec fn repeat_delete_last_char(v: WriterView, n: nat) -> WriterView
    decreases n,
{
    if n == 0 {
        v
    } else {
        spec_delete_last_char(repeat_delete_last_char(v, (n - 1) as nat))
    }
}

/// Law: however often the erase-one-character operation is repeated, the
/// column never drops below the two-column prompt floor.
pub proof fn lemma_delete_last_char_floor(v: WriterView, n: nat)
    requires
        n >= 1,
    ensures
        repeat_delete_last_char(v, n).col >= 2,
    decreases n,
{
    if n > 1 {
        lemma_delete_last_char_floor(v, (n - 1) as nat);
    }
}

/// The timer-tick operation applied `n` times in a row.
pub open spec fn repeat_update_line(v: WriterView, n: nat) -> WriterView
    decreases n,
{
    if n == 0 {
        v
    } else {
        spec_update_line(repeat_update_line(v, (n - 1) as nat))
    }
}

/// Law: starting from a freshly reset blink clock, the blink state holds
/// unchanged through the first ten ticks while the counter climbs.
pub proof fn lemma_blink_holds(v: WriterView, n: nat)
    requires
        v.interval == 0,
        n <= 10,
    ensures
        repeat_update_line(v, n).line == v.line,
        repeat_update_line(v, n).interval == n,
    decreases n,
{
    if n > 0 {
        lemma_blink_holds(v, (n - 1) as nat);
    }
}

/// Law: starting from a freshly reset blink clock, the blink state toggles
/// exactly once over an eleven-tick round, on the tick that finds the
/// counter at its period, and the counter starts over.
pub proof fn lemma_blink_period(v: WriterView)
    requires
        v.interval == 0,
    ensures
        repeat_update_line(v, 11).line == !v.line,
        repeat_update_line(v, 11).interval == 0,
{
    lemma_blink_holds(v, 10);
}

/// Law: writing a non-newline byte when the column equals the width shifts
/// the rows up exactly once, places the byte at column 0 of the new bottom
/// row, and leaves the cursor glyph just after it at column 1.
pub proof fn lemma_write_at_width_shifts_once(v: WriterView, byte: u8)
    requires
        v.wf(),
        v.col == 80,
        byte != 10,
    ensures
        spec_write_byte(v, byte).col == 1,
        spec_write_byte(v, byte).selected == 1,
        spec_write_byte(v, byte).cell(24, 0).ascii_char == byte,
        spec_write_byte(v, byte).cell(24, 1) == cursor_cell(v.color),
        forall|c: int| 2 <= c < 80 ==> spec_write_byte(v, byte).cell(24, c) == blank_cell(
            ColorCode(0),
        ),
        forall|r: int| 0 <= r < 23 ==> spec_write_byte(v, byte).row(r) == v.row(r + 1),
        spec_write_byte(v, byte).row(23) == erase_cursor(v).row(24),
{
    let w = spec_write_byte(v, byte);
    let e = erase_cursor(WriterView { interval: 3, ..v });
    assert(e.grid =~= erase_cursor(v).grid);
    assert forall|r: int| 0 <= r < 23 implies w.row(r) == v.row(r + 1) by {
        assert forall|i: int| 0 <= i < 80 implies w.row(r)[i] == v.row(r + 1)[i] by {
            assert(w.grid[r * 80 + i] == e.grid[(r + 1) * 80 + i]);
            assert(e.grid[(r + 1) * 80 + i] == v.grid[(r + 1) * 80 + i]);
        }
        assert(w.row(r) =~= v.row(r + 1));
    }
    assert forall|i: int| 0 <= i < 80 implies w.row(23)[i] == erase_cursor(v).row(24)[i] by {
        assert(w.grid[23 * 80 + i] == e.grid[24 * 80 + i]);
    }
    assert(w.row(23) =~= erase_cursor(v).row(24));
}

impl Writer {
    /// A fresh writer over an all-blank grid, writing green on black.
    pub fn new() -> (w: Writer)
        ensures
            w@.wf(),
            w@.line == false,
            w@.interval == 0,
            w@.selected == 0,
            w@.col == 0,
            w@.color == (ColorCode((Color::Black.spec_code() << 4) | Color::Green.spec_code())),
            w@.grid =~= Seq::new(2000, |i: int| blank_cell(ColorCode(0))),
    {
        let mut buffer: Vec<ScreenChar> = Vec::new();
        let mut i: usize = 0;
        while i < 2000
            invariant
                i <= 2000,
                buffer@.len() == i,
                forall|j: int| 0 <= j < i ==> buffer@[j] == blank_cell(ColorCode(0)),
            decreases 2000 - i,
        {
            buffer.push(ScreenChar { ascii_char: 0, color: ColorCode(0) });
            i = i + 1;
        }
        Writer {
            line: false,
            line_interval: 0,
            selected_pos: 0,
            column_position: 0,
            color_code: ColorCode::new(Color::Green, Color::Black),
            buffer,
        }
    }

    /// Erase the blinking glyph at its remembered column.
    fn delete_line(&mut self)
        requires
            old(self)@.wf(),
        ensures
            final(self)@ == erase_cursor(old(self)@),
            final(self)@.wf(),
    {
        if self.selected_pos >= BUFFER_WIDTH {
            return;
        }
        let idx: usize = (BUFFER_HEIGHT - 1) * BUFFER_WIDTH + self.selected_pos;
        self.buffer[idx] = ScreenChar { ascii_char: 0, color: self.color_code };
    }

    /// Draw the blinking glyph at the current column and remember where.
    fn draw_line(&mut self, force: bool)
        requires
            old(self)@.wf(),
        ensures
            final(self)@ == draw_cursor(old(self)@, force),
            final(self)@.wf(),
    {
        if !self.line && !force {
            return;
        }
        let col: usize = self.column_position;
        self.selected_pos = col;
        if col < BUFFER_WIDTH {
            let idx: usize = (BUFFER_HEIGHT - 1) * BUFFER_WIDTH + col;
            self.buffer[idx] = ScreenChar { ascii_char: CURSOR_GLYPH, color: self.color_code };
        }
    }

    /// Overwrite one row with black-on-black blanks.
    fn clear_row(&mut self, row: usize)
        requires
            old(self)@.wf(),
            row < 25,
        ensures
            final(self)@.wf(),
            final(self)@.grid =~= (old(self)@.grid.subrange(0, row * 80) + cleared_row()
                + old(self)@.grid.subrange(row * 80 + 80, 2000)),
            final(self)@ == (WriterView { grid: final(self)@.grid, ..old(self)@ }),
    {
        let mut col: usize = 0;
        while col < BUFFER_WIDTH
            invariant
                old(self)@.wf(),
                self@.wf(),
                row < 25,
                col <= 80,
                self@ == (WriterView { grid: self@.grid, ..old(self)@ }),
                forall|i: int|
                    0 <= i < 2000 && !(row * 80 <= i < row * 80 + col) ==> self@.grid[i]
                        == old(self)@.grid[i],
                forall|i: int|
                    row * 80 <= i < row * 80 + col ==> self@.grid[i] == blank_cell(ColorCode(0)),
            decreases 80 - col,
        {
            let idx: usize = row * BUFFER_WIDTH + col;
            self.buffer[idx] = ScreenChar { ascii_char: 0, color: ColorCode(0) };
            col = col + 1;
        }
    }

    /// Shift every row up by one, clear the new bottom row, and put the
    /// cursor at column 0.
    pub fn new_line(&mut self)
        requires
            old(self)@.wf(),
        ensures
            final(self)@ == spec_new_line(old(self)@),
            final(self)@.wf(),
    {
        self.delete_line();
        let ghost g0 = self@.grid;
        let mut row: usize = 1;
        while row < BUFFER_HEIGHT
            invariant
                self@.wf(),
                1 <= row <= 25,
                self@ == (WriterView { grid: self@.grid, ..erase_cursor(old(self)@) }),
                forall|i: int| 0 <= i < (row - 1) * 80 ==> self@.grid[i] == g0[i + 80],
                forall|i: int| (row - 1) * 80 <= i < 2000 ==> self@.grid[i] == g0[i],
            decreases 25 - row,
        {
            let mut col: usize = 0;
            while col < BUFFER_WIDTH
                invariant
                    self@.wf(),
                    1 <= row < 25,
                    col <= 80,
                    self@ == (WriterView { grid: self@.grid, ..erase_cursor(old(self)@) }),
                    forall|i: int|
                        0 <= i < (row - 1) * 80 + col ==> self@.grid[i] == g0[i + 80],
                    forall|i: int|
                        (row - 1) * 80 + col <= i < 2000 ==> self@.grid[i] == g0[i],
                decreases 80 - col,
            {
                let src: usize = row * BUFFER_WIDTH + col;
                let dst: usize = (row - 1) * BUFFER_WIDTH + col;
                let ch = self.buffer[src];
                self.buffer[dst] = ch;
                col = col + 1;
            }
            row = row + 1;
        }
        self.clear_row(BUFFER_HEIGHT - 1);
        self.column_position = 0;
        self.draw_line(true);
        proof {
            assert(self@.grid =~= spec_new_line(old(self)@).grid);
            assert(self@ =~= spec_new_line(old(self)@));
        }
    }

    /// Write one byte at the cursor, shifting to a fresh line first when the
    /// byte is a newline or the column has reached the width.
    pub fn write_byte(&mut self, byte: u8)
        requires
            old(self)@.wf(),
        ensures
            final(self)@ == spec_write_byte(old(self)@, byte),
            final(self)@.wf(),
            final(self)@.col <= 80,
            byte != 10 ==> 1 <= final(self)@.col,
    {
        self.line_interval = 3;
        self.delete_line();
        if byte == 10 {
            self.new_line();
        } else {
            if self.column_position >= BUFFER_WIDTH {
                self.new_line();
            }
            let col: usize = self.column_position;
            let idx: usize = (BUFFER_HEIGHT - 1) * BUFFER_WIDTH + col;
            self.buffer[idx] = ScreenChar { ascii_char: byte, color: self.color_code };
            self.column_position = col + 1;
        }
        self.draw_line(true);
    }

    /// Erase the character left of the cursor; the column never drops below
    /// the two-column prompt floor.
    pub fn delete_last_char(&mut self)
        requires
            old(self)@.wf(),
        ensures
            final(self)@ == spec_delete_last_char(old(self)@),
            final(self)@.wf(),
            2 <= final(self)@.col,
            final(self)@.col >= old(self)@.col - 1,
    {
        self.line_interval = 3;
        self.delete_line();
        if self.column_position <= 2 {
            self.column_position = 2;
            return;
        }
        let col: usize = self.column_position - 1;
        let idx: usize = (BUFFER_HEIGHT - 1) * BUFFER_WIDTH + col;
        self.buffer[idx] = ScreenChar { ascii_char: 32, color: self.color_code };
        self.column_position = col;
        self.draw_line(true);
    }

    /// One timer tick of the blink clock: toggle the glyph exactly when the
    /// countdown has reached its period, otherwise just count.
    pub fn update_line(&mut self)
        requires
            old(self)@.wf(),
        ensures
            final(self)@ == spec_update_line(old(self)@),
            final(self)@.wf(),
            old(self)@.interval >= 10 ==> final(self)@.line == !old(self)@.line
                && final(self)@.interval == 0,
            old(self)@.interval < 10 ==> final(self)@.line == old(self)@.line
                && final(self)@.interval == old(self)@.interval + 1,
    {
        if self.line_interval >= 10 {
            if self.line {
                self.line = false;
                self.delete_line();
            } else {
                self.line = true;
                self.draw_line(false);
            }
            self.line_interval = 0;
        } else {
            self.line_interval = self.line_interval + 1;
        }
    }

    /// Copy the character bytes of the bottom row, up to the cursor column,
    /// into the caller's width-sized buffer.
    pub fn get_last_line(&mut self, buf: &mut Vec<u8>)
        requires
            old(self)@.wf(),
            old(buf)@.len() == 80,
        ensures
            final(self)@ == old(self)@,
            final(buf)@.len() == 80,
            forall|i: int|
                0 <= i < old(self)@.col ==> final(buf)@[i] == old(self)@.cell(24, i).ascii_char,
            forall|i: int| old(self)@.col <= i < 80 ==> final(buf)@[i] == old(buf)@[i],
    {
        let end: usize = self.column_position;
        let mut col: usize = 0;
        while col < end
            invariant
                self@.wf(),
                self@ == old(self)@,
                end == self@.col,
                col <= end,
                buf@.len() == 80,
                forall|i: int| 0 <= i < col ==> buf@[i] == self@.cell(24, i).ascii_char,
                forall|i: int| col <= i < 80 ==> buf@[i] == old(buf)@[i],
            decreases end - col,
        {
            let idx: usize = (BUFFER_HEIGHT - 1) * BUFFER_WIDTH + col;
            buf[col] = self.buffer[idx].ascii_char;
            col = col + 1;
        }
    }

    /// Write a whole string: printable low ASCII and newlines pass through,
    /// any other byte is shown as the placeholder glyph.
    pub fn write_string(&mut self, s: &[u8])
        requires
            old(self)@.wf(),
        ensures
            final(self)@ == spec_write_string(old(self)@, s@),
            final(self)@.wf(),
    {
        let ghost v0 = self@;
        proof {
            assert(s@.skip(0) =~= s@);
        }
        let mut i: usize = 0;
        while i < s.len()
            invariant
                self@.wf(),
                i <= s@.len(),
                spec_write_string(v0, s@) == spec_write_string(self@, s@.skip(i as int)),
            decreases s@.len() - i,
        {
            let byte: u8 = s[i];
            proof {
                assert(s@.skip(i as int)[0] == s@[i as int]);
                assert(s@.skip(i as int).skip(1) =~= s@.skip(i as int + 1));
            }
            if (0x20 <= byte && byte <= 0x7e) || byte == 10 {
                self.write_byte(byte);
            } else {
                self.write_byte(0xfe);
            }
            i = i + 1;
        }
        proof {
            assert(s@.skip(s@.len() as int) =~= Seq::<u8>::empty());
        }
    }
}

} // verus!
