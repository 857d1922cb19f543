//! The emulated terminal: a grid of cells with a cursor, a saved cursor, a
//! scroll region and a set of modes. Each operation is stated over the
//! [`Screen`] that the terminal stands for.

use vstd::prelude::*;
use crate::mode::{
    ClearMode, LineClearMode, ModeInt, TermMode, APP_KEYPAD, LINE_FEED_NEW_LINE, LINE_WRAP,
};
use crate::screen::{blank_row, rows, Note, Screen, SPACE};
use crate::setting::GameSetting;

verus! {

/// A position on the screen: column `x` of row `y`.
#[derive(Clone, Copy, Debug, PartialEq, Eq, Structural)]
pub struct Cursor {
    pub x: usize,
    pub y: usize,
}

impl Cursor {
    /// The position at column `x` of row `y`.
    pub fn new(x: usize, y: usize) -> (cursor: Cursor)
        ensures
            cursor.x == x,
            cursor.y == y,
    {
        Cursor { x, y }
    }
}

impl Default for Cursor {
    fn default() -> (cursor: Cursor)
        ensures
            cursor.x == 0,
            cursor.y == 0,
    {
        Cursor { x: 0, y: 0 }
    }
}

/// The rows from `.0` up to, but without, `.1`.
#[derive(Clone, Copy, Debug, PartialEq, Eq, Structural)]
pub struct LineRange(pub usize, pub usize);

impl LineRange {
    /// Whether row `u` is in the range.
    pub fn contains(&self, u: usize) -> (inside: bool)
        ensures
            inside == (self.0 <= u < self.1),
    {
        self.0 <= u && u < self.1
    }
}

/// The emulated terminal.
#[derive(Debug)]
pub struct TermData {
    buf: Vec<Vec<u8>>,
    cur: Cursor,
    width: usize,
    mode: TermMode,
    scroll_range: LineRange,
    saved_cur: Cursor,
    preceeding: Option<u8>,
    notes: Vec<Note>,
}

impl View for TermData {
    type V = Screen;

    closed spec fn view(&self) -> Screen {
        Screen {
            grid: rows(self.buf@),
            width: self.width as nat,
            x: self.cur.x as nat,
            y: self.cur.y as nat,
            saved_x: self.saved_cur.x as nat,
            saved_y: self.saved_cur.y as nat,
            top: self.scroll_range.0 as nat,
            bottom: self.scroll_range.1 as nat,
            mode: self.mode,
            preceding: self.preceeding,
            notes: self.notes@,
        }
    }
}

/// A row of `width` empty cells.
fn blank_line(width: usize) -> (row: Vec<u8>)
    ensures
        row@ == blank_row(width as nat),
{
    let mut row: Vec<u8> = Vec::new();
    let mut j: usize = 0;
    while j < width
        invariant
            j <= width,
            row@ == blank_row(j as nat),
        decreases width - j,
    {
        row.push(SPACE);
        j += 1;
    }
    row
}

/// A copy of `row`.
fn copy_line(row: &Vec<u8>) -> (copy: Vec<u8>)
    ensures
        copy@ == row@,
{
    let mut copy: Vec<u8> = Vec::new();
    let mut j: usize = 0;
    while j < row.len()
        invariant
            j <= row@.len(),
            copy@ == row@.take(j as int),
        decreases row@.len() - j,
    {
        copy.push(row[j]);
        j += 1;
    }
    copy
}

impl TermData {
    /// What the terminal keeps true of itself between operations: the
    /// screen it stands for is well formed.
    pub open spec fn wf(&self) -> bool {
        self@.wf()
    }

    /// The sizes and positions of a terminal fit the machine's word.
    pub proof fn lemma_bounds(&self)
        ensures
            self@.height() <= usize::MAX,
            self@.width <= usize::MAX,
            self@.x <= usize::MAX,
            self@.y <= usize::MAX,
    {
        broadcast use vstd::std_specs::vec::axiom_spec_len;

        assert(self.buf@.len() == self.buf.len());
    }

    /// What a well-formed screen means for the rows that are held.
    proof fn lemma_rows(&self)
        requires
            self.wf(),
        ensures
            self.buf@.len() == self@.height(),
            self.buf@.len() <= usize::MAX,
            forall|i: int| 0 <= i < self.buf@.len() ==> (#[trigger] self.buf@[i])@.len() == self.width,
    {
        self.lemma_bounds();
        assert forall|i: int| 0 <= i < self.buf@.len() implies (#[trigger] self.buf@[i])@.len()
            == self.width by {
            assert(self@.grid[i] == self.buf@[i]@);
        }
    }

    /// A terminal of the setting's size that has received nothing yet.
    pub fn from_setting(s: &GameSetting) -> (term: TermData)
        requires
            s.lines >= 1,
            s.columns >= 1,
        ensures
            term.wf(),
            term@ == Screen::initial(s.lines as nat, s.columns as nat),
    {
        let mut buf: Vec<Vec<u8>> = Vec::new();
        let mut i: usize = 0;
        while i < s.lines
            invariant
                i <= s.lines,
                buf@.len() == i,
                forall|k: int| 0 <= k < i ==> (#[trigger] buf@[k])@ == blank_row(s.columns as nat),
            decreases s.lines - i,
        {
            buf.push(blank_line(s.columns));
            i += 1;
        }
        let term = TermData {
            buf,
            cur: Cursor::default(),
            width: s.columns,
            mode: TermMode::default(),
            scroll_range: LineRange(0, s.lines),
            saved_cur: Cursor::default(),
            preceeding: None,
            notes: Vec::new(),
        };
        term
    }

    /// A copy of the cells, row by row from the top.
    pub fn ret_screen(&self) -> (cells: Vec<Vec<u8>>)
        ensures
            rows(cells@) == self@.grid,
    {
        let mut cells: Vec<Vec<u8>> = Vec::new();
        let mut i: usize = 0;
        while i < self.buf.len()
            invariant
                i <= self.buf@.len(),
                cells@.len() == i,
                forall|k: int| 0 <= k < i ==> (#[trigger] cells@[k])@ == self.buf@[k]@,
            decreases self.buf@.len() - i,
        {
            cells.push(copy_line(&self.buf[i]));
            i += 1;
        }
        cells
    }

    /// The number of rows.
    pub fn lines(&self) -> (n: usize)
        ensures
            n == self@.height(),
    {
        self.buf.len()
    }

    /// The number of columns.
    pub fn columns(&self) -> (n: usize)
        ensures
            n == self@.width,
    {
        self.width
    }

    /// Where the cursor is.
    pub fn cursor(&self) -> (cursor: Cursor)
        ensures
            cursor.x == self@.x,
            cursor.y == self@.y,
    {
        self.cur
    }

    /// Where the saved cursor is.
    pub fn saved_cursor(&self) -> (cursor: Cursor)
        ensures
            cursor.x == self@.saved_x,
            cursor.y == self@.saved_y,
    {
        self.saved_cur
    }

    /// The rows of the scroll region.
    pub fn scroll_range(&self) -> (range: LineRange)
        ensures
            range.0 == self@.top,
            range.1 == self@.bottom,
    {
        self.scroll_range
    }

    /// The modes that are set.
    pub fn mode(&self) -> (mode: TermMode)
        ensures
            mode == self@.mode,
    {
        self.mode
    }

    /// The character printed last, if any.
    pub fn preceding(&self) -> (c: Option<u8>)
        ensures
            c == self@.preceding,
    {
        self.preceeding
    }

    /// Notes `note`, for whoever takes the notes.
    pub fn note(&mut self, note: Note)
        requires
            old(self).wf(),
        ensures
            final(self).wf(),
            final(self)@ == old(self)@.noted(note),
    {
        self.notes.push(note);
    }

    /// Takes what the terminal has noted since the notes were last taken,
    /// oldest first.
    pub fn take_notes(&mut self) -> (notes: Vec<Note>)
        ensures
            notes@ == old(self)@.notes,
            final(self)@ == old(self)@.without_notes(),
            old(self).wf() ==> final(self).wf(),
    {
        let mut notes: Vec<Note> = Vec::new();
        core::mem::swap(&mut self.notes, &mut notes);
        notes
    }

    /// Whether the cursor stands on a cell of the grid.
    pub fn is_cursor_valid(&self) -> (valid: bool)
        ensures
            valid == self@.cursor_in_grid(),
    {
        self.cur.y < self.buf.len() && self.cur.x < self.width
    }

    /// Moves the cursor to the first column.
    pub fn carriage_return(&mut self)
        requires
            old(self).wf(),
        ensures
            final(self).wf(),
            final(self)@ == old(self)@.carriage_return(),
    {
        self.cur.x = 0;
    }

    /// Moves the cursor one column to the left, unless it stands in the
    /// first.
    pub fn backspace(&mut self)
        requires
            old(self).wf(),
        ensures
            final(self).wf(),
            final(self)@ == old(self)@.backspace(),
    {
        if self.cur.x > 0 {
            self.cur.x -= 1;
        }
    }

    /// Moves the cursor `num` columns to the right, also beyond the last
    /// column: the next character printed wraps.
    pub fn add_x(&mut self, num: usize)
        requires
            old(self).wf(),
            old(self)@.x + num <= usize::MAX,
        ensures
            final(self).wf(),
            final(self)@ == old(self)@.add_x(num as nat),
    {
        self.cur.x += num;
    }

    /// Moves the cursor `num` rows down, within the grid.
    pub fn add_y(&mut self, num: usize)
        requires
            old(self).wf(),
            old(self)@.y + num < old(self)@.height(),
        ensures
            final(self).wf(),
            final(self)@ == old(self)@.add_y(num as nat),
    {
        proof {
            self.lemma_rows();
        }
        self.cur.y += num;
    }

    /// Moves the cursor `num` columns to the left.
    pub fn sub_x(&mut self, num: usize)
        requires
            old(self).wf(),
            num <= old(self)@.x,
        ensures
            final(self).wf(),
            final(self)@ == old(self)@.sub_x(num as nat),
    {
        self.cur.x -= num;
    }

    /// Moves the cursor `num` rows up.
    pub fn sub_y(&mut self, num: usize)
        requires
            old(self).wf(),
            num <= old(self)@.y,
        ensures
            final(self).wf(),
            final(self)@ == old(self)@.sub_y(num as nat),
    {
        self.cur.y -= num;
    }

    /// Moves the cursor to column `num`, also beyond the last column.
    pub fn goto_x(&mut self, num: usize)
        requires
            old(self).wf(),
        ensures
            final(self).wf(),
            final(self)@ == old(self)@.goto_x(num as nat),
    {
        self.cur.x = num;
    }

    /// Moves the cursor to row `num` of the grid.
    pub fn goto_y(&mut self, num: usize)
        requires
            old(self).wf(),
            num < old(self)@.height(),
        ensures
            final(self).wf(),
            final(self)@ == old(self)@.goto_y(num as nat),
    {
        self.cur.y = num;
    }

    /// Moves the cursor to `c`, a position in a row of the grid.
    pub fn goto(&mut self, c: Cursor)
        requires
            old(self).wf(),
            c.y < old(self)@.height(),
        ensures
            final(self).wf(),
            final(self)@ == old(self)@.with_cursor(c.x as nat, c.y as nat),
    {
        self.cur = c;
    }

    /// Saves where the cursor is.
    pub fn save_cursor(&mut self)
        requires
            old(self).wf(),
        ensures
            final(self).wf(),
            final(self)@ == old(self)@.save_cursor(),
    {
        self.saved_cur = self.cur;
    }

    /// Moves the cursor to where it was saved last, or to the top left
    /// where it never was.
    pub fn restore_cursor(&mut self)
        requires
            old(self).wf(),
        ensures
            final(self).wf(),
            final(self)@ == old(self)@.restore_cursor(),
    {
        self.cur = self.saved_cur;
    }

    /// The cell at column `x` of row `y`.
    fn cell(&self, y: usize, x: usize) -> (c: u8)
        requires
            self.wf(),
            y < self@.height(),
            x < self@.width,
        ensures
            c == self@.grid[y as int][x as int],
    {
        proof {
            self.lemma_rows();
        }
        self.buf[y][x]
    }

    /// A copy of row `y`.
    fn line(&self, y: usize) -> (row: Vec<u8>)
        requires
            self.wf(),
            y < self@.height(),
        ensures
            row@ == self@.grid[y as int],
    {
        copy_line(&self.buf[y])
    }

    /// Writes `c` to the cell at column `x` of row `y`.
    fn set_cell(&mut self, y: usize, x: usize, c: u8)
        requires
            old(self).wf(),
            y < old(self)@.height(),
            x < old(self)@.width,
        ensures
            final(self).wf(),
            final(self)@ == old(self)@.with_row(
                y as int,
                old(self)@.grid[y as int].update(x as int, c),
            ),
    {
        proof {
            self.lemma_rows();
        }
        self.buf[y][x] = c;
    }

    /// Replaces row `y` by `row`.
    fn set_line(&mut self, y: usize, row: Vec<u8>)
        requires
            old(self).wf(),
            y < old(self)@.height(),
            row@.len() == old(self)@.width,
        ensures
            final(self).wf(),
            final(self)@ == old(self)@.with_row(y as int, row@),
    {
        proof {
            self.lemma_rows();
        }
        self.buf[y] = row;
    }

    /// Empties the cells of row `y` from column `from` up to, but without,
    /// column `to`.
    fn clear_cells(&mut self, y: usize, from: usize, to: usize)
        requires
            old(self).wf(),
            y < old(self)@.height(),
            to <= old(self)@.width,
        ensures
            final(self).wf(),
            final(self)@ == old(self)@.blank_cells(y as int, from as int, to as int),
    {
        let ghost before = self@;
        let mut j: usize = from;
        assert(before.grid[y as int] =~= before.blank_cells(y as int, from as int, from as int).grid[y as int]);
        while j < to
            invariant
                self.wf(),
                before.wf(),
                y < before.height(),
                to <= before.width,
                from <= j,
                j <= to || j == from,
                self@ == before.blank_cells(y as int, from as int, j as int),
            decreases to - j,
        {
            self.set_cell(y, j, SPACE);
            j += 1;
            assert(self@.grid[y as int] =~= before.blank_cells(y as int, from as int, j as int).grid[y as int]);
        }
        assert(self@.grid[y as int] =~= before.blank_cells(y as int, from as int, to as int).grid[y as int]);
    }

    /// Empties the rows from `from` up to, but without, `to`.
    fn clear_rows(&mut self, from: usize, to: usize)
        requires
            old(self).wf(),
            to <= old(self)@.height(),
        ensures
            final(self).wf(),
            final(self)@ == old(self)@.with_grid(final(self)@.grid),
            final(self)@.grid.len() == old(self)@.grid.len(),
            forall|i: int|
                0 <= i < old(self)@.grid.len() ==> #[trigger] final(self)@.grid[i] == if from <= i
                    < to {
                    blank_row(old(self)@.width)
                } else {
                    old(self)@.grid[i]
                },
    {
        let ghost before = self@;
        let mut i: usize = from;
        while i < to
            invariant
                self.wf(),
                before == old(self)@,
                to <= before.height(),
                from <= i,
                i <= to || i == from,
                self@ == before.with_grid(self@.grid),
                self@.grid.len() == before.grid.len(),
                forall|k: int|
                    0 <= k < before.grid.len() ==> #[trigger] self@.grid[k] == if from <= k < i {
                        blank_row(before.width)
                    } else {
                        before.grid[k]
                    },
            decreases to - i,
        {
            let row = blank_line(self.width);
            self.set_line(i, row);
            i += 1;
        }
    }

    /// Moves the rows from `origin` to the end of the scroll region up by
    /// `num`; the rows that come free at the end of the region are emptied.
    pub fn scroll_up_relative(&mut self, origin: usize, num: usize)
        requires
            old(self).wf(),
        ensures
            final(self).wf(),
            final(self)@ == old(self)@.scroll_up_relative(origin as nat, num as nat),
    {
        let ghost before = self@;
        let bottom = self.scroll_range.1;
        let mut i: usize = origin;
        while i < bottom
            invariant
                self.wf(),
                before == old(self)@,
                before.wf(),
                bottom == before.bottom,
                origin <= i,
                self@ == before.with_grid(self@.grid),
                self@.grid.len() == before.grid.len(),
                forall|k: int|
                    0 <= k < before.grid.len() ==> #[trigger] self@.grid[k] == if origin <= k < i {
                        before.scroll_up_relative(origin as nat, num as nat).grid[k]
                    } else {
                        before.grid[k]
                    },
            decreases bottom - i,
        {
            let row = if num < bottom - i {
                self.line(i + num)
            } else {
                blank_line(self.width)
            };
            self.set_line(i, row);
            i += 1;
        }
    }

    /// Moves the rows from `origin` to the end of the scroll region down by
    /// `num`; the rows that come free at `origin` are emptied.
    pub fn scroll_down_relative(&mut self, origin: usize, num: usize)
        requires
            old(self).wf(),
        ensures
            final(self).wf(),
            final(self)@ == old(self)@.scroll_down_relative(origin as nat, num as nat),
    {
        let ghost before = self@;
        let bottom = self.scroll_range.1;
        let mut i: usize = if origin < bottom { bottom } else { origin };
        while i > origin
            invariant
                self.wf(),
                before == old(self)@,
                before.wf(),
                bottom == before.bottom,
                origin <= i,
                i <= bottom || i == origin,
                self@ == before.with_grid(self@.grid),
                self@.grid.len() == before.grid.len(),
                forall|k: int|
                    0 <= k < before.grid.len() ==> #[trigger] self@.grid[k] == if i <= k < bottom {
                        before.scroll_down_relative(origin as nat, num as nat).grid[k]
                    } else {
                        before.grid[k]
                    },
            decreases i,
        {
            i -= 1;
            let row = if num <= i - origin {
                self.line(i - num)
            } else {
                blank_line(self.width)
            };
            self.set_line(i, row);
        }
    }

    /// Scrolls the scroll region up by `num` rows.
    pub fn scroll_up(&mut self, num: usize)
        requires
            old(self).wf(),
        ensures
            final(self).wf(),
            final(self)@ == old(self)@.scroll_up(num as nat),
    {
        let origin = self.scroll_range.0;
        self.scroll_up_relative(origin, num);
    }

    /// Scrolls the scroll region down by `num` rows.
    pub fn scroll_down(&mut self, num: usize)
        requires
            old(self).wf(),
        ensures
            final(self).wf(),
            final(self)@ == old(self)@.scroll_down(num as nat),
    {
        let origin = self.scroll_range.0;
        self.scroll_down_relative(origin, num);
    }

    /// Feeds a line: on the last row of the scroll region the region
    /// scrolls up by one; elsewhere the cursor moves down, unless it stands
    /// on the last row.
    pub fn linefeed(&mut self)
        requires
            old(self).wf(),
        ensures
            final(self).wf(),
            final(self)@ == old(self)@.linefeed(),
    {
        proof {
            self.lemma_rows();
        }
        let nxt = self.cur.y + 1;
        if nxt == self.scroll_range.1 {
            self.scroll_up(1);
        } else if nxt < self.buf.len() {
            self.cur.y += 1;
        }
    }

    /// Feeds a line and, in new line mode, returns the carriage.
    pub fn newline(&mut self)
        requires
            old(self).wf(),
        ensures
            final(self).wf(),
            final(self)@ == old(self)@.newline(),
    {
        self.linefeed();
        if self.mode.contains(LINE_FEED_NEW_LINE) {
            self.carriage_return();
        }
    }

    /// Moves up a line: on the first row of the scroll region the region
    /// scrolls down by one; elsewhere the cursor moves up, unless it stands
    /// on the first row.
    pub fn reverse_index(&mut self)
        requires
            old(self).wf(),
        ensures
            final(self).wf(),
            final(self)@ == old(self)@.reverse_index(),
    {
        if self.cur.y == self.scroll_range.0 {
            self.scroll_down(1);
        } else if self.cur.y > 0 {
            self.sub_y(1);
        }
    }

    /// Prints `c` at the cursor. A cursor beyond the last column first wraps
    /// to the following lines; where lines do not wrap, `c` is dropped.
    pub fn input(&mut self, c: u8)
        requires
            old(self).wf(),
        ensures
            final(self).wf(),
            final(self)@ == old(self)@.input(c),
    {
        if self.cur.x >= self.width && !self.mode.contains(LINE_WRAP) {
            return;
        }
        while self.cur.x >= self.width
            invariant
                self.wf(),
                self@.wrap() == old(self)@.wrap(),
            decreases self.cur.x,
        {
            self.cur.x -= self.width;
            self.linefeed();
        }
        let y = self.cur.y;
        let x = self.cur.x;
        self.set_cell(y, x, c);
        self.preceeding = Some(c);
        self.cur.x += 1;
    }

    /// Empties the part of the screen that `mode` names.
    pub fn clear_scr(&mut self, mode: ClearMode)
        requires
            old(self).wf(),
        ensures
            final(self).wf(),
            final(self)@ == old(self)@.clear_scr(mode),
    {
        proof {
            self.lemma_rows();
        }
        let ghost before = self@;
        let y = self.cur.y;
        let x = self.cur.x;
        match mode {
            ClearMode::All => {
                self.clear_rows(0, self.buf.len());
            },
            ClearMode::Above => {
                self.clear_rows(0, y);
                let to = if x < self.width { x + 1 } else { self.width };
                self.clear_cells(y, 0, to);
            },
            ClearMode::Below => {
                self.clear_rows(y + 1, self.buf.len());
                let from = if x < self.width { x } else { self.width };
                self.clear_cells(y, from, self.width);
            },
            ClearMode::Saved => {},
        }
        assert(self@.grid =~~= before.clear_scr(mode).grid);
    }

    /// Empties the part of the cursor's row that `mode` names.
    pub fn clear_line(&mut self, mode: LineClearMode)
        requires
            old(self).wf(),
        ensures
            final(self).wf(),
            final(self)@ == old(self)@.clear_line(mode),
    {
        let ghost before = self@;
        let y = self.cur.y;
        let x = self.cur.x;
        match mode {
            LineClearMode::Right => {
                let from = if x < self.width { x } else { self.width };
                self.clear_cells(y, from, self.width);
            },
            LineClearMode::Left => {
                let to = if x < self.width { x + 1 } else { self.width };
                self.clear_cells(y, 0, to);
            },
            LineClearMode::All => {
                self.clear_cells(y, 0, self.width);
            },
        }
        assert(self@.grid =~~= before.clear_line(mode).grid);
    }

    /// Inserts `num` empty rows at the cursor's row, if that row is in the
    /// scroll region.
    pub fn insert_blank_lines(&mut self, num: usize)
        requires
            old(self).wf(),
        ensures
            final(self).wf(),
            final(self)@ == old(self)@.insert_blank_lines(num as nat),
    {
        if self.scroll_range.contains(self.cur.y) {
            let origin = self.cur.y;
            self.scroll_down_relative(origin, num);
        }
    }

    /// Deletes `num` rows at the cursor's row, if that row is in the scroll
    /// region.
    pub fn delete_lines(&mut self, num: usize)
        requires
            old(self).wf(),
        ensures
            final(self).wf(),
            final(self)@ == old(self)@.delete_lines(num as nat),
    {
        if self.scroll_range.contains(self.cur.y) {
            let origin = self.cur.y;
            self.scroll_up_relative(origin, num);
        }
    }

    /// Inserts `num` empty cells at the cursor; the cells pushed beyond the
    /// last column are lost.
    pub fn insert_blank_chars(&mut self, num: usize)
        requires
            old(self).wf(),
        ensures
            final(self).wf(),
            final(self)@ == old(self)@.insert_blank_chars(num as nat),
    {
        let ghost before = self@;
        let y = self.cur.y;
        let x = self.cur.x;
        let mut tmp = blank_line(self.width);
        let mut j: usize = 0;
        while j < self.width
            invariant
                self.wf(),
                self@ == before,
                y == before.y,
                x == before.x,
                j <= self.width,
                tmp@.len() == self.width,
                forall|k: int|
                    0 <= k < self.width ==> tmp@[k] == if k < j {
                        before.insert_blank_chars(num as nat).grid[y as int][k]
                    } else {
                        SPACE
                    },
            decreases self.width - j,
        {
            if j < x {
                tmp[j] = self.cell(y, j);
            } else if j - x >= num {
                tmp[j] = self.cell(y, j - num);
            }
            j += 1;
        }
        self.set_line(y, tmp);
        assert(self@.grid[y as int] =~= before.insert_blank_chars(num as nat).grid[y as int]);
    }

    /// Empties the `num` cells at and right of the cursor.
    pub fn erase_chars(&mut self, num: usize)
        requires
            old(self).wf(),
        ensures
            final(self).wf(),
            final(self)@ == old(self)@.erase_chars(num as nat),
    {
        let ghost before = self@;
        let y = self.cur.y;
        let x = self.cur.x;
        let from = if x < self.width { x } else { self.width };
        let to = if num < self.width - from { from + num } else { self.width };
        self.clear_cells(y, from, to);
        assert(self@.grid =~~= before.erase_chars(num as nat).grid);
    }

    /// Deletes the `num` cells at and right of the cursor; empty cells come
    /// in at the end of the line.
    pub fn delete_chars(&mut self, num: usize)
        requires
            old(self).wf(),
        ensures
            final(self).wf(),
            final(self)@ == old(self)@.delete_chars(num as nat),
    {
        let ghost before = self@;
        let y = self.cur.y;
        let x = self.cur.x;
        let mut tmp = blank_line(self.width);
        let mut j: usize = 0;
        while j < self.width
            invariant
                self.wf(),
                self@ == before,
                y == before.y,
                x == before.x,
                j <= self.width,
                tmp@.len() == self.width,
                forall|k: int|
                    0 <= k < self.width ==> tmp@[k] == if k < j {
                        before.delete_chars(num as nat).grid[y as int][k]
                    } else {
                        SPACE
                    },
            decreases self.width - j,
        {
            if j < x {
                tmp[j] = self.cell(y, j);
            } else if num < self.width - j {
                tmp[j] = self.cell(y, j + num);
            }
            j += 1;
        }
        self.set_line(y, tmp);
        assert(self@.grid[y as int] =~= before.delete_chars(num as nat).grid[y as int]);
    }

    /// Sets the mode `mode`.
    pub fn set_mode(&mut self, mode: ModeInt)
        requires
            old(self).wf(),
        ensures
            final(self).wf(),
            final(self)@ == old(self)@.set_mode(mode),
    {
        match mode.switched_flag() {
            Some(flag) => self.mode.insert(flag),
            None => match mode {
                ModeInt::SwapScreenAndSetRestoreCursor => self.save_cursor(),
                _ => {},
            },
        }
    }

    /// Resets the mode `mode`.
    pub fn unset_mode(&mut self, mode: ModeInt)
        requires
            old(self).wf(),
        ensures
            final(self).wf(),
            final(self)@ == old(self)@.unset_mode(mode),
    {
        match mode.switched_flag() {
            Some(flag) => self.mode.remove(flag),
            None => match mode {
                ModeInt::SwapScreenAndSetRestoreCursor => self.restore_cursor(),
                _ => {},
            },
        }
    }

    /// Makes the keypad send application sequences.
    pub fn set_keyboard_app_mode(&mut self)
        requires
            old(self).wf(),
        ensures
            final(self).wf(),
            final(self)@ == old(self)@.set_keyboard_app_mode(),
    {
        self.mode.insert(APP_KEYPAD);
    }

    /// Makes the keypad send numbers.
    pub fn unset_keyboard_app_mode(&mut self)
        requires
            old(self).wf(),
        ensures
            final(self).wf(),
            final(self)@ == old(self)@.unset_keyboard_app_mode(),
    {
        self.mode.remove(APP_KEYPAD);
    }

    /// Makes the rows from position `top` to position `bottom`, both counted
    /// from 1 and included, the scroll region, if these are rows of the grid
    /// and `top` is not below `bottom`.
    pub fn set_scroll_region(&mut self, top: usize, bottom: usize)
        requires
            old(self).wf(),
        ensures
            final(self).wf(),
            final(self)@ == old(self)@.set_scroll_region(top as int, bottom as int),
    {
        if 1 <= top && top <= bottom && bottom <= self.buf.len() {
            self.scroll_range = LineRange(top - 1, bottom);
        }
    }
}

} // verus!
