//! The mathematical screen: what a terminal shows and where its cursor is,
//! and what each operation of the emulator makes of it.

use vstd::prelude::*;
use crate::mode::{
    ClearMode, LineClearMode, ModeInt, TermMode, APP_KEYPAD, LINE_FEED_NEW_LINE, LINE_WRAP,
};

verus! {

/// The byte of an empty cell.
pub const SPACE: u8 = 0x20;

/// A row of `width` empty cells.
pub open spec fn blank_row(width: nat) -> Seq<u8> {
    Seq::new(width, |j: int| SPACE)
}

/// The content of a grid that is held row by row.
pub open spec fn rows(cells: Seq<Vec<u8>>) -> Seq<Seq<u8>> {
    Seq::new(cells.len(), |i: int| cells[i]@)
}

/// What the terminal was sent and did not act on, for whoever keeps a log.
#[derive(Clone, Copy, Debug, PartialEq, Eq, Structural)]
pub enum Note {
    /// A printed character that is not ASCII. It was stored as its low byte.
    NonAscii(char),
    /// A control byte that the terminal does not know.
    Execute(u8),
    /// A control sequence that the terminal does not know or cannot follow,
    /// by its final character.
    Csi(char),
    /// An escape sequence that the terminal does not know or does not
    /// perform, by its final byte.
    Esc(u8),
    /// A request to repeat the preceding character when none was printed.
    NothingToRepeat,
    /// An operating system command.
    Osc,
    /// The start of a device control string.
    Hook,
    /// A byte of a device control string.
    Put(u8),
    /// The end of a device control string.
    Unhook,
}

/// A terminal's state. Rows and columns count from 0 at the top left.
#[verifier::ext_equal]
pub struct Screen {
    /// The cells, row by row.
    pub grid: Seq<Seq<u8>>,
    /// The number of columns.
    pub width: nat,
    /// The cursor's column. It may stand at or beyond `width` until the next
    /// character is printed.
    pub x: nat,
    /// The cursor's row.
    pub y: nat,
    /// The column of the saved cursor.
    pub saved_x: nat,
    /// The row of the saved cursor.
    pub saved_y: nat,
    /// The first row of the scroll region.
    pub top: nat,
    /// The row after the last row of the scroll region.
    pub bottom: nat,
    /// The terminal modes that are set.
    pub mode: TermMode,
    /// The character printed last, if any.
    pub preceding: Option<u8>,
    /// What the terminal did not act on since the notes were last taken,
    /// oldest first.
    pub notes: Seq<Note>,
}

impl Screen {
    /// The number of rows.
    pub open spec fn height(self) -> nat {
        self.grid.len()
    }

    /// What holds of every screen: it has at least one cell, every row has
    /// `width` cells, the cursor and the saved cursor stand in a row of the
    /// grid, and the scroll region is a non-empty range of rows.
    pub open spec fn wf(self) -> bool {
        &&& self.height() >= 1
        &&& self.width >= 1
        &&& forall|i: int| 0 <= i < self.grid.len() ==> (#[trigger] self.grid[i]).len() == self.width
        &&& self.y < self.height()
        &&& self.saved_y < self.height()
        &&& self.top < self.bottom <= self.height()
    }

    /// Whether `other` has as many rows and columns.
    pub open spec fn same_size(self, other: Screen) -> bool {
        self.height() == other.height() && self.width == other.width
    }

    /// Whether `other` has the same saved cursor.
    pub open spec fn same_saved(self, other: Screen) -> bool {
        self.saved_x == other.saved_x && self.saved_y == other.saved_y
    }

    /// Whether the cursor stands on a cell of the grid.
    pub open spec fn cursor_in_grid(self) -> bool {
        self.x < self.width && self.y < self.height()
    }

    /// Whether every cell is empty.
    pub open spec fn is_blank(self) -> bool {
        forall|i: int, j: int|
            0 <= i < self.grid.len() && 0 <= j < self.grid[i].len() ==> self.grid[i][j] == SPACE
    }

    /// The screen of a terminal of `height` rows and `width` columns that has
    /// received nothing yet.
    pub open spec fn initial(height: nat, width: nat) -> Screen {
        Screen {
            grid: Seq::new(height, |i: int| blank_row(width)),
            width,
            x: 0,
            y: 0,
            saved_x: 0,
            saved_y: 0,
            top: 0,
            bottom: height,
            mode: TermMode::initial(),
            preceding: None,
            notes: Seq::empty(),
        }
    }

    /// The same screen with `note` added to its notes.
    pub open spec fn noted(self, note: Note) -> Screen {
        Screen { notes: self.notes.push(note), ..self }
    }

    /// The same screen with its notes taken.
    pub open spec fn without_notes(self) -> Screen {
        Screen { notes: Seq::empty(), ..self }
    }

    /// The same screen with other cells.
    pub open spec fn with_grid(self, grid: Seq<Seq<u8>>) -> Screen {
        Screen { grid, ..self }
    }

    /// The same screen with the cursor at column `x` of row `y`.
    pub open spec fn with_cursor(self, x: nat, y: nat) -> Screen {
        Screen { x, y, ..self }
    }

    /// The same screen with row `y` replaced by `row`.
    pub open spec fn with_row(self, y: int, row: Seq<u8>) -> Screen {
        self.with_grid(self.grid.update(y, row))
    }

    /// The cursor goes to the first column.
    pub open spec fn carriage_return(self) -> Screen {
        self.with_cursor(0, self.y)
    }

    /// The cursor goes one column to the left, unless it stands in the
    /// first.
    pub open spec fn backspace(self) -> Screen {
        if self.x > 0 {
            self.with_cursor((self.x - 1) as nat, self.y)
        } else {
            self
        }
    }

    /// The cursor goes `n` columns to the right.
    pub open spec fn add_x(self, n: nat) -> Screen {
        self.with_cursor(self.x + n, self.y)
    }

    /// The cursor goes `n` columns to the left; `n` is at most its column.
    pub open spec fn sub_x(self, n: nat) -> Screen {
        self.with_cursor((self.x - n) as nat, self.y)
    }

    /// The cursor goes `n` rows down.
    pub open spec fn add_y(self, n: nat) -> Screen {
        self.with_cursor(self.x, self.y + n)
    }

    /// The cursor goes `n` rows up; `n` is at most its row.
    pub open spec fn sub_y(self, n: nat) -> Screen {
        self.with_cursor(self.x, (self.y - n) as nat)
    }

    /// The cursor goes to column `x`.
    pub open spec fn goto_x(self, x: nat) -> Screen {
        self.with_cursor(x, self.y)
    }

    /// The cursor goes to row `y`.
    pub open spec fn goto_y(self, y: nat) -> Screen {
        self.with_cursor(self.x, y)
    }

    /// The cursor's position is saved.
    pub open spec fn save_cursor(self) -> Screen {
        Screen { saved_x: self.x, saved_y: self.y, ..self }
    }

    /// The cursor goes to the saved position.
    pub open spec fn restore_cursor(self) -> Screen {
        self.with_cursor(self.saved_x, self.saved_y)
    }

    /// Rows `origin` up to the end of the scroll region move up by `n`: each
    /// takes the content of the row `n` below it, or becomes empty where that
    /// row is outside the region.
    pub open spec fn scroll_up_relative(self, origin: nat, n: nat) -> Screen {
        self.with_grid(
            Seq::new(
                self.grid.len(),
                |i: int|
                    if origin <= i < self.bottom {
                        if i + n < self.bottom {
                            self.grid[i + n]
                        } else {
                            blank_row(self.width)
                        }
                    } else {
                        self.grid[i]
                    },
            ),
        )
    }

    /// Rows `origin` up to the end of the scroll region move down by `n`:
    /// each takes the content of the row `n` above it, or becomes empty where
    /// that row is above `origin`.
    pub open spec fn scroll_down_relative(self, origin: nat, n: nat) -> Screen {
        self.with_grid(
            Seq::new(
                self.grid.len(),
                |i: int|
                    if origin <= i < self.bottom {
                        if origin <= i - n {
                            self.grid[i - n]
                        } else {
                            blank_row(self.width)
                        }
                    } else {
                        self.grid[i]
                    },
            ),
        )
    }

    /// The scroll region moves up by `n` rows.
    pub open spec fn scroll_up(self, n: nat) -> Screen {
        self.scroll_up_relative(self.top, n)
    }

    /// The scroll region moves down by `n` rows.
    pub open spec fn scroll_down(self, n: nat) -> Screen {
        self.scroll_down_relative(self.top, n)
    }

    /// On the last row of the scroll region the region scrolls up by one;
    /// elsewhere the cursor moves down, unless it stands on the last row.
    pub open spec fn linefeed(self) -> Screen {
        if self.y + 1 == self.bottom {
            self.scroll_up(1)
        } else if self.y + 1 < self.height() {
            self.with_cursor(self.x, self.y + 1)
        } else {
            self
        }
    }

    /// A linefeed, and in new line mode a carriage return after it.
    pub open spec fn newline(self) -> Screen {
        if self.mode.holds(LINE_FEED_NEW_LINE) {
            self.linefeed().carriage_return()
        } else {
            self.linefeed()
        }
    }

    /// On the first row of the scroll region the region scrolls down by one;
    /// elsewhere the cursor moves up, unless it stands on the first row.
    pub open spec fn reverse_index(self) -> Screen {
        if self.y == self.top {
            self.scroll_down(1)
        } else if self.y > 0 {
            self.with_cursor(self.x, (self.y - 1) as nat)
        } else {
            self
        }
    }

    /// The cursor brought back into the grid: while it stands at or beyond the
    /// last column it moves `width` columns to the left and one line down.
    pub open spec fn wrap(self) -> Screen
        decreases self.x,
    {
        if self.width > 0 && self.x >= self.width {
            self.with_cursor((self.x - self.width) as nat, self.y).linefeed().wrap()
        } else {
            self
        }
    }

    /// The screen with `c` written under the cursor and the cursor one column
    /// to the right.
    pub open spec fn write(self, c: u8) -> Screen {
        Screen {
            preceding: Some(c),
            x: self.x + 1,
            ..self.with_row(self.y as int, self.grid[self.y as int].update(self.x as int, c))
        }
    }

    /// A character arrives: a cursor beyond the last column first wraps, or,
    /// where lines do not wrap, the character is dropped.
    pub open spec fn input(self, c: u8) -> Screen {
        if self.x >= self.width && !self.mode.holds(LINE_WRAP) {
            self
        } else {
            self.wrap().write(c)
        }
    }

    /// `c` arrives `n` times.
    pub open spec fn repeat(self, c: u8, n: nat) -> Screen
        decreases n,
    {
        if n == 0 {
            self
        } else {
            self.input(c).repeat(c, (n - 1) as nat)
        }
    }

    /// Whether `clear_scr(mode)` empties the cell at column `j` of row `i`.
    pub open spec fn clears(self, mode: ClearMode, i: int, j: int) -> bool {
        match mode {
            ClearMode::Below => i > self.y || (i == self.y && j >= self.x),
            ClearMode::Above => i < self.y || (i == self.y && j <= self.x),
            ClearMode::All => true,
            ClearMode::Saved => false,
        }
    }

    /// The screen with the cells of row `y` from column `from` up to, but
    /// without, column `to` emptied.
    pub open spec fn blank_cells(self, y: int, from: int, to: int) -> Screen {
        let row = self.grid[y];
        self.with_row(
            y,
            Seq::new(
                row.len(),
                |j: int|
                    if from <= j < to {
                        SPACE
                    } else {
                        row[j]
                    },
            ),
        )
    }

    /// The part of the screen that `mode` names is emptied.
    pub open spec fn clear_scr(self, mode: ClearMode) -> Screen {
        self.with_grid(
            Seq::new(
                self.grid.len(),
                |i: int|
                    Seq::new(
                        self.grid[i].len(),
                        |j: int|
                            if self.clears(mode, i, j) {
                                SPACE
                            } else {
                                self.grid[i][j]
                            },
                    ),
            ),
        )
    }

    /// Whether `clear_line(mode)` empties the cell at column `j` of the
    /// cursor's row.
    pub open spec fn clears_in_line(self, mode: LineClearMode, j: int) -> bool {
        match mode {
            LineClearMode::Right => j >= self.x,
            LineClearMode::Left => j <= self.x,
            LineClearMode::All => true,
        }
    }

    /// The screen with the cursor's row rebuilt cell by cell.
    pub open spec fn map_line(self, cell: spec_fn(int) -> u8) -> Screen {
        self.with_row(self.y as int, Seq::new(self.grid[self.y as int].len(), cell))
    }

    /// The part of the cursor's row that `mode` names is emptied.
    pub open spec fn clear_line(self, mode: LineClearMode) -> Screen {
        let row = self.grid[self.y as int];
        self.map_line(
            |j: int|
                if self.clears_in_line(mode, j) {
                    SPACE
                } else {
                    row[j]
                },
        )
    }

    /// With the cursor in the scroll region, the rows from the cursor's to
    /// the end of the region move down by `n`, and `n` empty rows take their
    /// place; elsewhere nothing changes.
    pub open spec fn insert_blank_lines(self, n: nat) -> Screen {
        if self.top <= self.y < self.bottom {
            self.scroll_down_relative(self.y, n)
        } else {
            self
        }
    }

    /// With the cursor in the scroll region, the rows below the cursor's
    /// move up by `n`, over the `n` rows at the cursor, and empty rows fill
    /// the end of the region; elsewhere nothing changes.
    pub open spec fn delete_lines(self, n: nat) -> Screen {
        if self.top <= self.y < self.bottom {
            self.scroll_up_relative(self.y, n)
        } else {
            self
        }
    }

    /// The cells at and right of the cursor move `n` columns to the right,
    /// and `n` empty cells take their place.
    pub open spec fn insert_blank_chars(self, n: nat) -> Screen {
        let row = self.grid[self.y as int];
        self.map_line(
            |j: int|
                if j < self.x {
                    row[j]
                } else if self.x <= j - n {
                    row[j - n]
                } else {
                    SPACE
                },
        )
    }

    /// The cells right of the cursor move `n` columns to the left, over the
    /// `n` cells at the cursor, and empty cells fill the end of the line.
    pub open spec fn delete_chars(self, n: nat) -> Screen {
        let row = self.grid[self.y as int];
        self.map_line(
            |j: int|
                if j < self.x {
                    row[j]
                } else if j + n < row.len() {
                    row[j + n]
                } else {
                    SPACE
                },
        )
    }

    /// The `n` cells at and right of the cursor become empty.
    pub open spec fn erase_chars(self, n: nat) -> Screen {
        let row = self.grid[self.y as int];
        self.map_line(
            |j: int|
                if self.x <= j < self.x + n {
                    SPACE
                } else {
                    row[j]
                },
        )
    }

    /// Whether the rows from position `top` to position `bottom`, both
    /// counted from 1 and included, are rows of the grid, at least one.
    pub open spec fn region_fits(self, top: int, bottom: int) -> bool {
        1 <= top <= bottom <= self.height()
    }

    /// The scroll region becomes the rows from position `top` to position
    /// `bottom`, both counted from 1 and included, if these are rows of the
    /// grid and `top` is not below `bottom`; else it stays as it is.
    pub open spec fn set_scroll_region(self, top: int, bottom: int) -> Screen {
        if self.region_fits(top, bottom) {
            Screen { top: (top - 1) as nat, bottom: bottom as nat, ..self }
        } else {
            self
        }
    }

    /// The same screen with the modes of `mode` set.
    pub open spec fn with_mode(self, mode: TermMode) -> Screen {
        Screen { mode, ..self }
    }

    /// Mode 1049 saves the cursor; a mode with a flag sets it; the others
    /// change nothing.
    pub open spec fn set_mode(self, mode: ModeInt) -> Screen {
        match mode.flag() {
            Some(flag) => self.with_mode(self.mode.with(flag)),
            None => if mode == ModeInt::SwapScreenAndSetRestoreCursor {
                self.save_cursor()
            } else {
                self
            },
        }
    }

    /// Mode 1049 restores the cursor; a mode with a flag resets it; the
    /// others change nothing.
    pub open spec fn unset_mode(self, mode: ModeInt) -> Screen {
        match mode.flag() {
            Some(flag) => self.with_mode(self.mode.without(flag)),
            None => if mode == ModeInt::SwapScreenAndSetRestoreCursor {
                self.restore_cursor()
            } else {
                self
            },
        }
    }

    /// The keypad sends application sequences.
    pub open spec fn set_keyboard_app_mode(self) -> Screen {
        self.with_mode(self.mode.with(APP_KEYPAD))
    }

    /// The keypad sends numbers.
    pub open spec fn unset_keyboard_app_mode(self) -> Screen {
        self.with_mode(self.mode.without(APP_KEYPAD))
    }
}

} // verus!
