//! What the terminal does with what a VT parser dispatches: printable
//! characters, control bytes, and the control and escape sequences.

use vstd::prelude::*;
use crate::mode::{ClearMode, LineClearMode, ModeInt};
use crate::screen::{Note, Screen};
use crate::term_data::TermData;

verus! {

/// Backspace.
pub const BS: u8 = 0x08;

/// Linefeed.
pub const LF: u8 = 0x0A;

/// Vertical tabulation; it feeds a line.
pub const VT: u8 = 0x0B;

/// Form feed; it feeds a line.
pub const FF: u8 = 0x0C;

/// Carriage return.
pub const CR: u8 = 0x0D;

/// Next line.
pub const NEL: u8 = 0x85;

/// `?`, the intermediate byte that marks a private sequence.
pub const PRIVATE: u8 = 0x3f;

/// `#`, the intermediate byte of the screen alignment test.
pub const HASH: u8 = 0x23;

/// `D`, the final byte of the index escape sequence.
pub const INDEX: u8 = 0x44;

/// `E`, the final byte of the next line escape sequence.
pub const NEXT_LINE: u8 = 0x45;

/// `M`, the final byte of the reverse index escape sequence.
pub const REVERSE_INDEX: u8 = 0x4d;

/// `7`, the final byte of the escape sequence that saves the cursor.
pub const SAVE_CURSOR: u8 = 0x37;

/// `8`, the final byte of the escape sequence that restores the cursor.
pub const RESTORE_CURSOR: u8 = 0x38;

/// `>`, the final byte of the escape sequence for the numeric keypad.
pub const KEYPAD_NUMERIC: u8 = 0x3e;

/// `=`, the final byte of the escape sequence for the application keypad.
pub const KEYPAD_APPLICATION: u8 = 0x3d;

/// `\\`, the final byte of the string terminator.
pub const STRING_TERMINATOR: u8 = 0x5c;

/// Whether `c` is an ASCII character.
pub open spec fn is_ascii(c: char) -> bool {
    (c as u32) < 0x80
}

/// The byte that a character is stored as: the low byte of its code.
pub open spec fn low_byte(c: char) -> u8 {
    (c as u32 & 0xff) as u8
}

/// The `id`-th argument of a sequence, or `default` where it has none.
pub open spec fn arg_or(args: Seq<i64>, id: int, default: int) -> int {
    if 0 <= id < args.len() {
        args[id] as int
    } else {
        default
    }
}

/// An argument read as a count: a negative one counts as 0, and one beyond
/// the machine's word as the largest count the word holds.
pub open spec fn count(v: int) -> nat {
    if v < 0 {
        0
    } else if v > usize::MAX {
        usize::MAX as nat
    } else {
        v as nat
    }
}

/// A position on the wire, which counts from 1, as an index, which counts
/// from 0.
pub open spec fn index_of(position: nat) -> nat {
    if position >= 1 {
        (position - 1) as nat
    } else {
        0
    }
}

/// Whether a sequence is a private one: its first intermediate is `?`.
pub open spec fn is_private(intermediates: Seq<u8>) -> bool {
    intermediates.len() > 0 && intermediates[0] == PRIVATE
}

/// The smaller of two numbers.
pub open spec fn least(a: int, b: int) -> int {
    if a <= b {
        a
    } else {
        b
    }
}

impl Screen {
    /// The cursor moves up by `n` rows, at most to the first row.
    pub open spec fn cursor_up(self, n: nat) -> Screen {
        self.sub_y(least(n as int, self.y as int) as nat)
    }

    /// The cursor moves down by `n` rows, at most to the last row.
    pub open spec fn cursor_down(self, n: nat) -> Screen {
        self.add_y(least(n as int, self.height() - 1 - self.y) as nat)
    }

    /// The cursor moves right by `n` columns, also beyond the last column,
    /// as far as the machine's word counts.
    pub open spec fn cursor_right(self, n: nat) -> Screen {
        self.add_x(least(n as int, usize::MAX - self.x) as nat)
    }

    /// The cursor moves left by `n` columns, at most to the first column.
    pub open spec fn cursor_left(self, n: nat) -> Screen {
        self.sub_x(least(n as int, self.x as int) as nat)
    }

    /// The cursor moves to the column at position `col`.
    pub open spec fn goto_column(self, col: nat) -> Screen {
        self.goto_x(index_of(col))
    }

    /// The cursor moves to the row at position `row`, at most to the last
    /// row.
    pub open spec fn goto_line(self, row: nat) -> Screen {
        self.goto_y(least(index_of(row) as int, self.height() - 1) as nat)
    }

    /// A printable character arrives: it is printed as its low byte, and
    /// one that is not ASCII is noted.
    pub open spec fn print(self, c: char) -> Screen {
        if is_ascii(c) {
            self.input(low_byte(c))
        } else {
            self.noted(Note::NonAscii(c)).input(low_byte(c))
        }
    }

    /// A control byte arrives: backspace, carriage return, the three that
    /// feed a line, and next line act; the others are noted.
    pub open spec fn execute(self, byte: u8) -> Screen {
        if byte == BS {
            self.backspace()
        } else if byte == CR {
            self.carriage_return()
        } else if byte == LF || byte == VT || byte == FF {
            self.linefeed()
        } else if byte == NEL {
            self.newline()
        } else {
            self.noted(Note::Execute(byte))
        }
    }

    /// What a control sequence with the final character `action` does. A
    /// count that is not given is 1. A sequence that the terminal does not
    /// know or cannot follow changes nothing and is noted.
    pub open spec fn csi_dispatch(
        self,
        args: Seq<i64>,
        intermediates: Seq<u8>,
        ignore: bool,
        action: char,
    ) -> Screen {
        let n = count(arg_or(args, 0, 1));
        let unhandled = self.noted(Note::Csi(action));
        if action == '@' {
            self.insert_blank_chars(n)
        } else if action == 'A' {
            self.cursor_up(n)
        } else if action == 'b' {
            match self.preceding {
                Some(c) => self.repeat(c, n),
                None => self.noted(Note::NothingToRepeat),
            }
        } else if action == 'B' || action == 'e' {
            self.cursor_down(n)
        } else if action == 'C' || action == 'a' {
            self.cursor_right(n)
        } else if action == 'D' {
            self.cursor_left(n)
        } else if action == 'E' {
            self.cursor_down(n).carriage_return()
        } else if action == 'F' {
            self.cursor_up(n).carriage_return()
        } else if action == 'G' || action == '`' {
            self.goto_column(n)
        } else if action == 'H' || action == 'f' {
            self.goto_line(n).goto_column(count(arg_or(args, 1, 1)))
        } else if action == 'J' {
            let which = arg_or(args, 0, 0);
            if which == 0 {
                self.clear_scr(ClearMode::Below)
            } else if which == 1 {
                self.clear_scr(ClearMode::Above)
            } else if which == 2 {
                self.clear_scr(ClearMode::All)
            } else if which == 3 {
                self.clear_scr(ClearMode::Saved)
            } else {
                unhandled
            }
        } else if action == 'K' {
            let which = arg_or(args, 0, 0);
            if which == 0 {
                self.clear_line(LineClearMode::Right)
            } else if which == 1 {
                self.clear_line(LineClearMode::Left)
            } else if which == 2 {
                self.clear_line(LineClearMode::All)
            } else {
                unhandled
            }
        } else if action == 'S' {
            self.scroll_up(n)
        } else if action == 'T' {
            self.scroll_down(n)
        } else if action == 'L' {
            self.insert_blank_lines(n)
        } else if action == 'l' {
            match ModeInt::of_code(is_private(intermediates), arg_or(args, 0, 0)) {
                Some(mode) => self.unset_mode(mode),
                None => unhandled,
            }
        } else if action == 'M' {
            self.delete_lines(n)
        } else if action == 'X' {
            self.erase_chars(n)
        } else if action == 'P' {
            self.delete_chars(n)
        } else if action == 'd' {
            self.goto_line(n)
        } else if action == 'h' {
            match ModeInt::of_code(is_private(intermediates), arg_or(args, 0, 0)) {
                Some(mode) => self.set_mode(mode),
                None => unhandled,
            }
        } else if action == 'r' {
            let top = arg_or(args, 0, 1);
            let bottom = arg_or(args, 1, self.height() as int);
            if !is_private(intermediates) && self.region_fits(top, bottom) {
                self.set_scroll_region(top, bottom)
            } else {
                unhandled
            }
        } else if action == 's' {
            self.save_cursor()
        } else if action == 'u' {
            self.restore_cursor()
        } else {
            unhandled
        }
    }

    /// What an escape sequence with the final byte `byte` does: index and
    /// next line move the cursor down, at most to the last row; the string
    /// terminator does nothing; the screen alignment test is not performed
    /// and is noted, as is a final byte that is not known.
    pub open spec fn esc_dispatch(
        self,
        params: Seq<i64>,
        intermediates: Seq<u8>,
        ignore: bool,
        byte: u8,
    ) -> Screen {
        if byte == INDEX {
            self.cursor_down(1)
        } else if byte == NEXT_LINE {
            self.cursor_down(1).goto_x(0)
        } else if byte == REVERSE_INDEX {
            self.reverse_index()
        } else if byte == SAVE_CURSOR {
            self.save_cursor()
        } else if byte == RESTORE_CURSOR {
            if intermediates.len() > 0 && intermediates[0] == HASH {
                self.noted(Note::Esc(byte))
            } else {
                self.restore_cursor()
            }
        } else if byte == KEYPAD_NUMERIC {
            self.unset_keyboard_app_mode()
        } else if byte == KEYPAD_APPLICATION {
            self.set_keyboard_app_mode()
        } else if byte == STRING_TERMINATOR {
            self
        } else {
            self.noted(Note::Esc(byte))
        }
    }
}

/// The `id`-th argument of a sequence, or `default` where it has none.
fn arg(args: &[i64], id: usize, default: i64) -> (v: i64)
    ensures
        v == arg_or(args@, id as int, default as int),
{
    if id >= args.len() {
        default
    } else {
        args[id]
    }
}

/// An argument as a count.
fn to_count(v: i64) -> (n: usize)
    ensures
        n == count(v as int),
{
    if v <= 0 {
        0
    } else if v as u64 > usize::MAX as u64 {
        usize::MAX
    } else {
        v as usize
    }
}

/// An argument as a number of the machine's word, if it is one.
fn to_word(v: i64) -> (n: Option<usize>)
    ensures
        n.is_some() == (0 <= v <= usize::MAX),
        n.is_some() ==> n.unwrap() == v,
{
    if v < 0 || v as u64 > usize::MAX as u64 {
        None
    } else {
        Some(v as usize)
    }
}

/// Whether a sequence is a private one.
fn private(intermediates: &[u8]) -> (p: bool)
    ensures
        p == is_private(intermediates@),
{
    intermediates.len() > 0 && intermediates[0] == PRIVATE
}

impl TermData {
    /// Moves the cursor up by `n` rows, at most to the first row.
    pub fn cursor_up(&mut self, n: usize)
        requires
            old(self).wf(),
        ensures
            final(self).wf(),
            final(self)@ == old(self)@.cursor_up(n as nat),
    {
        let y = self.cursor().y;
        self.sub_y(if n < y { n } else { y });
    }

    /// Moves the cursor down by `n` rows, at most to the last row.
    pub fn cursor_down(&mut self, n: usize)
        requires
            old(self).wf(),
        ensures
            final(self).wf(),
            final(self)@ == old(self)@.cursor_down(n as nat),
    {
        let room = self.lines() - 1 - self.cursor().y;
        self.add_y(if n < room { n } else { room });
    }

    /// Moves the cursor right by `n` columns, also beyond the last column.
    pub fn cursor_right(&mut self, n: usize)
        requires
            old(self).wf(),
        ensures
            final(self).wf(),
            final(self)@ == old(self)@.cursor_right(n as nat),
    {
        let room = usize::MAX - self.cursor().x;
        self.add_x(if n < room { n } else { room });
    }

    /// Moves the cursor left by `n` columns, at most to the first column.
    pub fn cursor_left(&mut self, n: usize)
        requires
            old(self).wf(),
        ensures
            final(self).wf(),
            final(self)@ == old(self)@.cursor_left(n as nat),
    {
        let x = self.cursor().x;
        self.sub_x(if n < x { n } else { x });
    }

    /// Moves the cursor to the column at position `col`, counted from 1.
    pub fn goto_column(&mut self, col: usize)
        requires
            old(self).wf(),
        ensures
            final(self).wf(),
            final(self)@ == old(self)@.goto_column(col as nat),
    {
        self.goto_x(if col >= 1 { col - 1 } else { 0 });
    }

    /// Moves the cursor to the row at position `row`, counted from 1, at
    /// most to the last row.
    pub fn goto_line(&mut self, row: usize)
        requires
            old(self).wf(),
        ensures
            final(self).wf(),
            final(self)@ == old(self)@.goto_line(row as nat),
    {
        let y = if row >= 1 { row - 1 } else { 0 };
        let last = self.lines() - 1;
        self.goto_y(if y < last { y } else { last });
    }

    /// Prints `c` `n` times.
    pub fn repeat(&mut self, c: u8, n: usize)
        requires
            old(self).wf(),
        ensures
            final(self).wf(),
            final(self)@ == old(self)@.repeat(c, n as nat),
    {
        let mut k: usize = 0;
        while k < n
            invariant
                self.wf(),
                k <= n,
                self@.repeat(c, (n - k) as nat) == old(self)@.repeat(c, n as nat),
            decreases n - k,
        {
            self.input(c);
            k += 1;
        }
    }

    /// A printable character arrives. One that is not ASCII is stored as the
    /// low byte of its code.
    pub fn print(&mut self, c: char)
        requires
            old(self).wf(),
        ensures
            final(self).wf(),
            final(self)@ == old(self)@.print(c),
    {
        let wide = c as u32;
        let code = wide & 0xff;
        assert(code <= 0xff) by (bit_vector)
            requires
                code == wide & 0xff,
        ;
        if wide >= 0x80 {
            self.note(Note::NonAscii(c));
        }
        self.input(code as u8);
    }

    /// A control byte arrives.
    pub fn execute(&mut self, byte: u8)
        requires
            old(self).wf(),
        ensures
            final(self).wf(),
            final(self)@ == old(self)@.execute(byte),
    {
        match byte {
            BS => self.backspace(),
            CR => self.carriage_return(),
            LF | VT | FF => self.linefeed(),
            NEL => self.newline(),
            _ => self.note(Note::Execute(byte)),
        }
    }

    /// A control sequence arrives, with its arguments, its intermediate
    /// bytes and its final character.
    pub fn csi_dispatch(&mut self, args: &[i64], intermediates: &[u8], ignore: bool, action: char)
        requires
            old(self).wf(),
        ensures
            final(self).wf(),
            final(self)@ == old(self)@.csi_dispatch(args@, intermediates@, ignore, action),
    {
        proof {
            self.lemma_bounds();
        }
        let n = to_count(arg(args, 0, 1));
        match action {
            '@' => self.insert_blank_chars(n),
            'A' => self.cursor_up(n),
            'b' => match self.preceding() {
                Some(c) => self.repeat(c, n),
                None => self.note(Note::NothingToRepeat),
            },
            'B' | 'e' => self.cursor_down(n),
            'C' | 'a' => self.cursor_right(n),
            'D' => self.cursor_left(n),
            'E' => {
                self.cursor_down(n);
                self.carriage_return();
            },
            'F' => {
                self.cursor_up(n);
                self.carriage_return();
            },
            'G' | '`' => self.goto_column(n),
            'H' | 'f' => {
                self.goto_line(n);
                self.goto_column(to_count(arg(args, 1, 1)));
            },
            'J' => {
                match arg(args, 0, 0) {
                    0 => self.clear_scr(ClearMode::Below),
                    1 => self.clear_scr(ClearMode::Above),
                    2 => self.clear_scr(ClearMode::All),
                    3 => self.clear_scr(ClearMode::Saved),
                    _ => self.note(Note::Csi(action)),
                }
            },
            'K' => {
                match arg(args, 0, 0) {
                    0 => self.clear_line(LineClearMode::Right),
                    1 => self.clear_line(LineClearMode::Left),
                    2 => self.clear_line(LineClearMode::All),
                    _ => self.note(Note::Csi(action)),
                }
            },
            'S' => self.scroll_up(n),
            'T' => self.scroll_down(n),
            'L' => self.insert_blank_lines(n),
            'l' => {
                match ModeInt::from_primitive(private(intermediates), arg(args, 0, 0)) {
                    Some(m) => self.unset_mode(m),
                    None => self.note(Note::Csi(action)),
                }
            },
            'M' => self.delete_lines(n),
            'X' => self.erase_chars(n),
            'P' => self.delete_chars(n),
            'd' => self.goto_line(n),
            'h' => {
                match ModeInt::from_primitive(private(intermediates), arg(args, 0, 0)) {
                    Some(m) => self.set_mode(m),
                    None => self.note(Note::Csi(action)),
                }
            },
            'r' => {
                let top = to_word(arg(args, 0, 1));
                let bottom = if args.len() > 1 {
                    to_word(args[1])
                } else {
                    Some(self.lines())
                };
                match (private(intermediates), top, bottom) {
                    (false, Some(top), Some(bottom)) => {
                        if 1 <= top && top <= bottom && bottom <= self.lines() {
                            self.set_scroll_region(top, bottom);
                        } else {
                            self.note(Note::Csi(action));
                        }
                    },
                    _ => self.note(Note::Csi(action)),
                }
            },
            's' => self.save_cursor(),
            'u' => self.restore_cursor(),
            _ => self.note(Note::Csi(action)),
        }
    }

    /// An escape sequence arrives, with its intermediate bytes and its final
    /// byte.
    pub fn esc_dispatch(&mut self, params: &[i64], intermediates: &[u8], ignore: bool, byte: u8)
        requires
            old(self).wf(),
        ensures
            final(self).wf(),
            final(self)@ == old(self)@.esc_dispatch(params@, intermediates@, ignore, byte),
    {
        match byte {
            INDEX => self.cursor_down(1),
            NEXT_LINE => {
                self.cursor_down(1);
                self.goto_x(0);
            },
            REVERSE_INDEX => self.reverse_index(),
            SAVE_CURSOR => self.save_cursor(),
            RESTORE_CURSOR => {
                if intermediates.len() > 0 && intermediates[0] == HASH {
                    self.note(Note::Esc(byte));
                } else {
                    self.restore_cursor();
                }
            },
            KEYPAD_NUMERIC => self.unset_keyboard_app_mode(),
            KEYPAD_APPLICATION => self.set_keyboard_app_mode(),
            STRING_TERMINATOR => {},
            _ => self.note(Note::Esc(byte)),
        }
    }

    /// An operating system command arrives. None is performed; it is noted.
    pub fn osc_dispatch(&mut self, params: &[Vec<u8>])
        requires
            old(self).wf(),
        ensures
            final(self).wf(),
            final(self)@ == old(self)@.noted(Note::Osc),
    {
        self.note(Note::Osc);
    }

    /// A device control string begins. None is performed; it is noted.
    pub fn hook(&mut self, params: &[i64], intermediates: &[u8], ignore: bool)
        requires
            old(self).wf(),
        ensures
            final(self).wf(),
            final(self)@ == old(self)@.noted(Note::Hook),
    {
        self.note(Note::Hook);
    }

    /// A byte of a device control string arrives. It is noted.
    pub fn put(&mut self, byte: u8)
        requires
            old(self).wf(),
        ensures
            final(self).wf(),
            final(self)@ == old(self)@.noted(Note::Put(byte)),
    {
        self.note(Note::Put(byte));
    }

    /// A device control string ends. It is noted.
    pub fn unhook(&mut self)
        requires
            old(self).wf(),
        ensures
            final(self).wf(),
            final(self)@ == old(self)@.noted(Note::Unhook),
    {
        self.note(Note::Unhook);
    }
}

} // verus!
