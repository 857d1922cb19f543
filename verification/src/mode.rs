//! Terminal modes: the set of flags that the emulator keeps, and the numeric
//! codes by which `CSI h` and `CSI l` name them.

use vstd::prelude::*;

verus! {

/// The cursor is shown.
pub const SHOW_CURSOR: u16 = 0x001;

/// Cursor keys send application sequences.
pub const APP_CURSOR: u16 = 0x002;

/// The keypad sends application sequences.
pub const APP_KEYPAD: u16 = 0x004;

/// Mouse clicks are reported.
pub const MOUSE_REPORT_CLICK: u16 = 0x008;

/// Pasted text is bracketed.
pub const BRACKETED_PASTE: u16 = 0x010;

/// Mouse reports use the SGR encoding.
pub const SGR_MOUSE: u16 = 0x020;

/// Mouse motion is reported.
pub const MOUSE_MOTION: u16 = 0x040;

/// A character printed past the last column wraps to the next line.
pub const LINE_WRAP: u16 = 0x080;

/// A new line also returns the carriage.
pub const LINE_FEED_NEW_LINE: u16 = 0x100;

/// Cursor addresses are relative to the scroll region.
pub const ORIGIN: u16 = 0x200;

/// Printed characters are inserted, not overwritten.
pub const INSERT: u16 = 0x400;

/// Focus changes are reported.
pub const FOCUS_IN_OUT: u16 = 0x800;

/// Every flag.
pub const ANY: u16 = 0xfff;

/// No flag.
pub const NONE: u16 = 0;

/// A set of terminal mode flags, one bit each.
#[derive(Clone, Copy, Debug, PartialEq, Eq, Structural)]
pub struct TermMode {
    pub bits: u16,
}

impl TermMode {
    /// Whether every flag of `flags` is in the set.
    pub open spec fn holds(self, flags: u16) -> bool {
        self.bits & flags == flags
    }

    /// The set with the flags of `flags` added.
    pub open spec fn with(self, flags: u16) -> TermMode {
        TermMode { bits: self.bits | flags }
    }

    /// The set with the flags of `flags` taken out.
    pub open spec fn without(self, flags: u16) -> TermMode {
        TermMode { bits: self.bits & !flags }
    }

    /// The set a terminal starts with: the cursor is shown and lines wrap.
    pub open spec fn initial() -> TermMode {
        TermMode { bits: SHOW_CURSOR | LINE_WRAP }
    }

    /// The set that holds exactly the flags of `bits`.
    pub fn from_bits(bits: u16) -> (mode: TermMode)
        ensures
            mode.bits == bits,
    {
        TermMode { bits }
    }

    /// The flags of the set, one bit each.
    pub fn bits(&self) -> (bits: u16)
        ensures
            bits == self.bits,
    {
        self.bits
    }

    /// Whether every flag of `flags` is in the set.
    pub fn contains(&self, flags: u16) -> (found: bool)
        ensures
            found == self.holds(flags),
    {
        self.bits & flags == flags
    }

    /// Adds the flags of `flags` to the set.
    pub fn insert(&mut self, flags: u16)
        ensures
            *final(self) == old(self).with(flags),
    {
        self.bits = self.bits | flags;
    }

    /// Takes the flags of `flags` out of the set.
    pub fn remove(&mut self, flags: u16)
        ensures
            *final(self) == old(self).without(flags),
    {
        self.bits = self.bits & !flags;
    }
}

impl Default for TermMode {
    /// The set a terminal starts with.
    fn default() -> (mode: TermMode)
        ensures
            mode == TermMode::initial(),
    {
        TermMode { bits: SHOW_CURSOR | LINE_WRAP }
    }
}

/// The set a terminal starts with holds the flags for the shown cursor and
/// for line wrap, and none of the others.
pub proof fn lemma_initial(flag: u16)
    requires
        is_flag(flag),
    ensures
        TermMode::initial().holds(flag) == (flag == SHOW_CURSOR || flag == LINE_WRAP),
{
    let none = TermMode { bits: NONE };
    assert(TermMode::initial() == none.with(SHOW_CURSOR).with(LINE_WRAP)) by {
        assert(SHOW_CURSOR | LINE_WRAP == (NONE | SHOW_CURSOR) | LINE_WRAP) by (bit_vector);
    }
    assert(!none.holds(flag)) by {
        lemma_flags_disjoint(flag, if flag == SHOW_CURSOR { LINE_WRAP } else { SHOW_CURSOR });
        assert(flag != 0 ==> NONE & flag != flag) by (bit_vector);
    }
    lemma_insert_remove(none, SHOW_CURSOR);
    lemma_insert_remove(none.with(SHOW_CURSOR), LINE_WRAP);
    if flag != SHOW_CURSOR {
        lemma_flags_independent(none, SHOW_CURSOR, flag);
    }
    if flag != LINE_WRAP {
        lemma_flags_independent(none.with(SHOW_CURSOR), LINE_WRAP, flag);
    }
}

/// A flag that was added is in the set, and one that was taken out is not.
pub proof fn lemma_insert_remove(mode: TermMode, flags: u16)
    ensures
        mode.with(flags).holds(flags),
        flags != 0 ==> !mode.without(flags).holds(flags),
{
    let b = mode.bits;
    assert((b | flags) & flags == flags) by (bit_vector);
    assert(flags != 0 ==> (b & !flags) & flags != flags) by (bit_vector);
}

/// Adding or taking out one of the named flags leaves every other named flag
/// as it was.
pub proof fn lemma_flags_independent(mode: TermMode, changed: u16, other: u16)
    requires
        is_flag(changed),
        is_flag(other),
        changed != other,
    ensures
        mode.with(changed).holds(other) == mode.holds(other),
        mode.without(changed).holds(other) == mode.holds(other),
{
    let b = mode.bits;
    assert(changed & other == 0) by {
        lemma_flags_disjoint(changed, other);
    }
    assert(changed & other == 0 && other != 0 ==> (((b | changed) & other == other) == (b & other
        == other))) by (bit_vector);
    assert(changed & other == 0 && other != 0 ==> (((b & !changed) & other == other) == (b & other
        == other))) by (bit_vector);
}

/// Whether `flag` is one of the twelve named flags.
pub open spec fn is_flag(flag: u16) -> bool {
    ||| flag == SHOW_CURSOR
    ||| flag == APP_CURSOR
    ||| flag == APP_KEYPAD
    ||| flag == MOUSE_REPORT_CLICK
    ||| flag == BRACKETED_PASTE
    ||| flag == SGR_MOUSE
    ||| flag == MOUSE_MOTION
    ||| flag == LINE_WRAP
    ||| flag == LINE_FEED_NEW_LINE
    ||| flag == ORIGIN
    ||| flag == INSERT
    ||| flag == FOCUS_IN_OUT
}

proof fn lemma_flags_disjoint(a: u16, b: u16)
    requires
        is_flag(a),
        is_flag(b),
        a != b,
    ensures
        a & b == 0,
        a != 0,
        b != 0,
{
    assert(forall|i: u16, j: u16| i < 12 && j < 12 && i != j ==> (1u16 << i) & (1u16 << j) == 0)
        by (bit_vector);
    assert(1u16 << 0u16 == 0x001 && 1u16 << 1u16 == 0x002 && 1u16 << 2u16 == 0x004 && 1u16 << 3u16
        == 0x008 && 1u16 << 4u16 == 0x010 && 1u16 << 5u16 == 0x020 && 1u16 << 6u16 == 0x040 && 1u16
        << 7u16 == 0x080 && 1u16 << 8u16 == 0x100 && 1u16 << 9u16 == 0x200 && 1u16 << 10u16 == 0x400
        && 1u16 << 11u16 == 0x800) by (bit_vector);
}

/// The modes that `CSI h` sets and `CSI l` resets, by the code that names each
/// on the wire.
#[derive(Clone, Copy, Debug, PartialEq, Eq, Structural)]
pub enum ModeInt {
    /// `?1`
    CursorKeys,
    /// `?3`: 80 or 132 columns per page.
    DECCOLM,
    /// `4`: insert mode.
    Insert,
    /// `?6`
    Origin,
    /// `?7`
    LineWrap,
    /// `?12`
    BlinkingCursor,
    /// `20`
    LineFeedNewLine,
    /// `?25`
    ShowCursor,
    /// `?1000`
    ReportMouseClicks,
    /// `?1002`
    ReportMouseMotion,
    /// `?1004`
    ReportFocusInOut,
    /// `?1006`
    SgrMouse,
    /// `?1049`
    SwapScreenAndSetRestoreCursor,
    /// `?2004`
    BracketedPaste,
}

impl ModeInt {
    /// The mode that the code `num` names, among the private modes (those sent
    /// with `?`) or among the public ones.
    pub open spec fn of_code(private: bool, num: int) -> Option<ModeInt> {
        if private {
            if num == 1 {
                Some(ModeInt::CursorKeys)
            } else if num == 3 {
                Some(ModeInt::DECCOLM)
            } else if num == 6 {
                Some(ModeInt::Origin)
            } else if num == 7 {
                Some(ModeInt::LineWrap)
            } else if num == 12 {
                Some(ModeInt::BlinkingCursor)
            } else if num == 25 {
                Some(ModeInt::ShowCursor)
            } else if num == 1000 {
                Some(ModeInt::ReportMouseClicks)
            } else if num == 1002 {
                Some(ModeInt::ReportMouseMotion)
            } else if num == 1004 {
                Some(ModeInt::ReportFocusInOut)
            } else if num == 1006 {
                Some(ModeInt::SgrMouse)
            } else if num == 1049 {
                Some(ModeInt::SwapScreenAndSetRestoreCursor)
            } else if num == 2004 {
                Some(ModeInt::BracketedPaste)
            } else {
                None
            }
        } else {
            if num == 4 {
                Some(ModeInt::Insert)
            } else if num == 20 {
                Some(ModeInt::LineFeedNewLine)
            } else {
                None
            }
        }
    }

    /// The flag that the mode switches, if it switches one.
    pub open spec fn flag(self) -> Option<u16> {
        match self {
            ModeInt::CursorKeys => Some(APP_CURSOR),
            ModeInt::DECCOLM => None,
            ModeInt::Insert => Some(INSERT),
            ModeInt::Origin => Some(ORIGIN),
            ModeInt::LineWrap => Some(LINE_WRAP),
            ModeInt::BlinkingCursor => None,
            ModeInt::LineFeedNewLine => Some(LINE_FEED_NEW_LINE),
            ModeInt::ShowCursor => Some(SHOW_CURSOR),
            ModeInt::ReportMouseClicks => Some(MOUSE_REPORT_CLICK),
            ModeInt::ReportMouseMotion => Some(MOUSE_MOTION),
            ModeInt::ReportFocusInOut => Some(FOCUS_IN_OUT),
            ModeInt::SgrMouse => Some(SGR_MOUSE),
            ModeInt::SwapScreenAndSetRestoreCursor => None,
            ModeInt::BracketedPaste => Some(BRACKETED_PASTE),
        }
    }

    /// Creates a mode from its code.
    pub fn from_primitive(private: bool, num: i64) -> (mode: Option<ModeInt>)
        ensures
            mode == ModeInt::of_code(private, num as int),
    {
        if private {
            match num {
                1 => Some(ModeInt::CursorKeys),
                3 => Some(ModeInt::DECCOLM),
                6 => Some(ModeInt::Origin),
                7 => Some(ModeInt::LineWrap),
                12 => Some(ModeInt::BlinkingCursor),
                25 => Some(ModeInt::ShowCursor),
                1000 => Some(ModeInt::ReportMouseClicks),
                1002 => Some(ModeInt::ReportMouseMotion),
                1004 => Some(ModeInt::ReportFocusInOut),
                1006 => Some(ModeInt::SgrMouse),
                1049 => Some(ModeInt::SwapScreenAndSetRestoreCursor),
                2004 => Some(ModeInt::BracketedPaste),
                _ => None,
            }
        } else {
            match num {
                4 => Some(ModeInt::Insert),
                20 => Some(ModeInt::LineFeedNewLine),
                _ => None,
            }
        }
    }

    /// The flag that the mode switches, if it switches one.
    pub fn switched_flag(&self) -> (flag: Option<u16>)
        ensures
            flag == self.flag(),
    {
        match self {
            ModeInt::CursorKeys => Some(APP_CURSOR),
            ModeInt::DECCOLM => None,
            ModeInt::Insert => Some(INSERT),
            ModeInt::Origin => Some(ORIGIN),
            ModeInt::LineWrap => Some(LINE_WRAP),
            ModeInt::BlinkingCursor => None,
            ModeInt::LineFeedNewLine => Some(LINE_FEED_NEW_LINE),
            ModeInt::ShowCursor => Some(SHOW_CURSOR),
            ModeInt::ReportMouseClicks => Some(MOUSE_REPORT_CLICK),
            ModeInt::ReportMouseMotion => Some(MOUSE_MOTION),
            ModeInt::ReportFocusInOut => Some(FOCUS_IN_OUT),
            ModeInt::SgrMouse => Some(SGR_MOUSE),
            ModeInt::SwapScreenAndSetRestoreCursor => None,
            ModeInt::BracketedPaste => Some(BRACKETED_PASTE),
        }
    }
}

/// Which part of a line to clear, relative to the cursor.
#[derive(Clone, Copy, Debug, PartialEq, Eq, Structural)]
pub enum LineClearMode {
    /// From the cursor to the end of the line.
    Right,
    /// From the start of the line up to and including the cursor.
    Left,
    /// The whole line.
    All,
}

/// Which part of the screen to clear, relative to the cursor.
#[derive(Clone, Copy, Debug, PartialEq, Eq, Structural)]
pub enum ClearMode {
    /// From the cursor to the end of the screen.
    Below,
    /// From the start of the screen up to and including the cursor.
    Above,
    /// The whole screen.
    All,
    /// The lines scrolled out of view; none are kept, so nothing is cleared.
    Saved,
}

} // verus!
