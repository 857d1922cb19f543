//! What holds of the screen whatever the game sends.

use vstd::prelude::*;
use crate::dispatch::{arg_or, count, is_private, low_byte, CR, LF, SAVE_CURSOR};
use crate::game::{burst, chunks, coalesce, coalesce_all, joined, Driver, Event, Shown};
use crate::mode::{
    is_flag, lemma_flags_independent, lemma_insert_remove, ClearMode, LineClearMode, ModeInt,
    LINE_WRAP,
};
use crate::parser::{parsed, ActionView};
use crate::screen::{Note, Screen, SPACE};

verus! {

impl Screen {
    /// Whether `after` is a screen of the same terminal: it is well formed
    /// and has the rows and columns of `self`.
    pub open spec fn persists_as(self, after: Screen) -> bool {
        after.wf() && self.same_size(after)
    }
}

/// Scrolling, in either direction and from any row, keeps the screen well
/// formed and its size, and moves neither the cursor nor the saved cursor.
pub proof fn lemma_scroll(s: Screen, origin: nat, n: nat)
    requires
        s.wf(),
    ensures
        s.persists_as(s.scroll_up_relative(origin, n)),
        s.persists_as(s.scroll_down_relative(origin, n)),
        s.scroll_up_relative(origin, n) == s.with_grid(s.scroll_up_relative(origin, n).grid),
        s.scroll_down_relative(origin, n) == s.with_grid(s.scroll_down_relative(origin, n).grid),
{
}

/// A linefeed keeps the screen well formed and its size, and leaves the
/// cursor's column, the saved cursor, the scroll region and the modes alone.
pub proof fn lemma_linefeed(s: Screen)
    requires
        s.wf(),
    ensures
        s.persists_as(s.linefeed()),
        s.linefeed() == s.with_grid(s.linefeed().grid).with_cursor(s.x, s.linefeed().y),
{
    lemma_scroll(s, s.top, 1);
}

/// Wrapping brings the cursor into the grid and changes only the cells and
/// the cursor.
pub proof fn lemma_wrap(s: Screen)
    requires
        s.wf(),
    ensures
        s.persists_as(s.wrap()),
        s.wrap().cursor_in_grid(),
        s.wrap() == s.with_grid(s.wrap().grid).with_cursor(s.wrap().x, s.wrap().y),
    decreases s.x,
{
    if s.x >= s.width {
        let moved = s.with_cursor((s.x - s.width) as nat, s.y);
        lemma_linefeed(moved);
        lemma_wrap(moved.linefeed());
    }
}

/// Printing a character keeps the screen well formed and its size, and
/// changes only the cells, the cursor and the character printed last. Unless
/// it is dropped, the character is written to a cell of the grid, where the
/// wrapped cursor stands, and the cursor comes to rest right of it, at most
/// one column beyond the last.
pub proof fn lemma_input(s: Screen, c: u8)
    requires
        s.wf(),
    ensures
        s.persists_as(s.input(c)),
        s.same_saved(s.input(c)),
        s.input(c).mode == s.mode,
        s.input(c).top == s.top,
        s.input(c).bottom == s.bottom,
        s.x < s.width || s.mode.holds(LINE_WRAP) ==> {
            &&& s.wrap().cursor_in_grid()
            &&& s.input(c).grid[s.wrap().y as int][s.wrap().x as int] == c
            &&& s.input(c).y == s.wrap().y
            &&& s.input(c).x == s.wrap().x + 1 <= s.width
            &&& s.input(c).preceding == Some(c)
        },
{
    lemma_wrap(s);
}

/// Printing a character several times keeps the screen well formed and its
/// size.
pub proof fn lemma_repeat(s: Screen, c: u8, n: nat)
    requires
        s.wf(),
    ensures
        s.persists_as(s.repeat(c, n)),
        s.same_saved(s.repeat(c, n)),
    decreases n,
{
    if n > 0 {
        lemma_input(s, c);
        lemma_repeat(s.input(c), c, (n - 1) as nat);
    }
}

/// Clearing keeps the screen well formed and its size.
pub proof fn lemma_clear(s: Screen, mode: ClearMode, line_mode: LineClearMode)
    requires
        s.wf(),
    ensures
        s.persists_as(s.clear_scr(mode)),
        s.persists_as(s.clear_line(line_mode)),
{
}

/// Inserting, deleting and erasing cells keeps the screen well formed and
/// its size.
pub proof fn lemma_edit_line(s: Screen, n: nat)
    requires
        s.wf(),
    ensures
        s.persists_as(s.insert_blank_chars(n)),
        s.persists_as(s.delete_chars(n)),
        s.persists_as(s.erase_chars(n)),
{
}

/// Setting or resetting a mode keeps the screen well formed and its size.
pub proof fn lemma_mode(s: Screen, mode: ModeInt)
    requires
        s.wf(),
    ensures
        s.persists_as(s.set_mode(mode)),
        s.persists_as(s.unset_mode(mode)),
        s.same_saved(s.unset_mode(mode)),
        mode != ModeInt::SwapScreenAndSetRestoreCursor ==> s.same_saved(s.set_mode(mode)),
{
}

/// Setting a mode that has a flag puts the flag into the set of modes, and
/// resetting it takes the flag out; every other flag stays as it was.
pub proof fn law_mode_switch(s: Screen, mode: ModeInt, other: u16)
    requires
        mode.flag() is Some,
        is_flag(other),
        other != mode.flag().unwrap(),
    ensures
        s.set_mode(mode).mode.holds(mode.flag().unwrap()),
        !s.unset_mode(mode).mode.holds(mode.flag().unwrap()),
        s.set_mode(mode).mode.holds(other) == s.mode.holds(other),
        s.unset_mode(mode).mode.holds(other) == s.mode.holds(other),
{
    let flag = mode.flag().unwrap();
    lemma_insert_remove(s.mode, flag);
    lemma_flags_independent(s.mode, flag, other);
}

/// A control byte keeps the screen well formed, its size and the saved
/// cursor.
pub proof fn lemma_execute(s: Screen, byte: u8)
    requires
        s.wf(),
    ensures
        s.persists_as(s.execute(byte)),
        s.same_saved(s.execute(byte)),
{
    lemma_linefeed(s);
}

/// Whether a control sequence saves the cursor: `CSI s` does, and setting
/// mode `?1049`.
pub open spec fn csi_saves_cursor(args: Seq<i64>, intermediates: Seq<u8>, action: char) -> bool {
    ||| action == 's'
    ||| action == 'h' && ModeInt::of_code(is_private(intermediates), arg_or(args, 0, 0)) == Some(
        ModeInt::SwapScreenAndSetRestoreCursor,
    )
}

/// A control sequence keeps the screen well formed and its size, and only
/// one that saves the cursor changes the saved cursor.
pub proof fn lemma_csi_dispatch(
    s: Screen,
    args: Seq<i64>,
    intermediates: Seq<u8>,
    ignore: bool,
    action: char,
)
    requires
        s.wf(),
    ensures
        s.persists_as(s.csi_dispatch(args, intermediates, ignore, action)),
        !csi_saves_cursor(args, intermediates, action) ==> s.same_saved(
            s.csi_dispatch(args, intermediates, ignore, action),
        ),
{
    let n = count(arg_or(args, 0, 1));
    if action == 'b' {
        if let Some(c) = s.preceding {
            lemma_repeat(s, c, n);
        }
    } else if action == 'J' {
        lemma_clear(s, ClearMode::Below, LineClearMode::All);
        lemma_clear(s, ClearMode::Above, LineClearMode::All);
        lemma_clear(s, ClearMode::All, LineClearMode::All);
        lemma_clear(s, ClearMode::Saved, LineClearMode::All);
    } else if action == 'K' {
        lemma_clear(s, ClearMode::All, LineClearMode::Right);
        lemma_clear(s, ClearMode::All, LineClearMode::Left);
        lemma_clear(s, ClearMode::All, LineClearMode::All);
    } else if action == 'S' || action == 'T' {
        lemma_scroll(s, s.top, n);
    } else if action == 'L' || action == 'M' {
        lemma_scroll(s, s.y, n);
    } else if action == '@' || action == 'P' || action == 'X' {
        lemma_edit_line(s, n);
    } else if action == 'h' || action == 'l' {
        if let Some(mode) = ModeInt::of_code(is_private(intermediates), arg_or(args, 0, 0)) {
            lemma_mode(s, mode);
        }
    }
}

/// An escape sequence keeps the screen well formed and its size, and only
/// `ESC 7` changes the saved cursor.
pub proof fn lemma_esc_dispatch(
    s: Screen,
    params: Seq<i64>,
    intermediates: Seq<u8>,
    ignore: bool,
    byte: u8,
)
    requires
        s.wf(),
    ensures
        s.persists_as(s.esc_dispatch(params, intermediates, ignore, byte)),
        byte != SAVE_CURSOR ==> s.same_saved(s.esc_dispatch(params, intermediates, ignore, byte)),
{
    lemma_scroll(s, s.top, 1);
}

/// Whether an action saves the cursor: `ESC 7`, `CSI s` and setting mode
/// `?1049` do.
pub open spec fn saves_cursor(action: ActionView) -> bool {
    match action {
        ActionView::CsiDispatch { params, intermediates, ignore, action } => csi_saves_cursor(
            params,
            intermediates,
            action,
        ),
        ActionView::EscDispatch { params, intermediates, ignore, byte } => byte == SAVE_CURSOR,
        _ => false,
    }
}

/// Whatever a parser dispatches, the screen stays well formed and keeps its
/// size: the cursor stays in a row of the grid, and the scroll region stays
/// a non-empty range of its rows.
pub proof fn lemma_perform(s: Screen, action: ActionView)
    requires
        s.wf(),
    ensures
        s.persists_as(s.perform(action)),
        !saves_cursor(action) ==> s.same_saved(s.perform(action)),
{
    match action {
        ActionView::Print(c) => {
            lemma_input(s, low_byte(c));
            lemma_input(s.noted(Note::NonAscii(c)), low_byte(c));
        },
        ActionView::Execute(byte) => lemma_execute(s, byte),
        ActionView::CsiDispatch { params, intermediates, ignore, action } => lemma_csi_dispatch(
            s,
            params,
            intermediates,
            ignore,
            action,
        ),
        ActionView::EscDispatch { params, intermediates, ignore, byte } => lemma_esc_dispatch(
            s,
            params,
            intermediates,
            ignore,
            byte,
        ),
        _ => {},
    }
}

/// After any actions the screen is well formed and has its size.
pub proof fn lemma_run(s: Screen, actions: Seq<ActionView>)
    requires
        s.wf(),
    ensures
        s.persists_as(s.run(actions)),
        (forall|i: int| 0 <= i < actions.len() ==> !saves_cursor(#[trigger] actions[i]))
            ==> s.same_saved(s.run(actions)),
    decreases actions.len(),
{
    if actions.len() > 0 {
        lemma_run(s, actions.drop_last());
        lemma_perform(s.run(actions.drop_last()), actions.last());
        if forall|i: int| 0 <= i < actions.len() ==> !saves_cursor(#[trigger] actions[i]) {
            assert forall|i: int| 0 <= i < actions.drop_last().len() implies !saves_cursor(
                #[trigger] actions.drop_last()[i],
            ) by {
                assert(!saves_cursor(actions[i]));
            }
        }
    }
}

/// After any bytes, through any parser, the screen is well formed and has
/// its size: the grid has as many rows and columns as before, the cursor
/// stands in one of its rows, and the scroll region is a non-empty range of
/// its rows.
pub proof fn law_screen_persists(s: Screen, parser: vte::Parser, bytes: Seq<u8>)
    requires
        s.wf(),
    ensures
        s.persists_as(s.feed(parser, bytes).1),
    decreases bytes.len(),
{
    if bytes.len() > 0 {
        law_screen_persists(s, parser, bytes.drop_last());
        let (p, screen) = s.feed(parser, bytes.drop_last());
        lemma_run(screen, parsed(p, bytes.last()).1);
    }
}

/// A carriage return and a linefeed bring the cursor to the first column of
/// the next row. On the last row of the scroll region the cursor stays in
/// its row and the region scrolls up by one instead. This holds whether or
/// not a new line returns the carriage. It leaves out the cursor on the last
/// row of the grid while the scroll region ends above it: there a linefeed
/// does nothing.
pub proof fn law_carriage_return_linefeed(s: Screen)
    requires
        s.wf(),
        s.y + 1 == s.bottom || s.y + 1 < s.height(),
    ensures
        s.execute(CR).execute(LF).x == 0,
        s.y + 1 == s.bottom ==> s.execute(CR).execute(LF) == s.scroll_up(1).with_cursor(0, s.y),
        s.y + 1 != s.bottom ==> s.execute(CR).execute(LF) == s.with_cursor(0, s.y + 1),
{
}

/// Once the cursor is saved, whatever is performed that does not save it
/// again, restoring brings it back to where it was.
pub proof fn law_save_restore(s: Screen, actions: Seq<ActionView>)
    requires
        s.wf(),
        forall|i: int| 0 <= i < actions.len() ==> !saves_cursor(#[trigger] actions[i]),
    ensures
        s.save_cursor().run(actions).restore_cursor().x == s.x,
        s.save_cursor().run(actions).restore_cursor().y == s.y,
{
    lemma_run(s.save_cursor(), actions);
}

/// Erasing the whole display and homing the cursor, as `CSI 2 J` and `CSI H`
/// do, leaves every cell empty and the cursor at the top left.
pub proof fn law_clear_and_home(
    s: Screen,
    intermediates: Seq<u8>,
    ignore: bool,
    home_intermediates: Seq<u8>,
    home_ignore: bool,
)
    requires
        s.wf(),
    ensures
        ({
            let after = s.csi_dispatch(seq![2i64], intermediates, ignore, 'J').csi_dispatch(
                Seq::empty(),
                home_intermediates,
                home_ignore,
                'H',
            );
            &&& after.is_blank()
            &&& after.x == 0
            &&& after.y == 0
            &&& s.persists_as(after)
        }),
{
    let cleared = s.csi_dispatch(seq![2i64], intermediates, ignore, 'J');
    assert(cleared == s.clear_scr(ClearMode::All));
}

/// Feeding two chunks one after the other is feeding them as one: the
/// screen after a chunk reflects all that came before.
pub proof fn law_feed_accumulates(s: Screen, parser: vte::Parser, first: Seq<u8>, second: Seq<u8>)
    ensures
        s.feed(parser, first + second) == s.feed(parser, first).1.feed(
            s.feed(parser, first).0,
            second,
        ),
    decreases second.len(),
{
    if second.len() == 0 {
        assert(first + second == first);
    } else {
        law_feed_accumulates(s, parser, first, second.drop_last());
        assert((first + second).drop_last() == first + second.drop_last());
    }
}

/// While a burst lasts the player is shown nothing, and what was kept back
/// before it is forgotten: the last screen of the burst is kept back.
pub proof fn lemma_burst(stored: Option<Seq<Seq<u8>>>, screens: Seq<Seq<Seq<u8>>>)
    requires
        screens.len() >= 1,
    ensures
        coalesce_all(stored, burst(screens)) == (Some(screens.last()), Seq::<Shown>::empty()),
    decreases screens.len(),
{
    let events = burst(screens);
    if screens.len() > 1 {
        lemma_burst(stored, screens.drop_last());
        assert(events.drop_last() == burst(screens.drop_last()));
    } else {
        assert(coalesce_all(stored, events.drop_last()) == (stored, Seq::<Shown>::empty()));
    }
}

/// What is shown over two runs of events is what is shown over the first
/// and then, from what that kept back, over the second.
pub proof fn lemma_coalesce_split(stored: Option<Seq<Seq<u8>>>, first: Seq<Shown>, second: Seq<Shown>)
    ensures
        coalesce_all(stored, first + second) == ({
            let (kept, shown) = coalesce_all(stored, first);
            let (kept_after, shown_after) = coalesce_all(kept, second);
            (kept_after, shown + shown_after)
        }),
    decreases second.len(),
{
    if second.len() == 0 {
        assert(first + second == first);
    } else {
        lemma_coalesce_split(stored, first, second.drop_last());
        assert((first + second).drop_last() == first + second.drop_last());
    }
}

/// The coalescing law: when the game sends a burst of chunks and then falls
/// silent for a turn, the player is shown exactly one changed screen for
/// it, the last one, which reflects the whole burst. This comes after what
/// it was shown before the burst, and nothing is kept back after it.
pub proof fn law_coalescing(
    stored: Option<Seq<Seq<u8>>>,
    before: Seq<Shown>,
    screens: Seq<Seq<Seq<u8>>>,
)
    requires
        screens.len() >= 1,
    ensures
        coalesce_all(stored, before + burst(screens).push(Shown::NotChanged)) == (
            None::<Seq<Seq<u8>>>,
            coalesce_all(stored, before).1.push(Shown::Changed(screens.last())),
        ),
{
    let (kept, shown) = coalesce_all(stored, before);
    let events = burst(screens).push(Shown::NotChanged);
    lemma_coalesce_split(stored, before, events);
    lemma_burst(kept, screens);
    assert(events.drop_last() == burst(screens));
}

/// While a burst of chunks lasts the player is shown nothing. The loop
/// takes a turn for each chunk, feeds the terminal as if the chunks were
/// one, and keeps the last screen back.
pub proof fn lemma_steps_burst(d: Driver, burst: Seq<Seq<u8>>)
    requires
        burst.len() >= 1,
    ensures
        ({
            let (parser, screen) = d.screen.feed(d.parser, joined(burst));
            d.steps(chunks(burst)) == (
                Driver {
                    parser,
                    screen,
                    stored: Some(screen.grid),
                    turn: d.turn + burst.len(),
                    ..d
                },
                Seq::<Shown>::empty(),
            )
        }),
    decreases burst.len(),
{
    let events = chunks(burst);
    law_feed_accumulates(d.screen, d.parser, joined(burst.drop_last()), burst.last());
    if burst.len() > 1 {
        lemma_steps_burst(d, burst.drop_last());
        assert(events.drop_last() == chunks(burst.drop_last()));
    } else {
        assert(d.steps(events.drop_last()) == (d, Seq::<Shown>::empty()));
    }
}

/// The coalescing law, for the loop: when the game sends a burst of chunks
/// and then falls silent for a turn, the player is shown exactly one
/// changed screen, in the turn of silence. It is the screen of the terminal
/// after all the chunks of the burst, and nothing is kept back after it.
pub proof fn law_burst_shown_once(d: Driver, burst: Seq<Seq<u8>>)
    requires
        burst.len() >= 1,
    ensures
        ({
            let (parser, screen) = d.screen.feed(d.parser, joined(burst));
            d.steps(chunks(burst).push(Event::Timeout)) == (
                Driver {
                    parser,
                    screen,
                    stored: None,
                    turn: d.turn + burst.len() + 1,
                    ..d
                },
                seq![Shown::Changed(screen.grid)],
            )
        }),
{
    let events = chunks(burst).push(Event::Timeout);
    lemma_steps_burst(d, burst);
    assert(events.drop_last() == chunks(burst));
}

} // verus!
