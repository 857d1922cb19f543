//! The turn loop's decisions. The loop itself waits for the game's output
//! and writes to its input; what it does with what it received is decided
//! here, one turn at a time.

use vstd::prelude::*;
use vstd::string::StringSliceAdditionalSpecFns;
use core::time::Duration;
use crate::screen::{rows, Note, Screen};
use crate::setting::{DrawType, GameSetting};
use crate::term_data::TermData;

verus! {

/// What the player is shown in a turn.
#[derive(Clone, Debug)]
pub enum ActionResult {
    /// The screen has changed and is now at rest. The rows are those of the
    /// terminal, from the top.
    Changed(Vec<Vec<u8>>),
    /// Nothing has arrived since the last turn.
    NotChanged,
    /// The game has ended.
    GameEnded,
}

/// What an [`ActionResult`] stands for.
pub enum Shown {
    Changed(Seq<Seq<u8>>),
    NotChanged,
    GameEnded,
}

impl View for ActionResult {
    type V = Shown;

    open spec fn view(&self) -> Shown {
        match self {
            ActionResult::Changed(cells) => Shown::Changed(rows(cells@)),
            ActionResult::NotChanged => Shown::NotChanged,
            ActionResult::GameEnded => Shown::GameEnded,
        }
    }
}

/// The rows of a screen as text: each row, then a line break.
pub open spec fn rows_text(grid: Seq<Seq<u8>>) -> Seq<u8>
    decreases grid.len(),
{
    if grid.len() == 0 {
        Seq::empty()
    } else {
        rows_text(grid.drop_last()) + grid.last().push(0x0a)
    }
}

impl Shown {
    /// The text that describes what is shown: its name and, for a changed
    /// screen, the rows of the screen between two rules.
    pub open spec fn text(self) -> Seq<u8> {
        match self {
            Shown::Changed(grid) => "ActionResult::Changed\n".spec_bytes()
                + "--------------------\n".spec_bytes() + rows_text(grid)
                + "--------------------".spec_bytes(),
            Shown::NotChanged => "ActionResult::NotChanged".spec_bytes(),
            Shown::GameEnded => "ActionResult::GameEnded".spec_bytes(),
        }
    }
}

/// Appends the bytes of `bytes` to `text`.
fn append(text: &mut Vec<u8>, bytes: &[u8])
    ensures
        final(text)@ == old(text)@ + bytes@,
{
    let mut i: usize = 0;
    while i < bytes.len()
        invariant
            i <= bytes@.len(),
            text@ == old(text)@ + bytes@.take(i as int),
        decreases bytes@.len() - i,
    {
        text.push(bytes[i]);
        i += 1;
    }
}

impl ActionResult {
    /// The text that describes the result, for a log or a debugger: its
    /// name and, for a changed screen, the rows of the screen between two
    /// rules.
    pub fn to_text(&self) -> (text: Vec<u8>)
        ensures
            text@ == self@.text(),
    {
        let mut text: Vec<u8> = Vec::new();
        match self {
            ActionResult::Changed(cells) => {
                append(&mut text, "ActionResult::Changed\n".as_bytes());
                append(&mut text, "--------------------\n".as_bytes());
                let ghost head = text@;
                let mut i: usize = 0;
                while i < cells.len()
                    invariant
                        i <= cells@.len(),
                        text@ == head + rows_text(rows(cells@).take(i as int)),
                    decreases cells@.len() - i,
                {
                    append(&mut text, cells[i].as_slice());
                    text.push(0x0a);
                    proof {
                        let done = rows(cells@).take(i + 1);
                        assert(done.drop_last() == rows(cells@).take(i as int));
                    }
                    i += 1;
                }
                assert(rows(cells@).take(cells@.len() as int) == rows(cells@));
                append(&mut text, "--------------------".as_bytes());
            },
            ActionResult::NotChanged => {
                append(&mut text, "ActionResult::NotChanged".as_bytes());
            },
            ActionResult::GameEnded => {
                append(&mut text, "ActionResult::GameEnded".as_bytes());
            },
        }
        text
    }
}

/// The player. It is shown the screen turn by turn and answers with the
/// bytes to send to the game, if any.
pub trait Reactor {
    fn action(&mut self, action_result: ActionResult, turn: usize) -> Option<Vec<u8>>;
}

/// The size of the buffer that the game's output is read into.
pub const BUFSIZE: usize = 4096;

/// What the reader of the game's output publishes after a read.
#[derive(Debug)]
pub enum Handle {
    /// The reader has failed.
    Panicked,
    /// The read gave no bytes: the game has closed its output.
    Zero,
    /// The bytes of one read.
    Valid(Vec<u8>),
}

impl Handle {
    /// What the reader publishes after a read into `buf`: `read` is the
    /// number of bytes that the read gave, or `None` where it failed. A read
    /// that fills the buffer counts as a failure, since more may have been
    /// waiting.
    pub fn from_read(buf: &[u8], read: Option<usize>) -> (handle: Handle)
        requires
            buf@.len() == BUFSIZE,
            read matches Some(n) ==> n <= BUFSIZE,
        ensures
            match read {
                None => handle is Panicked,
                Some(n) => if n == 0 {
                    handle is Zero
                } else if n == BUFSIZE {
                    handle is Panicked
                } else {
                    handle matches Handle::Valid(bytes) && bytes@ == buf@.take(n as int)
                },
            },
    {
        match read {
            None => Handle::Panicked,
            Some(n) => if n == 0 {
                Handle::Zero
            } else if n == BUFSIZE {
                Handle::Panicked
            } else {
                let mut bytes: Vec<u8> = Vec::new();
                let mut i: usize = 0;
                while i < n
                    invariant
                        i <= n <= buf@.len(),
                        bytes@ == buf@.take(i as int),
                    decreases n - i,
                {
                    bytes.push(buf[i]);
                    i += 1;
                }
                Handle::Valid(bytes)
            },
        }
    }

    /// Whether the reader goes on reading after it has published `self`.
    pub fn reads_on(&self) -> (more: bool)
        ensures
            more == (self is Valid),
    {
        match self {
            Handle::Valid(_) => true,
            _ => false,
        }
    }
}

/// What a turn's wait for the reader ended with.
#[derive(Debug)]
pub enum Received {
    /// The reader published something.
    Message(Handle),
    /// Nothing came within the turn's time.
    Timeout,
    /// The reader is gone without a word.
    Disconnected,
}

/// What a [`Received`] stands for.
pub enum Event {
    /// The reader published the bytes of a read.
    Chunk(Seq<u8>),
    /// The reader published that the game has closed its output.
    Closed,
    /// The reader published that it has failed.
    ReaderFailed,
    /// Nothing came within the turn's time.
    Timeout,
    /// The reader is gone without a word.
    Disconnected,
}

impl View for Received {
    type V = Event;

    open spec fn view(&self) -> Event {
        match self {
            Received::Message(Handle::Valid(bytes)) => Event::Chunk(bytes@),
            Received::Message(Handle::Zero) => Event::Closed,
            Received::Message(Handle::Panicked) => Event::ReaderFailed,
            Received::Timeout => Event::Timeout,
            Received::Disconnected => Event::Disconnected,
        }
    }
}

/// Why the loop cannot go on.
#[derive(Clone, Copy, Debug, PartialEq, Eq, Structural)]
pub enum Fatal {
    /// The reader has failed.
    ReaderPanicked,
    /// The reader is gone.
    Disconnected,
}

/// What the loop keeps from one chunk to the next turn at rest: the screen
/// not yet shown, and what to show now.
///
/// A changed screen is kept back. When nothing arrives for a turn, the
/// screen kept back is shown, or, where none is, that nothing has changed.
/// The end of the game is shown at once.
pub open spec fn coalesce(stored: Option<Seq<Seq<u8>>>, event: Shown) -> (
    Option<Seq<Seq<u8>>>,
    Option<Shown>,
) {
    match event {
        Shown::Changed(cells) => (Some(cells), None),
        Shown::NotChanged => match stored {
            Some(cells) => (None, Some(Shown::Changed(cells))),
            None => (None, Some(Shown::NotChanged)),
        },
        Shown::GameEnded => (stored, Some(Shown::GameEnded)),
    }
}

/// What is kept back after the events of `events`, first to last, and what
/// the player is shown over them, in order.
pub open spec fn coalesce_all(stored: Option<Seq<Seq<u8>>>, events: Seq<Shown>) -> (
    Option<Seq<Seq<u8>>>,
    Seq<Shown>,
)
    decreases events.len(),
{
    if events.len() == 0 {
        (stored, Seq::empty())
    } else {
        let (kept, shown) = coalesce_all(stored, events.drop_last());
        let (kept, now) = coalesce(kept, events.last());
        (
            kept,
            match now {
                Some(now) => shown.push(now),
                None => shown,
            },
        )
    }
}

/// The events of a burst: one changed screen for each chunk.
pub open spec fn burst(screens: Seq<Seq<Seq<u8>>>) -> Seq<Shown> {
    Seq::new(screens.len(), |i: int| Shown::Changed(screens[i]))
}

/// What the turn loop stands for: the terminal and its parser, and what the
/// loop remembers between turns.
pub struct Driver {
    pub screen: Screen,
    pub parser: vte::Parser,
    /// Whether the game has closed its output.
    pub proc_dead: bool,
    /// The changed screen that the player has not been shown yet.
    pub stored: Option<Seq<Seq<u8>>>,
    /// The number of turns taken.
    pub turn: nat,
    /// The number of turns after which the loop ends.
    pub max_loop: nat,
    /// How long a turn waits for the game's output.
    pub timeout: Duration,
    /// Whether the game is drawn.
    pub draw_type: DrawType,
}

impl Driver {
    /// Whether the loop takes another turn.
    pub open spec fn running(self) -> bool {
        !self.proc_dead && self.turn < self.max_loop
    }

    /// The loop after it has taken in what the reader published, and the
    /// event that this makes; or why the loop cannot go on.
    pub open spec fn observe(self, received: Event) -> (Driver, Result<Shown, Fatal>) {
        match received {
            Event::ReaderFailed => (self, Err(Fatal::ReaderPanicked)),
            Event::Closed => (Driver { proc_dead: true, ..self }, Ok(Shown::GameEnded)),
            Event::Chunk(bytes) => {
                let (parser, screen) = self.screen.feed(self.parser, bytes);
                (Driver { parser, screen, ..self }, Ok(Shown::Changed(screen.grid)))
            },
            Event::Timeout => (self, Ok(Shown::NotChanged)),
            Event::Disconnected => (self, Err(Fatal::Disconnected)),
        }
    }

    /// The loop after it has decided what to show for `event`, and what it
    /// shows, if anything.
    pub open spec fn present(self, event: Shown) -> (Driver, Option<Shown>) {
        let (stored, shown) = coalesce(self.stored, event);
        (Driver { stored, ..self }, shown)
    }

    /// The loop after a turn in which `received` came, and what the player
    /// is shown in it, if anything. A turn that cannot go on leaves the loop
    /// as it is.
    pub open spec fn step(self, received: Event) -> (Driver, Result<Option<Shown>, Fatal>) {
        let (observed, event) = self.observe(received);
        match event {
            Ok(event) => {
                let (presented, shown) = observed.present(event);
                (Driver { turn: self.turn + 1, ..presented }, Ok(shown))
            },
            Err(fatal) => (self, Err(fatal)),
        }
    }

    /// The event of a turn that has taken `received`, seen from the loop as
    /// it stands after the turn: the screen after a chunk, that nothing has
    /// changed after a wait in vain, that the game has ended after it has
    /// closed its output; none where the reader failed or is gone.
    pub open spec fn result_of(self, received: Event) -> Option<Shown> {
        match received {
            Event::Chunk(_) => Some(Shown::Changed(self.screen.grid)),
            Event::Closed => Some(Shown::GameEnded),
            Event::Timeout => Some(Shown::NotChanged),
            Event::ReaderFailed => None,
            Event::Disconnected => None,
        }
    }

    /// The same loop with the notes of its terminal taken.
    pub open spec fn without_notes(self) -> Driver {
        Driver { screen: self.screen.without_notes(), ..self }
    }

    /// What is due to the player once the loop is over: where the game has
    /// not closed its output, that the game has ended, at the turn after the
    /// last.
    pub open spec fn last_words(self) -> Option<(Shown, nat)> {
        if self.proc_dead {
            None
        } else {
            Some((Shown::GameEnded, self.max_loop))
        }
    }

    /// The loop after the turns in which the events of `received` came,
    /// first to last, and what the player is shown over them, in order.
    pub open spec fn steps(self, received: Seq<Event>) -> (Driver, Seq<Shown>)
        decreases received.len(),
    {
        if received.len() == 0 {
            (self, Seq::empty())
        } else {
            let (before, shown) = self.steps(received.drop_last());
            let (after, now) = before.step(received.last());
            (
                after,
                match now {
                    Ok(Some(now)) => shown.push(now),
                    _ => shown,
                },
            )
        }
    }
}

/// The events of a burst of chunks.
pub open spec fn chunks(burst: Seq<Seq<u8>>) -> Seq<Event> {
    Seq::new(burst.len(), |i: int| Event::Chunk(burst[i]))
}

/// The bytes of a burst of chunks, one after the other.
pub open spec fn joined(burst: Seq<Seq<u8>>) -> Seq<u8>
    decreases burst.len(),
{
    if burst.len() == 0 {
        Seq::empty()
    } else {
        joined(burst.drop_last()) + burst.last()
    }
}

/// A game that is being played: its terminal, and where its turn loop
/// stands.
pub struct GameEnv {
    term_data: TermData,
    parser: vte::Parser,
    timeout: Duration,
    max_loop: usize,
    draw_type: DrawType,
    proc_dead: bool,
    stored_map: Option<Vec<Vec<u8>>>,
    turn: usize,
}

impl View for GameEnv {
    type V = Driver;

    closed spec fn view(&self) -> Driver {
        Driver {
            screen: self.term_data@,
            parser: self.parser,
            proc_dead: self.proc_dead,
            stored: match self.stored_map {
                Some(cells) => Some(rows(cells@)),
                None => None,
            },
            turn: self.turn as nat,
            max_loop: self.max_loop as nat,
            timeout: self.timeout,
            draw_type: self.draw_type,
        }
    }
}

impl<'a> GameSetting<'a> {
    /// The game that the setting describes, before its first turn.
    pub fn build(self) -> (game: GameEnv)
        requires
            self.lines >= 1,
            self.columns >= 1,
        ensures
            game.wf(),
            game@.screen == Screen::initial(self.lines as nat, self.columns as nat),
            !game@.proc_dead,
            game@.stored is None,
            game@.turn == 0,
            game@.max_loop == self.max_loop,
            game@.timeout == self.timeout,
            game@.draw_type == self.draw_type,
    {
        let term_data = TermData::from_setting(&self);
        GameEnv {
            term_data,
            parser: vte::Parser::new(),
            timeout: self.timeout,
            max_loop: self.max_loop,
            draw_type: self.draw_type,
            proc_dead: false,
            stored_map: None,
            turn: 0,
        }
    }
}

impl GameEnv {
    /// What the game keeps true of itself between turns: the screen of its
    /// terminal is well formed.
    pub open spec fn wf(&self) -> bool {
        self@.screen.wf()
    }

    /// How long a turn waits for the game's output.
    pub fn timeout(&self) -> (span: Duration)
        ensures
            span == self@.timeout,
    {
        self.timeout
    }

    /// Whether the game is drawn.
    pub fn draw_type(&self) -> (draw: DrawType)
        ensures
            draw == self@.draw_type,
    {
        self.draw_type
    }

    /// The number of turns after which the loop ends.
    pub fn max_loop(&self) -> (turns: usize)
        ensures
            turns == self@.max_loop,
    {
        self.max_loop
    }

    /// The number of turns taken.
    pub fn turn(&self) -> (turns: usize)
        ensures
            turns == self@.turn,
    {
        self.turn
    }

    /// The game's terminal.
    pub fn term_data(&self) -> (term: &TermData)
        ensures
            term@ == self@.screen,
    {
        &self.term_data
    }

    /// Takes what the terminal has noted since the notes were last taken,
    /// oldest first.
    pub fn take_notes(&mut self) -> (notes: Vec<Note>)
        ensures
            notes@ == old(self)@.screen.notes,
            final(self)@ == old(self)@.without_notes(),
            old(self).wf() ==> final(self).wf(),
    {
        self.term_data.take_notes()
    }

    /// The event of a turn that has taken `received`, for the log of the
    /// loop: it is read from the game as it stands after the turn.
    pub fn result_of(&self, received: &Received) -> (event: Option<ActionResult>)
        ensures
            match event {
                Some(event) => Some(event@),
                None => None,
            } == self@.result_of(received@),
    {
        match received {
            Received::Message(Handle::Valid(_)) => Some(
                ActionResult::Changed(self.term_data.ret_screen()),
            ),
            Received::Message(Handle::Zero) => Some(ActionResult::GameEnded),
            Received::Timeout => Some(ActionResult::NotChanged),
            _ => None,
        }
    }

    /// Whether the loop takes another turn: the game has not closed its
    /// output and turns are left.
    pub fn is_running(&self) -> (running: bool)
        ensures
            running == self@.running(),
    {
        !self.proc_dead && self.turn < self.max_loop
    }

    /// Takes in what a turn's wait ended with: bytes go through the parser
    /// to the terminal, whose screen is the turn's event; the end of the
    /// output is noted; a failed or lost reader ends the loop.
    pub fn observe(&mut self, received: &Received) -> (event: Result<ActionResult, Fatal>)
        requires
            old(self).wf(),
        ensures
            final(self).wf(),
            final(self)@ == old(self)@.observe(received@).0,
            match event {
                Ok(event) => Ok::<Shown, Fatal>(event@),
                Err(fatal) => Err(fatal),
            } == old(self)@.observe(received@).1,
            old(self)@.screen.persists_as(final(self)@.screen),
            final(self)@.timeout == old(self)@.timeout,
            final(self)@.draw_type == old(self)@.draw_type,
    {
        match received {
            Received::Message(Handle::Panicked) => Err(Fatal::ReaderPanicked),
            Received::Message(Handle::Zero) => {
                self.proc_dead = true;
                Ok(ActionResult::GameEnded)
            },
            Received::Message(Handle::Valid(bytes)) => {
                self.term_data.feed(&mut self.parser, bytes.as_slice());
                Ok(ActionResult::Changed(self.term_data.ret_screen()))
            },
            Received::Timeout => Ok(ActionResult::NotChanged),
            Received::Disconnected => Err(Fatal::Disconnected),
        }
    }

    /// Decides what the player is shown for `event`, if anything: a changed
    /// screen is kept back until a turn passes in which nothing arrives.
    pub fn present(&mut self, event: ActionResult) -> (shown: Option<ActionResult>)
        requires
            old(self).wf(),
        ensures
            final(self).wf(),
            final(self)@ == old(self)@.present(event@).0,
            match shown {
                Some(shown) => Some(shown@),
                None => None,
            } == old(self)@.present(event@).1,
            final(self)@.timeout == old(self)@.timeout,
            final(self)@.draw_type == old(self)@.draw_type,
    {
        match event {
            ActionResult::GameEnded => Some(ActionResult::GameEnded),
            ActionResult::Changed(map) => {
                self.stored_map = Some(map);
                None
            },
            ActionResult::NotChanged => match self.stored_map.take() {
                Some(map) => Some(ActionResult::Changed(map)),
                None => Some(ActionResult::NotChanged),
            },
        }
    }

    /// Takes one turn of the loop up to the player's move: what the wait
    /// ended with is taken in, and what is due to the player is returned
    /// with the number of the turn.
    pub fn due(&mut self, received: &Received) -> (due: Result<Option<(ActionResult, usize)>, Fatal>)
        requires
            old(self).wf(),
            old(self)@.running(),
        ensures
            final(self).wf(),
            final(self)@ == old(self)@.step(received@).0,
            match due {
                Ok(Some((shown, turn))) => old(self)@.step(received@).1 == Ok::<
                    Option<Shown>,
                    Fatal,
                >(Some(shown@)) && turn == old(self)@.turn,
                Ok(None) => old(self)@.step(received@).1 == Ok::<Option<Shown>, Fatal>(None),
                Err(fatal) => old(self)@.step(received@).1 == Err::<Option<Shown>, Fatal>(fatal),
            },
            final(self)@.result_of(received@) == match old(self)@.observe(received@).1 {
                Ok(event) => Some(event),
                Err(_) => None,
            },
            old(self)@.screen.persists_as(final(self)@.screen),
            final(self)@.timeout == old(self)@.timeout,
            final(self)@.draw_type == old(self)@.draw_type,
    {
        let event = match self.observe(received) {
            Ok(event) => event,
            Err(fatal) => {
                return Err(fatal);
            },
        };
        let shown = self.present(event);
        let turn = self.turn;
        self.turn = turn + 1;
        match shown {
            Some(shown) => Ok(Some((shown, turn))),
            None => Ok(None),
        }
    }

    /// Takes one turn of the loop. What the wait ended with is taken in; the
    /// player is shown what is due, as [`GameEnv::due`] gives it, and its
    /// answer is returned, to be written to the game.
    pub fn step<R: Reactor>(&mut self, ai: &mut R, received: &Received) -> (answer: Result<
        Option<Vec<u8>>,
        Fatal,
    >)
        requires
            old(self).wf(),
            old(self)@.running(),
        ensures
            final(self).wf(),
            final(self)@ == old(self)@.step(received@).0,
            match old(self)@.step(received@).1 {
                Ok(Some(_)) => answer is Ok,
                Ok(None) => answer == Ok::<Option<Vec<u8>>, Fatal>(None),
                Err(fatal) => answer == Err::<Option<Vec<u8>>, Fatal>(fatal),
            },
            final(self)@.result_of(received@) == match old(self)@.observe(received@).1 {
                Ok(event) => Some(event),
                Err(_) => None,
            },
            old(self)@.screen.persists_as(final(self)@.screen),
            final(self)@.timeout == old(self)@.timeout,
            final(self)@.draw_type == old(self)@.draw_type,
    {
        match self.due(received) {
            Ok(Some((shown, turn))) => Ok(ai.action(shown, turn)),
            Ok(None) => Ok(None),
            Err(fatal) => Err(fatal),
        }
    }

    /// Whether the game has to be ended by force once the loop is over: it
    /// has not closed its output.
    pub fn must_kill(&self) -> (kill: bool)
        ensures
            kill == !self@.proc_dead,
    {
        !self.proc_dead
    }

    /// What is due to the player once the loop is over: where the game has
    /// not closed its output, that the game has ended, at the turn after the
    /// last.
    pub fn last_words(&self) -> (due: Option<(ActionResult, usize)>)
        ensures
            match due {
                Some((shown, turn)) => self@.last_words() == Some((shown@, turn as nat)),
                None => self@.last_words() is None,
            },
    {
        if !self.proc_dead {
            Some((ActionResult::GameEnded, self.max_loop))
        } else {
            None
        }
    }

    /// Ends the loop. The player is told what is due, as
    /// [`GameEnv::last_words`] gives it, and what it answers is dropped.
    pub fn finish<R: Reactor>(&self, ai: &mut R) -> (told: bool)
        ensures
            told == self@.last_words() is Some,
    {
        match self.last_words() {
            Some((shown, turn)) => {
                let _ = ai.action(shown, turn);
                true
            },
            None => false,
        }
    }
}

} // verus!
